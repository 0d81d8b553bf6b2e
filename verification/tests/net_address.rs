use modtorio::config::NetAddress;
use modtorio::settings::network::SocketAddress;

/// The text of an IPv4 socket address.
fn v4_text(ip: u32, port: u16) -> String {
    let o = ip.to_be_bytes();
    format!("{}.{}.{}.{}:{}", o[0], o[1], o[2], o[3], port)
}

#[test]
fn parse() {
    assert!(NetAddress::unix_path("0.0.0.0:1337").is_none(), "failed to parse TCP");
    match NetAddress::unix_path("unix:/temp/path") {
        Some(p) => assert_eq!(p, "/temp/path"),
        None => panic!("failed to parse Unix"),
    }
}

#[test]
fn serialize() {
    let tcp = NetAddress::Tcp(SocketAddress::V4 { ip: 0, port: 1337 });
    match tcp {
        NetAddress::Tcp(SocketAddress::V4 { ip, port }) => assert_eq!(v4_text(ip, port), "0.0.0.0:1337", "failed to serialize TCP"),
        _ => panic!("failed to serialize TCP"),
    }
    assert_eq!(NetAddress::unix_text("/temp/path"), "unix:/temp/path", "failed to serialize Unix");
}

#[test]
fn deserialize() {
    let unix = NetAddress::unix_path("unix:/temp/path").expect("failed to deserialize Unix");
    assert_eq!(NetAddress::unix_text(&unix), "unix:/temp/path");
    assert!(NetAddress::unix_path("0.0.0.0:1337").is_none(), "failed to deserialize TCP");
}
