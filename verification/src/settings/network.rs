//! A server's network settings: its traffic settings and the address it listens on.
use crate::settings::game_format::ServerSettingsGameFormat;
use crate::settings::limit::{Limit, Range};
use crate::settings::store_format::GameSettings;
use crate::settings::traffic::{
    traffic_into_game_format, traffic_into_store_format, traffic_of_game_format,
    traffic_of_store_format, SegmentSize, Traffic, Upload,
};
use vstd::prelude::*;

verus! {

/// The port a server listens on unless told otherwise.
pub const DEFAULT_LISTEN_PORT: u16 = 34197;

/// The IPv4 loopback address, `127.0.0.1`, as an integer.
pub const LOCALHOST_V4: u32 = 0x7f00_0001;

/// A socket address: an IP address and a port.
#[derive(Clone, Copy, Debug)]
pub enum SocketAddress {
    /// An IPv4 address, as the integer of its four octets in network order, and a port.
    V4 { ip: u32, port: u16 },
    /// An IPv6 address, as its sixteen octets, and a port.
    V6 { octets: [u8; 16], port: u16 },
}

/// The address a server listens on unless told otherwise: `127.0.0.1:34197`.
pub open spec fn default_bind_address() -> SocketAddress {
    SocketAddress::V4 { ip: LOCALHOST_V4, port: DEFAULT_LISTEN_PORT }
}

/// A server's network settings.
#[derive(Clone, Copy, Debug)]
pub struct Network {
    /// The upload settings.
    pub upload: Upload,
    /// The `minimum_latency_in_ticks` setting. Defaults to 0.
    pub minimum_latency: u64,
    /// The segment size settings.
    pub segment_size: SegmentSize,
    /// The address the server listens on. Defaults to `127.0.0.1:34197`.
    pub bind_address: SocketAddress,
}

/// The network settings made of traffic settings and an address.
pub open spec fn network_of(t: Traffic, bind_address: SocketAddress) -> Network {
    Network {
        upload: t.upload,
        minimum_latency: t.minimum_latency,
        segment_size: t.segment_size,
        bind_address,
    }
}

/// The traffic settings among the network settings.
pub open spec fn traffic_of_network(n: Network) -> Traffic {
    Traffic { upload: n.upload, minimum_latency: n.minimum_latency, segment_size: n.segment_size }
}

impl Default for Network {
    fn default() -> (r: Self)
        ensures
            r == network_of(
                Traffic {
                    upload: Upload { max: Limit::Unlimited, slots: Limit::Limited(5) },
                    minimum_latency: 0,
                    segment_size: SegmentSize {
                        size: Range { min: 25, max: 100 },
                        peer_count: Range { min: 20, max: 10 },
                    },
                },
                default_bind_address(),
            ),
    {
        Network {
            upload: Upload::default(),
            minimum_latency: 0,
            segment_size: SegmentSize::default(),
            bind_address: SocketAddress::V4 { ip: LOCALHOST_V4, port: DEFAULT_LISTEN_PORT },
        }
    }
}

/// The address of a remote request's bind setting.
#[derive(Debug)]
pub enum RpcAddress {
    /// An IPv4 address as an integer.
    V4(u32),
    /// The octets of an IPv6 address; any number of them may be sent.
    V6(Vec<u8>),
}

/// A remote request's bind setting: a port and, optionally, an address.
#[derive(Debug)]
pub struct RpcSocketAddress {
    /// The port; only its low 16 bits are used.
    pub port: u32,
    /// The address, if given.
    pub addr: Option<RpcAddress>,
}

/// The sixteen octets made of the first sixteen of `bytes`, padded with zeros.
pub open spec fn v6_octets(bytes: Seq<u8>) -> Seq<u8> {
    Seq::new(16, |i: int| if i < bytes.len() { bytes[i] } else { 0u8 })
}

/// The sixteen octets of an IPv6 address sent in a remote request: the first sixteen of those
/// sent, padded with zeros.
fn v6_address(bytes: &Vec<u8>) -> (r: [u8; 16])
    ensures
        r@ == v6_octets(bytes@),
{
    let mut octets = [0u8; 16];
    let mut i: usize = 0;
    while i < 16 && i < bytes.len()
        invariant
            i <= 16,
            i <= bytes.len(),
            octets@.len() == 16,
            forall|k: int| 0 <= k < i ==> octets@[k] == bytes@[k],
            forall|k: int| i <= k < 16 ==> octets@[k] == 0u8,
        decreases 16 - i,
    {
        octets[i] = bytes[i];
        i = i + 1;
    }
    assert(octets@ =~= v6_octets(bytes@));
    octets
}

impl Network {
    /// Returns the network settings of a `server-settings.json` structure, which holds no
    /// address: the address is the default one.
    pub fn from_game_format(game_format: &ServerSettingsGameFormat) -> (r: Self)
        ensures
            r == network_of(traffic_of_game_format(game_format@), default_bind_address()),
    {
        let t = Traffic::from_game_format(game_format);
        Network {
            upload: t.upload,
            minimum_latency: t.minimum_latency,
            segment_size: t.segment_size,
            bind_address: SocketAddress::V4 { ip: LOCALHOST_V4, port: DEFAULT_LISTEN_PORT },
        }
    }

    /// Writes these settings into a `server-settings.json` structure, which holds no address.
    pub fn to_game_format(&self, game_format: &mut ServerSettingsGameFormat)
        ensures
            final(game_format)@ == traffic_into_game_format(
                traffic_of_network(*self),
                old(game_format)@,
            ),
    {
        let t = Traffic {
            upload: self.upload,
            minimum_latency: self.minimum_latency,
            segment_size: self.segment_size,
        };
        t.to_game_format(game_format);
    }

    /// Returns the network settings of a stored game's settings, which hold no address: the
    /// address is the default one.
    pub fn from_store_format(store_format: &GameSettings) -> (r: Self)
        ensures
            r == network_of(traffic_of_store_format(store_format@), default_bind_address()),
    {
        let t = Traffic::from_store_format(store_format);
        Network {
            upload: t.upload,
            minimum_latency: t.minimum_latency,
            segment_size: t.segment_size,
            bind_address: SocketAddress::V4 { ip: LOCALHOST_V4, port: DEFAULT_LISTEN_PORT },
        }
    }

    /// Writes these settings into a stored game's settings, which hold no address.
    pub fn to_store_format(&self, store_format: &mut GameSettings)
        ensures
            final(store_format)@ == traffic_into_store_format(
                traffic_of_network(*self),
                old(store_format)@,
            ),
    {
        let t = Traffic {
            upload: self.upload,
            minimum_latency: self.minimum_latency,
            segment_size: self.segment_size,
        };
        t.to_store_format(store_format);
    }

    /// The address that a remote request's bind setting stands for: the default address when
    /// there is no setting, else the setting's address with the low 16 bits of its port, where
    /// a missing address is the IPv4 loopback and an IPv6 address is made of the first sixteen
    /// octets sent, padded with zeros.
    pub fn bind_address_from_rpc(bind: &Option<RpcSocketAddress>) -> (r: SocketAddress)
        ensures
            match bind {
                None => r == default_bind_address(),
                Some(b) => match b.addr {
                    None => r == (SocketAddress::V4 { ip: LOCALHOST_V4, port: b.port as u16 }),
                    Some(RpcAddress::V4(ip)) => r == (SocketAddress::V4 { ip, port: b.port as u16 }),
                    Some(RpcAddress::V6(bytes)) => r matches SocketAddress::V6 { octets, port }
                        && octets@ == v6_octets(bytes@) && port == b.port as u16,
                },
            },
    {
        match bind {
            None => SocketAddress::V4 { ip: LOCALHOST_V4, port: DEFAULT_LISTEN_PORT },
            Some(b) => {
                let port = b.port as u16;
                match &b.addr {
                    None => SocketAddress::V4 { ip: LOCALHOST_V4, port },
                    Some(RpcAddress::V4(ip)) => SocketAddress::V4 { ip: *ip, port },
                    Some(RpcAddress::V6(bytes)) => SocketAddress::V6 { octets: v6_address(bytes), port },
                }
            },
        }
    }
}

} // verus!
