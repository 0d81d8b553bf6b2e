use modtorio::command::{Command, ShutdownReason};
use modtorio::control::{control_operation, find_server, graceful_shutdown_plan, ControlOperation, ServerControlAction};
use modtorio::error::{ExecutableError, PathError, ResponseError, RpcError, ServerError, ZipError};
use modtorio::executable::{detect_version, exit_result, output_result, run_output, stdout_event, ExecutableEvent};
use modtorio::importer::{path_join, settings_source, Importer, SettingsSource, StoredGame};
use modtorio::path::{archive_filename, file_name, find_file, url_file_name, PathExt};
use modtorio::playerlist::Playerlist;
use modtorio::server::{assert_status, command_input, get_executable_args, store_id};
use modtorio::settings::start::{Start, StartBehaviour};
use modtorio::status::ExecutionStatus;
use modtorio::version::HumanVersion;

#[test]
fn command_strings() {
    let raw = Command::Raw(vec![String::from("c"), String::from("game.print(1)")]);
    assert_eq!(raw.get_command_string(), "/c game.print(1)\n");
    assert_eq!(Command::Raw(vec![]).get_command_string(), "/\n");
    assert_eq!(Command::Say(String::from("hello")).get_command_string(), "hello\n");
    assert_eq!(Command::Save(String::from("world")).get_command_string(), "/save world\n");
    assert_eq!(Command::Quit.get_command_string(), "/quit\n");
}

#[test]
fn shutdown_notices() {
    match Command::shutdown_notice(ShutdownReason::Restart, None, 30) {
        Command::Say(m) => assert_eq!(m, "The server will restart in 30 seconds!"),
        other => panic!("unexpected command {:?}", other),
    }
    match Command::shutdown_notice(ShutdownReason::Shutdown, Some(5), 30) {
        Command::Say(m) => assert_eq!(m, "The server will shut down in 5 seconds!"),
        other => panic!("unexpected command {:?}", other),
    }
}

#[test]
fn status_checks() {
    assert!(assert_status(ExecutionStatus::Running, ExecutionStatus::Running).is_ok());
    match assert_status(ExecutionStatus::Crashed, ExecutionStatus::Running) {
        Err(ServerError::InvalidGameStatus(s)) => assert_eq!(s, ExecutionStatus::Crashed),
        other => panic!("unexpected result {:?}", other),
    }
    assert_eq!(store_id(Some(4)).expect("stored"), 4);
    assert!(matches!(store_id(None), Err(ServerError::GameNotInStore)));
    assert_eq!(command_input(ExecutionStatus::Running, &Command::Quit).expect("running"), "/quit\n");
    assert!(matches!(
        command_input(ExecutionStatus::Starting, &Command::Quit),
        Err(ServerError::InvalidGameStatus(ExecutionStatus::Starting))
    ));
}

#[test]
fn executable_arguments() {
    let latest = Start { save_name: String::new(), behaviour: StartBehaviour::LoadLatest, auto: false };
    assert_eq!(get_executable_args(&latest, "0.0.0.0:34197"), vec!["--start-server-load-latest", "--bind", "0.0.0.0:34197"]);
    let file = Start { save_name: String::from("world.zip"), behaviour: StartBehaviour::LoadFile, auto: false };
    assert_eq!(get_executable_args(&file, "[::1]:1"), vec!["--start-server", "world.zip", "--bind", "[::1]:1"]);
}

#[test]
fn control_actions() {
    assert_eq!(control_operation(Some(ServerControlAction::Start)).unwrap(), ControlOperation::Run);
    assert_eq!(
        control_operation(Some(ServerControlAction::Stop { timeout_override: 0 })).unwrap(),
        ControlOperation::GracefulShutdown(None)
    );
    assert_eq!(
        control_operation(Some(ServerControlAction::Restart { timeout_override: 9 })).unwrap(),
        ControlOperation::GracefulRestart(Some(9))
    );
    assert!(matches!(control_operation(None), Err(RpcError::MissingArgument)));
    assert_eq!(find_server(&vec![None, Some(3), Some(7), Some(3)], 3).unwrap(), 1);
    assert!(matches!(find_server(&vec![None, Some(3)], 8), Err(RpcError::NoSuchServer(8))));
}

#[test]
fn graceful_shutdown_plans() {
    let plan = graceful_shutdown_plan(ExecutionStatus::Running, 2, ShutdownReason::Shutdown, None, 60).expect("running");
    match plan.warning {
        Some((Command::Say(m), secs)) => {
            assert_eq!(m, "The server will shut down in 60 seconds!");
            assert_eq!(secs, 60);
        }
        other => panic!("unexpected warning {:?}", other),
    }
    assert!(matches!(plan.quit, Command::Quit));
    let empty = graceful_shutdown_plan(ExecutionStatus::Running, 0, ShutdownReason::Restart, Some(3), 60).expect("running");
    assert!(empty.warning.is_none());
    assert!(graceful_shutdown_plan(ExecutionStatus::Shutdown, 0, ShutdownReason::Restart, None, 60).is_err());
}

#[test]
fn paths() {
    assert_eq!(path_join("/srv/game", "mods/"), "/srv/game/mods/");
    assert_eq!(path_join("/srv/game/", "a.json"), "/srv/game/a.json");
    assert_eq!(path_join("/srv/game", "/etc/b.json"), "/etc/b.json");
    assert_eq!(path_join("", "c"), "c");
    assert_eq!(file_name("/a/b/c.zip").as_deref(), Some("c.zip"));
    assert_eq!(file_name("a/b/").as_deref(), Some("b"));
    assert_eq!(file_name("a/./").as_deref(), Some("a"));
    assert_eq!(file_name("a/.."), None);
    assert_eq!(file_name("/"), None);
    assert_eq!(file_name(""), None);
    assert_eq!("mod_1.0.0.zip".get_file_stem().unwrap(), "mod_1.0.0");
    assert_eq!(".hidden".get_file_stem().unwrap(), ".hidden");
    assert_eq!("dir/archive.tar.gz".get_file_stem().unwrap(), "archive.tar");
    assert_eq!("dir/noext".get_file_name().unwrap(), "noext");
    assert!(matches!("..".get_file_name(), Err(PathError::NoFilename)));
}

#[test]
fn file_names_agree_with_std() {
    let cases = ["a", "a/b", "/a/b/", "./x", ".", "..", "a/..", "//", "a//b", "a/./b/.", "x.y.z", "/"];
    for c in cases.iter() {
        let expected = std::path::Path::new(c).file_name().map(|n| n.to_string_lossy().to_string());
        assert_eq!(file_name(c), expected, "path {:?}", c);
        let stem = std::path::Path::new(c).file_stem().map(|n| n.to_string_lossy().to_string());
        assert_eq!(c.get_file_stem().ok(), stem, "path {:?}", c);
    }
}

#[test]
fn zip_entries_and_urls() {
    let entries = vec![String::from("mod_1.0.0/"), String::from("mod_1.0.0/data.lua"), String::from("mod_1.0.0/info.json")];
    assert_eq!(find_file(&entries, "info.json").unwrap(), "mod_1.0.0/info.json");
    match find_file(&entries, "control.lua") {
        Err(ZipError::NoFile(n)) => assert_eq!(n, "control.lua"),
        other => panic!("unexpected result {:?}", other),
    }
    assert_eq!(url_file_name("/download/mod/abc.zip").unwrap(), "abc.zip");
    assert!(matches!(url_file_name("/download/"), Err(ResponseError::NoFilename)));
    assert_eq!(archive_filename("my-mod", &HumanVersion::new(0, 18, 2)), "my-mod_0.18.2.zip");
}

#[test]
fn importer_paths() {
    let imp = Importer::from_root("./server", "/home/u/server");
    assert_eq!(imp.root(), "/home/u/server");
    assert_eq!(imp.executable(), "./server/bin/x64/factorio");
    let paths = imp.import_paths();
    assert_eq!(paths.mods, "/home/u/server/mods/");
    assert_eq!(paths.settings, "/home/u/server/server-settings.json");
    let files = imp.custom_files();
    assert!(files.settings_file.is_none() && files.banlist_file.is_none());
    let imp = imp.with_server_settings("custom.json").with_banlist("/etc/ban.json");
    let files = imp.custom_files();
    assert_eq!(files.settings_file.as_deref(), Some("custom.json"));
    assert_eq!(files.banlist_file.as_deref(), Some("/etc/ban.json"));
    assert_eq!(imp.import_paths().banlist, "/etc/ban.json");
    let custom = Importer::from_root("./server", "/home/u/server").with_executable_path("bin/other");
    assert_eq!(custom.executable(), "/home/u/server/bin/other");
    let absolute = Importer::from_root("./server", "/home/u/server").with_executable_path("/opt/factorio");
    assert_eq!(absolute.executable(), "/opt/factorio");

    let stored = StoredGame {
        id: 3,
        path: String::from("/srv/g"),
        settings_file: Some(String::from("s.json")),
        whitelist_file: None,
        banlist_file: None,
        adminlist_file: None,
    };
    let imp = Importer::from_store(&stored);
    assert_eq!(imp.game_store_id(), Some(3));
    assert_eq!(imp.executable(), "/srv/g/bin/x64/factorio");
    assert_eq!(imp.import_paths().settings, "/srv/g/s.json");
    assert_eq!(imp.import_paths().whitelist, "/srv/g/server-whitelist.json");
    assert_eq!(imp.custom_files().whitelist_file.as_deref(), Some("/srv/g/server-whitelist.json"));
}

#[test]
fn settings_sources() {
    assert_eq!(settings_source(None, 5), SettingsSource::File);
    assert_eq!(settings_source(Some(5), 6), SettingsSource::File);
    assert_eq!(settings_source(Some(5), 5), SettingsSource::Store);
}

#[test]
fn executable_results() {
    assert!(exit_result(true, Some(0)).is_ok());
    assert!(matches!(
        exit_result(false, Some(3)),
        Err(ExecutableError::Unsuccesfull { exit_code: Some(3), stdout: None, stderr: None })
    ));
    assert_eq!(output_result(true, Some(0), String::from("out"), String::from("err")).unwrap(), "out");
    match run_output(false, None, &b"bad \xff output".to_vec(), &b"error \xfe".to_vec()) {
        Err(ExecutableError::Unsuccesfull { exit_code: None, stdout: Some(o), stderr: Some(e) }) => {
            assert_eq!(o, "bad \u{fffd} output");
            assert_eq!(e, "error \u{fffd}");
        }
        other => panic!("unexpected result {:?}", other),
    }
    assert_eq!(run_output(true, Some(0), &b"ok".to_vec(), &b"warning".to_vec()).unwrap(), "ok");
}

#[test]
fn version_detection() {
    let report = String::from("Version: 1.0.0 (build 1, linux64, headless)\nBinary version: 64\nMap input version: 0.18.0-0\nMap output version: 1.0.0-0\n");
    let v = detect_version("/bin/factorio", Ok(report)).expect("valid report");
    assert_eq!(v.version, HumanVersion::new(1, 0, 0));
    match detect_version("/bin/factorio", Ok(String::from("not factorio"))) {
        Err(ExecutableError::InvalidExecutable { path }) => assert_eq!(path, "/bin/factorio"),
        other => panic!("unexpected result {:?}", other),
    }
    match detect_version("/x", Err(ExecutableError::NoStdioHandle)) {
        Err(ExecutableError::InvalidExecutable { path }) => assert_eq!(path, "/x"),
        other => panic!("unexpected result {:?}", other),
    }
}

#[test]
fn stdout_lines() {
    match stdout_event(7, "[JOIN] a joined the game") {
        Some(ExecutableEvent::GameEvent(e)) => assert_eq!(e.timestamp, 7),
        other => panic!("unexpected event {:?}", other),
    }
    assert!(stdout_event(7, "random noise").is_none());
}

#[test]
fn playerlists() {
    let mut list = Playerlist::new(vec![String::from("a"), String::from("b"), String::from("a")]);
    assert!(list.contains("b"));
    match list.add(String::from("a")) {
        Err(ServerError::PlayerAlreadyExists(n)) => assert_eq!(n, "a"),
        other => panic!("unexpected result {:?}", other),
    }
    list.add(String::from("c")).expect("new player");
    assert_eq!(list.players(), &vec![String::from("a"), String::from("b"), String::from("a"), String::from("c")]);
    list.remove("a").expect("present");
    assert_eq!(list.players(), &vec![String::from("b"), String::from("c")]);
    match list.remove("a") {
        Err(ServerError::NoSuchPlayer(n)) => assert_eq!(n, "a"),
        other => panic!("unexpected result {:?}", other),
    }
}
