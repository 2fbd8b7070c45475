use androlon::config::SdkConfig;
use androlon::emulator::EmulatorService;
use androlon::host::Host;
use androlon::ipc::{
    connect_or_spawn, daemon_path, read_reply, request_line, socket_path, state_dir, ConnectError,
    CONNECT_TRIES,
};
use androlon::json::Value;
use androlon::runtimed::{
    linger_seconds, package_names, read_request, Connection, Daemon, Leases, Outcome, Request,
};
use androlon::step::{Action, Reply, Step};
use androlon::subprocess::RawOutput;

fn ran(out: &str) -> Reply {
    Reply::Ran(Ok(RawOutput {
        code: Some(0),
        stdout: out.as_bytes().to_vec(),
        stderr: Vec::new(),
    }))
}

fn failed(e: &str) -> Reply {
    Reply::Did(Err(e.to_string()))
}

#[test]
fn the_socket_lies_in_the_state_directory() {
    assert_eq!(state_dir(Some("/home/u")), "/home/u/.androlon");
    assert_eq!(socket_path(Some("/home/u")), "/home/u/.androlon/runtimed.sock");
    assert!(socket_path(None).ends_with("/runtimed.sock"));
}

#[test]
fn a_request_reads_back() {
    let line = request_line("status", &vec![]);
    assert_eq!(line, "{\"req\":\"status\"}\n");
    assert!(matches!(read_request(&line), Request::Status));
    let line = request_line("launch", &vec![("pkg".to_string(), Value::Str("com.a".into()))]);
    match read_request(&line) {
        Request::Unknown(verb) => assert_eq!(verb, "launch"),
        other => panic!("{other:?}"),
    }
    let r = read_reply(&line).unwrap();
    assert_eq!(r.str("pkg"), Some("com.a"));
}

#[test]
fn requests_are_told_apart() {
    for (line, want) in [
        ("{\"req\":\"ensure-booted\"}\n", "EnsureBooted"),
        ("{\"req\":\"release\"}", "Release"),
        ("{\"req\":\"installed-apps\"}", "InstalledApps"),
        ("{\"req\":\"shutdown\"}", "Shutdown"),
        ("{\"req\":7}", "NoVerb"),
        ("{}", "NoVerb"),
        ("hello", "Bad"),
    ] {
        assert_eq!(format!("{:?}", read_request(line)), want);
    }
}

#[test]
fn a_reply_is_read_member_by_member() {
    let r = read_reply("{\"ok\":true,\"n\":-4,\"l\":[\"a\"],\"s\":\"x\"}\n").unwrap();
    assert!(r.ok());
    assert_eq!(r.err(), None);
    assert_eq!(r.bool("ok"), Some(true));
    assert_eq!(r.integer("n"), Some(-4));
    assert_eq!(r.list("l"), Some(&vec!["a".to_string()]));
    assert_eq!(r.str("s"), Some("x"));
    assert_eq!(r.str("n"), None);
    let r = read_reply("{\"err\":\"no\"}").unwrap();
    assert!(!r.ok());
    assert_eq!(r.err(), Some("no"));
    assert_eq!(read_reply("what?\n").unwrap_err(), "bad reply: what?\n");
}

#[test]
fn the_daemon_lies_beside_its_caller() {
    assert_eq!(daemon_path(Some("/d"), Err("x".into())), Ok("/d".to_string()));
    assert_eq!(
        daemon_path(None, Ok("/opt/androlon/androlon-app".into())),
        Ok("/opt/androlon/androlon-runtimed".to_string())
    );
    assert_eq!(daemon_path(None, Err("x".into())), Err("x".to_string()));
}

/// Connects; the socket answers at the try with the number `alive`.
fn connect(alive: usize) -> (usize, Result<(), ConnectError>) {
    let daemon = Ok("/opt/androlon-runtimed".to_string());
    let mut replies = Vec::new();
    let mut tries = 0;
    loop {
        let reply = match connect_or_spawn("/s", &daemon, &replies) {
            Step::Done(r) => return (tries, r),
            Step::Do(Action::Connect(p)) => {
                assert_eq!(p, "/s");
                tries += 1;
                if tries > alive {
                    Reply::Did(Ok(()))
                } else {
                    failed("refused")
                }
            }
            Step::Do(Action::Exists(_)) => Reply::Answer(true),
            Step::Do(Action::Wait(ms)) => {
                assert_eq!(ms, 100);
                Reply::Did(Ok(()))
            }
            Step::Do(_) => Reply::Did(Ok(())),
        };
        replies.push(reply);
    }
}

#[test]
fn a_daemon_is_started_where_none_answers() {
    let (tries, r) = connect(0);
    assert!(r.is_ok() && tries == 1);
    let (tries, r) = connect(3);
    assert!(r.is_ok() && tries == 4);
    let (tries, r) = connect(usize::MAX - 1);
    assert_eq!(tries, CONNECT_TRIES as usize + 1);
    match r {
        Err(ConnectError::TimedOut(e)) => assert_eq!(e, "androlon-runtimed did not come up"),
        other => panic!("{other:?}"),
    }
}

#[test]
fn a_daemon_that_is_not_there_is_named() {
    let daemon = Ok("/opt/androlon-runtimed".to_string());
    let replies = vec![failed("refused"), Reply::Did(Ok(())), Reply::Answer(false)];
    match connect_or_spawn("/s", &daemon, &replies) {
        Step::Done(Err(ConnectError::NotFound(e))) => {
            assert_eq!(e, "androlon-runtimed not found at /opt/androlon-runtimed")
        }
        other => panic!("{other:?}"),
    }
    let replies = vec![failed("refused"), Reply::Did(Ok(()))];
    match connect_or_spawn("/s", &Err("unknown".to_string()), &replies) {
        Step::Done(Err(ConnectError::Io(e))) => assert_eq!(e, "unknown"),
        other => panic!("{other:?}"),
    }
}

#[test]
fn a_runtime_goes_once_nobody_needs_it() {
    let mut s = Leases::new();
    s.booted_by_us = true;
    s.lease_added();
    s.lease_added();
    assert_eq!(s.lease_removed(30), None);
    let timer = s.lease_removed(30).unwrap();
    assert_eq!(timer.seconds, 30);
    assert!(s.stops(timer));
    // Somebody came in the meantime.
    let mut busy = s;
    busy.lease_added();
    assert!(!busy.stops(timer));
    // Somebody came and went.
    let again = busy.lease_removed(30).unwrap();
    assert!(!busy.stops(timer));
    assert!(busy.stops(again));
}

#[test]
fn a_runtime_of_someone_else_stays() {
    let mut s = Leases::new();
    s.lease_added();
    assert_eq!(s.lease_removed(0), None);
}

#[test]
fn the_linger_is_a_number_of_seconds() {
    let default = linger_seconds(None);
    assert_eq!(linger_seconds(Some("5")), 5);
    assert_eq!(linger_seconds(Some("soon")), default);
}

#[test]
fn apps_are_named_without_the_word_before_them() {
    assert_eq!(package_names("package:com.a\r\nother\npackage: com.b \n"), vec!["com.a", "com.b"]);
}

#[test]
fn a_client_counts_once() {
    let mut s = Leases::new();
    let mut c = Connection::new();
    let (line, timer) = c.serve(&mut s, &Request::EnsureBooted, Outcome::Booted(true), 9);
    assert_eq!(line, "{\"booted\":true,\"ok\":true}\n");
    assert!(timer.is_none() && c.leased && s.booted_by_us);
    c.serve(&mut s, &Request::EnsureBooted, Outcome::Booted(false), 9);
    assert_eq!(s.leases, 1);
    let (line, _) = c.serve(&mut s, &Request::Status, Outcome::Running(true), 9);
    assert_eq!(line, "{\"booted\":true,\"leases\":1,\"ok\":true}\n");
    let (line, timer) = c.serve(&mut s, &Request::Release, Outcome::Nothing, 9);
    assert_eq!(line, "{\"ok\":true}\n");
    assert_eq!(timer.unwrap().seconds, 9);
    assert_eq!((s.leases, c.leased), (0, false));
    assert!(c.close(&mut s, 9).is_none());
}

#[test]
fn a_refused_request_is_answered_with_an_error() {
    let mut s = Leases::new();
    let mut c = Connection::new();
    for (request, want) in [
        (Request::Bad, "{\"err\":\"bad request\"}\n"),
        (Request::NoVerb, "{\"err\":\"missing req\"}\n"),
        (Request::Unknown("fly".into()), "{\"err\":\"unknown req: fly\"}\n"),
    ] {
        let (line, timer) = c.serve(&mut s, &request, Outcome::Nothing, 9);
        assert_eq!(line, want);
        assert!(timer.is_none());
    }
    let failed = Outcome::Failed("no emulator".into());
    let (line, _) = c.serve(&mut s, &Request::EnsureBooted, failed, 9);
    assert_eq!(line, "{\"err\":\"no emulator\"}\n");
    assert_eq!((s, c), (Leases::new(), Connection::new()));
}

#[test]
fn a_connection_that_closes_gives_its_lease_back() {
    let mut s = Leases::new();
    let mut c = Connection::new();
    c.serve(&mut s, &Request::EnsureBooted, Outcome::Booted(true), 9);
    assert!(c.close(&mut s, 9).is_some());
    assert_eq!(s.leases, 0);
}

#[test]
fn the_daemon_attends_to_requests() {
    let config = SdkConfig::from_env(Host::Linux, None, Some("/sdk"), None, None, None);
    let d = Daemon { engine: EmulatorService::new(config), log: "/l".into() };
    assert!(matches!(
        d.attend(&Request::Status, &vec![ran("device")]),
        Step::Done(Outcome::Running(true))
    ));
    assert!(matches!(
        d.attend(&Request::EnsureBooted, &vec![ran("device")]),
        Step::Done(Outcome::Booted(false))
    ));
    match d.attend(&Request::InstalledApps, &vec![ran("package:com.a\npackage:com.b\n")]) {
        Step::Done(Outcome::Apps(list)) => assert_eq!(list, vec!["com.a", "com.b"]),
        other => panic!("{other:?}"),
    }
    assert!(matches!(d.attend(&Request::Shutdown, &vec![]), Step::Do(Action::Run(_))));
    assert!(matches!(d.attend(&Request::Release, &vec![]), Step::Done(Outcome::Nothing)));
}

#[test]
fn a_client_holds_one_lease_at_most() {
    let mut s = Leases::new();
    let mut other = Connection::new();
    other.serve(&mut s, &Request::EnsureBooted, Outcome::Booted(true), 9);
    let before = s.leases;
    let mut c = Connection::new();
    for (request, outcome, held) in [
        (Request::Release, Outcome::Nothing, 0),
        (Request::EnsureBooted, Outcome::Failed("no".into()), 0),
        (Request::EnsureBooted, Outcome::Booted(false), 1),
        (Request::EnsureBooted, Outcome::Booted(false), 1),
        (Request::EnsureBooted, Outcome::Failed("no".into()), 1),
        (Request::Bad, Outcome::Nothing, 1),
        (Request::Release, Outcome::Nothing, 0),
        (Request::Release, Outcome::Nothing, 0),
        (Request::EnsureBooted, Outcome::Booted(true), 1),
    ] {
        c.serve(&mut s, &request, outcome, 9);
        assert_eq!(s.leases, before + held, "{request:?}");
    }
    c.close(&mut s, 9);
    assert_eq!(s.leases, before);
}
