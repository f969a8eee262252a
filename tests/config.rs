use so_config::{
    config_dir, config_file_in, config_file_name, project_dir, project_identity, set_api_key, Action,
    Config, Error, Event, PermissionType, Request, Session,
};

fn record(key: Option<&str>, limit: u16, site: &str) -> Config {
    Config { api_key: key.map(|k| k.to_string()), limit, site: site.to_string() }
}

fn start(request: Request) -> (Session, String) {
    let (s, a) = Session::new(request, "/home/alice/.config/so".to_string());
    match a {
        Action::CreateDir(d) => assert_eq!(d, "/home/alice/.config/so"),
        other => panic!("unexpected first action {:?}", other),
    }
    let file = config_file_in(&"/home/alice/.config/so".to_string());
    (s, file)
}

fn expect_read(s: Session, file: &str) -> Session {
    let (s, a) = s.step(Event::DirCreated);
    match a {
        Action::Read(f) => assert_eq!(f, file),
        other => panic!("expected a read, got {:?}", other),
    }
    s
}

fn expect_write(s: Session, e: Event, file: &str) -> (Session, Config) {
    let (s, a) = s.step(e);
    match a {
        Action::Write(f, c) => {
            assert_eq!(f, file);
            (s, c)
        }
        other => panic!("expected a write, got {:?}", other),
    }
}

fn expect_ok(s: Session, e: Event) -> Config {
    match s.step(e).1 {
        Action::Finish(Ok(c)) => c,
        other => panic!("expected success, got {:?}", other),
    }
}

fn expect_err(s: Session, e: Event) -> Error {
    match s.step(e).1 {
        Action::Finish(Err(err)) => err,
        other => panic!("expected failure, got {:?}", other),
    }
}

#[test]
fn default_record_values() {
    let c = Config::default();
    assert_eq!(c.api_key, None);
    assert_eq!(c.limit, 20);
    assert_eq!(c.site, "stackoverflow");
}

#[test]
fn config_file_lies_in_directory() {
    let f = config_file_in(&"/home/alice/.config/so".to_string());
    assert_eq!(f, "/home/alice/.config/so/config.yml");
}

#[test]
fn update_sets_key_and_keeps_other_fields() {
    let c = set_api_key(Config::default(), "abc123".to_string());
    assert_eq!(c.api_key.as_deref(), Some("abc123"));
    assert_eq!(c.limit, 20);
    assert_eq!(c.site, "stackoverflow");
}

#[test]
fn repeated_update_overwrites() {
    let c = set_api_key(Config::default(), "k1".to_string());
    let c = set_api_key(c, "k2".to_string());
    assert_eq!(c.api_key.as_deref(), Some("k2"));
    assert_eq!(c.limit, 20);
    assert_eq!(c.site, "stackoverflow");
}

#[test]
fn load_of_absent_file_writes_default() {
    let (s, file) = start(Request::Load);
    let s = expect_read(s, &file);
    let (s, written) = expect_write(s, Event::Unopenable, &file);
    assert_eq!(written.api_key, None);
    assert_eq!(written.limit, 20);
    assert_eq!(written.site, "stackoverflow");
    let c = expect_ok(s, Event::Written);
    assert_eq!(c.api_key, None);
    assert_eq!(c.limit, 20);
    assert_eq!(c.site, "stackoverflow");
}

#[test]
fn load_returns_stored_record_without_writing() {
    for _ in 0..2 {
        let (s, file) = start(Request::Load);
        let s = expect_read(s, &file);
        let c = expect_ok(s, Event::Parsed(record(Some("xyz"), 7, "superuser")));
        assert_eq!(c.api_key.as_deref(), Some("xyz"));
        assert_eq!(c.limit, 7);
        assert_eq!(c.site, "superuser");
    }
}

#[test]
fn update_of_stored_record_then_load() {
    let (s, file) = start(Request::SetKey("abc123".to_string()));
    let s = expect_read(s, &file);
    let (s, w) = expect_write(s, Event::Parsed(Config::default()), &file);
    assert_eq!(w.api_key.as_deref(), Some("abc123"));
    assert_eq!(w.limit, 20);
    assert_eq!(w.site, "stackoverflow");
    let done = expect_ok(s, Event::Written);
    assert_eq!(done.api_key.as_deref(), Some("abc123"));

    let (s, file) = start(Request::Load);
    let s = expect_read(s, &file);
    let c = expect_ok(s, Event::Parsed(w));
    assert_eq!(c.api_key.as_deref(), Some("abc123"));
    assert_eq!(c.limit, 20);
    assert_eq!(c.site, "stackoverflow");
}

#[test]
fn update_of_absent_file_writes_twice() {
    let (s, file) = start(Request::SetKey("abc123".to_string()));
    let s = expect_read(s, &file);
    let (s, first) = expect_write(s, Event::Unopenable, &file);
    assert_eq!(first.api_key, None);
    let (s, second) = expect_write(s, Event::Written, &file);
    assert_eq!(second.api_key.as_deref(), Some("abc123"));
    assert_eq!(second.limit, 20);
    assert_eq!(second.site, "stackoverflow");
    let c = expect_ok(s, Event::Written);
    assert_eq!(c.api_key.as_deref(), Some("abc123"));
}

#[test]
fn second_update_replaces_first_key() {
    let (s, file) = start(Request::SetKey("k1".to_string()));
    let s = expect_read(s, &file);
    let (_, w1) = expect_write(s, Event::Parsed(record(None, 5, "askubuntu")), &file);
    let (s, file) = start(Request::SetKey("k2".to_string()));
    let s = expect_read(s, &file);
    let (_, w2) = expect_write(s, Event::Parsed(w1), &file);
    assert_eq!(w2.api_key.as_deref(), Some("k2"));
    assert_eq!(w2.limit, 5);
    assert_eq!(w2.site, "askubuntu");
}

#[test]
fn malformed_file_is_reported() {
    let (s, file) = start(Request::Load);
    let s = expect_read(s, &file);
    match expect_err(s, Event::Malformed) {
        Error::MalformedFile(p) => assert_eq!(p, file),
        other => panic!("unexpected error {:?}", other),
    }
}

#[test]
fn malformed_file_stops_an_update() {
    let (s, file) = start(Request::SetKey("abc123".to_string()));
    let s = expect_read(s, &file);
    assert!(matches!(expect_err(s, Event::Malformed), Error::MalformedFile(_)));
}

#[test]
fn refused_directory_is_reported() {
    let (s, _) = start(Request::Load);
    match expect_err(s, Event::DirRefused) {
        Error::Permissions(PermissionType::Create, p) => assert_eq!(p, "/home/alice/.config/so"),
        other => panic!("unexpected error {:?}", other),
    }
}

#[test]
fn refused_file_creation_is_reported() {
    let (s, file) = start(Request::Load);
    let s = expect_read(s, &file);
    let (s, _) = expect_write(s, Event::Unopenable, &file);
    match expect_err(s, Event::CreateRefused) {
        Error::Permissions(PermissionType::Create, p) => assert_eq!(p, file),
        other => panic!("unexpected error {:?}", other),
    }
}

#[test]
fn refused_write_is_reported() {
    let (s, file) = start(Request::SetKey("k".to_string()));
    let s = expect_read(s, &file);
    let (s, _) = expect_write(s, Event::Parsed(Config::default()), &file);
    match expect_err(s, Event::WriteRefused) {
        Error::Permissions(PermissionType::Write, p) => assert_eq!(p, file),
        other => panic!("unexpected error {:?}", other),
    }
}

#[test]
fn unexpected_event_repeats_pending_action() {
    let (s, file) = start(Request::Load);
    let (s, a) = s.step(Event::Written);
    assert!(matches!(a, Action::CreateDir(_)));
    let s = expect_read(s, &file);
    let (s, a) = s.step(Event::DirCreated);
    assert!(matches!(a, Action::Read(_)));
    let c = expect_ok(s, Event::Parsed(Config::default()));
    assert_eq!(c.limit, 20);
}

#[test]
fn finished_session_repeats_its_result() {
    let (s, _) = start(Request::Load);
    let (s, _) = s.step(Event::DirRefused);
    let (s, a) = s.step(Event::DirCreated);
    assert!(matches!(a, Action::Finish(Err(Error::Permissions(PermissionType::Create, _)))));
    assert!(matches!(s, Session::Done { .. }));
}

#[test]
fn project_directory_is_stable() {
    let a = config_dir();
    let b = config_dir();
    match (a, b) {
        (Ok(x), Ok(y)) => assert_eq!(x, y),
        (Err(Error::ProjectDir), Err(Error::ProjectDir)) => {}
        other => panic!("directory lookups disagree: {:?}", other),
    }
    assert_eq!(project_dir().is_ok(), config_file_name().is_ok());
    if let Ok(f) = config_file_name() {
        assert!(f.ends_with("config.yml"));
        assert_eq!(f, config_file_in(&config_dir().ok().unwrap()));
    }
}

#[test]
fn project_identity_is_fixed() {
    assert_eq!(project_identity(), ("io", "Sam Tay", "so"));
}

#[test]
fn config_file_after_trailing_separator() {
    let f = config_file_in(&"/home/alice/.config/so/".to_string());
    assert_eq!(f, "/home/alice/.config/so/config.yml");
}

#[test]
fn config_file_in_empty_directory() {
    assert_eq!(config_file_in(&String::new()), "config.yml");
}
