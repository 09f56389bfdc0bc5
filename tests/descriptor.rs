use sombra::{resolution, resolve_path, Config, Error, ErrorKind, SombraWindows, DEFAULT_HELPER_PATH};

#[test]
fn build_resolves_existing_path() {
    let d = SombraWindows::build("tcp_echo", ".", vec!["-p".to_string(), "30222".to_string()]).unwrap();
    assert_eq!(d.name(), "tcp_echo");
    assert!(!d.path().is_empty());
    assert_ne!(d.path(), ".");
    assert_eq!(d.args(), &vec!["-p".to_string(), "30222".to_string()]);
}

#[test]
fn build_missing_path_is_io_error() {
    let r = SombraWindows::build("tcp_echo", "executables/tcp_echo.exe", vec![]);
    let e = r.unwrap_err();
    assert_eq!(e.kind, ErrorKind::Io);
    assert_eq!(e.content, Some("executables/tcp_echo.exe".to_string()));
    assert!(!e.message.is_empty());
}

#[test]
fn build_keeps_empty_arguments() {
    let d = SombraWindows::build("svc", ".", vec![]).unwrap();
    assert!(d.args().is_empty());
}

#[test]
fn from_resolution_uses_canonical_path() {
    let d = SombraWindows::from_resolution(
        "tcp_echo",
        "executables/tcp_echo.exe",
        Ok("C:\\work\\executables\\tcp_echo.exe".to_string()),
        vec!["-p".to_string()],
    )
    .unwrap();
    assert_eq!(d.name(), "tcp_echo");
    assert_eq!(d.path(), "C:\\work\\executables\\tcp_echo.exe");
    assert_eq!(d.args(), &vec!["-p".to_string()]);
}

#[test]
fn from_resolution_failure_carries_path() {
    let r = SombraWindows::from_resolution("tcp_echo", "missing.exe", Err("not found".to_string()), vec![]);
    assert_eq!(
        r.unwrap_err(),
        Error {
            kind: ErrorKind::Io,
            message: "not found".to_string(),
            content: Some("missing.exe".to_string()),
        }
    );
}

#[test]
fn resolution_maps_outcomes() {
    assert_eq!(resolution("a", Ok("/x/a".to_string())), Ok("/x/a".to_string()));
    assert_eq!(
        resolution("a", Err("gone".to_string())),
        Err(Error::io("gone".to_string(), "a"))
    );
}

#[test]
fn resolve_path_of_missing_file_fails() {
    let e = resolve_path("no/such/helper.exe").unwrap_err();
    assert_eq!(e.kind, ErrorKind::Io);
    assert_eq!(e.content, Some("no/such/helper.exe".to_string()));
}

#[test]
fn resolve_path_changes_relative_path() {
    let p = resolve_path(".").unwrap();
    assert_ne!(p, ".");
    assert!(!p.is_empty());
}

#[test]
fn error_constructors() {
    let e = Error::new(ErrorKind::Config, "bad value".to_string());
    assert_eq!(e.kind, ErrorKind::Config);
    assert_eq!(e.message, "bad value");
    assert_eq!(e.content, None);
    let e = e.content("HELPER".to_string());
    assert_eq!(e.content, Some("HELPER".to_string()));
    let s = Error::service("access denied".to_string(), "svc");
    assert_eq!(s.kind, ErrorKind::Service);
    assert_eq!(s.message, "access denied");
    assert_eq!(s.content, Some("svc".to_string()));
}

#[test]
fn config_helper_location() {
    assert_eq!(Config::new().helper_location(), DEFAULT_HELPER_PATH);
    assert_eq!(DEFAULT_HELPER_PATH, "executables/sombra-windows-service.exe");
    let c = Config { helper_path: Some("bin/helper.exe".to_string()) };
    assert_eq!(c.helper_location(), "bin/helper.exe");
}
