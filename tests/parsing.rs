use sidecar_supervisor::port::{line_has_marker, parse_port_line};
use sidecar_supervisor::severity::{classify_stderr, Severity};

#[test]
fn port_line_plain() {
    assert_eq!(parse_port_line("SERVER_PORT=54213"), Some(54213));
}

#[test]
fn port_line_bounds() {
    assert_eq!(parse_port_line("SERVER_PORT=0"), Some(0));
    assert_eq!(parse_port_line("SERVER_PORT=65535"), Some(65535));
    assert_eq!(parse_port_line("SERVER_PORT=65536"), None);
    assert_eq!(parse_port_line("SERVER_PORT=99999999999"), None);
}

#[test]
fn port_line_every_valid_decimal_is_read_back() {
    for p in [0u32, 1, 9, 10, 80, 443, 8080, 12345, 54213, 65534, 65535] {
        let line = format!("SERVER_PORT={}", p);
        assert_eq!(parse_port_line(&line), Some(p as u16));
    }
    assert_eq!(parse_port_line("SERVER_PORT=0000080"), Some(80));
}

#[test]
fn port_line_trims_white_space() {
    assert_eq!(parse_port_line("SERVER_PORT= 8080 \r\n"), Some(8080));
    assert_eq!(parse_port_line("SERVER_PORT=\t443\u{a0}"), Some(443));
}

#[test]
fn port_line_sign_and_junk() {
    assert_eq!(parse_port_line("SERVER_PORT=+8080"), Some(8080));
    assert_eq!(parse_port_line("SERVER_PORT=+"), None);
    assert_eq!(parse_port_line("SERVER_PORT=-1"), None);
    assert_eq!(parse_port_line("SERVER_PORT=80a"), None);
    assert_eq!(parse_port_line("SERVER_PORT=8 0"), None);
    assert_eq!(parse_port_line("SERVER_PORT="), None);
    assert_eq!(parse_port_line("SERVER_PORT=abc"), None);
}

#[test]
fn port_line_marker_inside_text() {
    assert_eq!(parse_port_line("ready: SERVER_PORT=5000"), Some(5000));
    assert_eq!(parse_port_line("Listening..."), None);
    assert_eq!(parse_port_line("server_port=5000"), None);
    assert_eq!(parse_port_line(""), None);
    assert_eq!(parse_port_line("SERVER_PORT=1SERVER_PORT=2"), None);
}

#[test]
fn marker_detection() {
    assert!(line_has_marker("SERVER_PORT=abc"));
    assert!(line_has_marker("x SERVER_PORT="));
    assert!(!line_has_marker("SERVER_PORT"));
    assert!(!line_has_marker("Listening..."));
}

#[test]
fn stderr_failed_is_error_in_any_case() {
    assert_eq!(classify_stderr("Connection failed"), Severity::Error);
    assert_eq!(classify_stderr("CONNECTION FAILED"), Severity::Error);
    assert_eq!(classify_stderr("FaIlEd to bind"), Severity::Error);
}

#[test]
fn stderr_connected_is_info() {
    assert_eq!(classify_stderr("connected to database"), Severity::Info);
    assert_eq!(classify_stderr("Client Connected"), Severity::Info);
}

#[test]
fn stderr_other_keywords() {
    assert_eq!(classify_stderr("ERROR: bad input"), Severity::Error);
    assert_eq!(classify_stderr("Traceback: ValueError"), Severity::Error);
    assert_eq!(classify_stderr("unhandled Exception"), Severity::Error);
    assert_eq!(classify_stderr("INFO: Started server process"), Severity::Info);
    assert_eq!(classify_stderr(""), Severity::Info);
    assert_eq!(classify_stderr("errr fail excepton"), Severity::Info);
}
