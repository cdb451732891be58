//! The server builder, the preflight gate, the serving decisions, and the
//! corners of the validators.

use jail_exporter::cli::{
    check_output_path, is_valid_filesystem_path, resolve_setting, ValidatedConfig,
};
use jail_exporter::errors::Error;
use jail_exporter::httpd::{
    index_reply, metrics_content_type, metrics_reply, render_index_page, route_request, Route,
    Server,
};
use jail_exporter::preflight::{is_racct_rctl_available, root_check, RctlState};
use jail_exporter::sockaddr::is_valid_socket_addr;

#[test]
fn default_server_configuration() {
    let server = Server::new();
    assert_eq!(server.bind_address, "127.0.0.1:9452");
    assert_eq!(server.telemetry_path, "/metrics");
}

#[test]
fn builder_last_call_wins() {
    let server = Server::new()
        .bind_address("127.0.1.2:9452".to_owned())
        .telemetry_path("/test".to_owned())
        .bind_address("127.0.1.3:9452".to_owned());
    assert_eq!(server.bind_address, "127.0.1.3:9452");
    assert_eq!(server.telemetry_path, "/test");
}

#[test]
fn cli_flag_wins_over_environment() {
    let r = resolve_setting(
        Some("/clioverride".to_owned()),
        Some("/envvar".to_owned()),
        "/metrics".to_owned(),
    );
    assert_eq!(r, "/clioverride");
}

#[test]
fn environment_wins_over_default() {
    let r = resolve_setting(None, Some("/envvar".to_owned()), "/metrics".to_owned());
    assert_eq!(r, "/envvar");
}

#[test]
fn default_when_nothing_is_set() {
    let r = resolve_setting(None, None, "/metrics".to_owned());
    assert_eq!(r, "/metrics");
}

#[test]
fn output_path_rules_with_explicit_filesystem_answers() {
    // the sentinel passes whatever the filesystem would say
    assert!(check_output_path("-", true, false).is_ok());
    // all conditions met
    assert!(check_output_path("/tmp/metrics.prom", false, true).is_ok());
    // naming a directory fails
    assert!(check_output_path("/tmp/metrics.prom", true, true).is_err());
    // a missing parent directory fails
    assert!(check_output_path("/tmp/metrics.prom", false, false).is_err());
    // a relative path fails
    let r = check_output_path("tmp/metrics.prom", false, true);
    assert_eq!(r, Err("output.file-path only accepts absolute paths".to_owned()));
    // a wrong extension fails
    let r = check_output_path("/tmp/metrics.pram", false, true);
    assert_eq!(r, Err("output.file-path must have .prom extension".to_owned()));
}

#[test]
fn output_path_messages() {
    let r = is_valid_filesystem_path("/tmp");
    assert_eq!(r, Err("output.file-path must not point at a directory".to_owned()));
    let r = is_valid_filesystem_path("/tmp/metrics");
    assert_eq!(r, Err("output.file-path must have .prom extension".to_owned()));
    let r = is_valid_filesystem_path("/tmp/nope/metrics.prom");
    assert_eq!(r, Err("output.file-path directory must exist".to_owned()));
}

#[test]
fn output_path_hidden_file_has_no_extension() {
    // a file name that is nothing but `.prom` has no extension
    assert!(check_output_path("/tmp/.prom", false, true).is_err());
    assert!(check_output_path("/tmp/a.prom", false, true).is_ok());
}

#[test]
fn socket_addr_octet_rules() {
    assert!(is_valid_socket_addr("0.0.0.0:0").is_ok());
    assert!(is_valid_socket_addr("255.255.255.255:65535").is_ok());
    assert!(is_valid_socket_addr("256.0.0.1:80").is_err());
    assert!(is_valid_socket_addr("01.2.3.4:80").is_err());
    assert!(is_valid_socket_addr("1.2.3:80").is_err());
    assert!(is_valid_socket_addr("1.2.3.4.5:80").is_err());
}

#[test]
fn socket_addr_port_rules() {
    assert!(is_valid_socket_addr("127.0.0.1:").is_err());
    assert!(is_valid_socket_addr("127.0.0.1:009452").is_ok());
    assert!(is_valid_socket_addr("127.0.0.1:65536").is_err());
    assert!(is_valid_socket_addr("127.0.0.1:80a").is_err());
}

#[test]
fn socket_addr_ipv6_forms() {
    assert!(is_valid_socket_addr("[::]:80").is_ok());
    assert!(is_valid_socket_addr("[1:2:3:4:5:6:7:8]:80").is_ok());
    assert!(is_valid_socket_addr("[1::8]:80").is_ok());
    assert!(is_valid_socket_addr("[2001:db8::1]:9452").is_ok());
    assert!(is_valid_socket_addr("[::ffff:127.0.0.1]:80").is_ok());
    assert!(is_valid_socket_addr("[::1%0]:80").is_ok());
    assert!(is_valid_socket_addr("[::1%eth0]:80").is_err());
    assert!(is_valid_socket_addr("[1:2:3:4:5:6:7:8:9]:80").is_err());
    assert!(is_valid_socket_addr("[:::]:80").is_err());
    assert!(is_valid_socket_addr("[1.2.3.4]:80").is_err());
    assert!(is_valid_socket_addr("::1:80").is_err());
}

#[test]
fn socket_addr_error_message_names_the_string() {
    let r = is_valid_socket_addr("random string");
    assert_eq!(r, Err("'random string' is not a valid ADDR:PORT string".to_owned()));
}

#[test]
fn validated_config_accepts_validated_values() {
    let c = ValidatedConfig::from_raw(
        "127.0.0.1:9452".to_owned(),
        "/metrics".to_owned(),
        Some("-".to_owned()),
    )
    .unwrap();
    assert_eq!(c.bind_address, "127.0.0.1:9452");
    assert_eq!(c.telemetry_path, "/metrics");
    assert_eq!(c.output_file_path, Some("-".to_owned()));
}

#[test]
fn validated_config_rejects_each_bad_field() {
    assert!(ValidatedConfig::from_raw("127.0.0.1".to_owned(), "/metrics".to_owned(), None)
        .is_err());
    assert!(ValidatedConfig::from_raw("127.0.0.1:9452".to_owned(), "metrics".to_owned(), None)
        .is_err());
    assert!(ValidatedConfig::from_raw(
        "127.0.0.1:9452".to_owned(),
        "/metrics".to_owned(),
        Some("tmp/metrics.prom".to_owned())
    )
    .is_err());
}

#[test]
fn validated_config_returns_the_failing_validators_message() {
    let r = ValidatedConfig::from_raw("127.0.0.1".to_owned(), "/metrics".to_owned(), None);
    assert_eq!(r.err(), Some("'127.0.0.1' is not a valid ADDR:PORT string".to_owned()));
    let r = ValidatedConfig::from_raw("127.0.0.1:9452".to_owned(), "metrics".to_owned(), None);
    assert_eq!(r.err(), Some("path must start with /".to_owned()));
    let r = ValidatedConfig::from_raw(
        "127.0.0.1:9452".to_owned(),
        "/metrics".to_owned(),
        Some("tmp/metrics.prom".to_owned()),
    );
    assert_eq!(r.err(), Some("output.file-path only accepts absolute paths".to_owned()));
}

#[test]
fn preflight_only_enabled_passes() {
    assert!(is_racct_rctl_available(RctlState::Enabled).is_ok());
    assert!(is_racct_rctl_available(RctlState::Disabled).is_err());
    assert!(is_racct_rctl_available(RctlState::Jailed).is_err());
    assert!(is_racct_rctl_available(RctlState::NotPresent).is_err());
}

#[test]
fn preflight_messages_name_the_remedy() {
    match is_racct_rctl_available(RctlState::Disabled) {
        Err(Error::RctlUnavailable(m)) => {
            assert_eq!(m, "Present, but disabled; enable using kern.racct.enable=1 tunable")
        },
        _ => panic!("expected RctlUnavailable"),
    }
    match is_racct_rctl_available(RctlState::NotPresent) {
        Err(Error::RctlUnavailable(m)) => {
            assert_eq!(m, "Support not present in kernel; see rctl(8) for details")
        },
        _ => panic!("expected RctlUnavailable"),
    }
}

#[test]
fn preflight_root_rule() {
    assert!(root_check(0).is_ok());
    assert!(matches!(root_check(1000), Err(Error::NotRunningAsRoot)));
}

#[test]
fn error_messages() {
    assert_eq!(Error::NotRunningAsRoot.message(), "jail_exporter must be run as root");
    assert_eq!(
        Error::ArgNotSet("web.listen-address".to_owned()).message(),
        "argument was not set: web.listen-address"
    );
    assert_eq!(
        Error::BindAddress("127.0.0.1:9452: in use".to_owned()).message(),
        "could not bind to: 127.0.0.1:9452: in use"
    );
}

#[test]
fn index_page_embeds_the_telemetry_path() {
    let page = render_index_page("/metrics");
    assert!(page.contains("<a href=\"/metrics\">Metrics</a>"));
    assert!(page.contains("Jail Exporter"));
}

#[test]
fn index_route_serves_the_page_unchanged() {
    let page = render_index_page("/metrics");
    let (status, body) = index_reply(&page);
    assert_eq!(status, 200);
    assert_eq!(body, page);
}

#[test]
fn metrics_route_contains_failures_to_one_request() {
    // the collector fails: that request answers with a server error
    let r = metrics_reply(Err("collection failed".to_owned()));
    assert_eq!(r.status, 500);
    // the collector succeeds again: the next request is served normally
    let r = metrics_reply(Ok(b"jail_num 1\n".to_vec()));
    assert_eq!(r.status, 200);
    assert_eq!(r.body, b"jail_num 1\n".to_vec());
}

#[test]
fn metrics_reply_content_type() {
    assert_eq!(metrics_content_type(), "text/plain; version=0.0.4");
}

#[test]
fn request_routing() {
    assert_eq!(route_request("/", "/metrics"), Route::Index);
    assert_eq!(route_request("/metrics", "/metrics"), Route::Metrics);
    assert_eq!(route_request("/other", "/metrics"), Route::NotFound);
}
