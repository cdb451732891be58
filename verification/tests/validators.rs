//! The validators, called as the argument parser calls them.

use jail_exporter::cli::{is_valid_filesystem_path, is_valid_telemetry_path};
use jail_exporter::sockaddr::is_valid_socket_addr;

#[test]
fn is_valid_filesystem_path_absolute_path() {
    let res = is_valid_filesystem_path("tmp/metrics.prom".into());
    assert!(res.is_err());
}

#[test]
fn is_valid_filesystem_path_bad_extension() {
    let res = is_valid_filesystem_path("/tmp/metrics.pram".into());
    assert!(res.is_err());
}

#[test]
fn is_valid_filesystem_path_bad_parent_dir() {
    let res = is_valid_filesystem_path("/tmp/nope/metrics.prom".into());
    assert!(res.is_err());
}

#[test]
fn is_valid_filesystem_path_directory() {
    let res = is_valid_filesystem_path("/tmp".into());
    assert!(res.is_err());
}

#[test]
fn is_valid_filesystem_path_no_extension() {
    let res = is_valid_filesystem_path("/tmp/metrics".into());
    assert!(res.is_err());
}

#[test]
fn is_valid_filesystem_path_ok() {
    let res = is_valid_filesystem_path("/tmp/metrics.prom".into());
    assert!(res.is_ok());
}

#[test]
fn is_valid_filesystem_path_root() {
    let res = is_valid_filesystem_path("/".into());
    assert!(res.is_err());
}

#[test]
fn is_valid_filesystem_path_stdout() {
    let res = is_valid_filesystem_path("-".into());
    assert!(res.is_ok());
}

#[test]
fn is_valid_socket_addr_ipv4_with_port() {
    let res = is_valid_socket_addr("127.0.0.1:9452".into());
    assert!(res.is_ok());
}

#[test]
fn is_valid_socket_addr_ipv6_with_port() {
    let res = is_valid_socket_addr("[::1]:9452".into());
    assert!(res.is_ok());
}

#[test]
fn is_valid_socket_addr_ipv4_without_port() {
    let res = is_valid_socket_addr("127.0.0.1".into());
    assert!(res.is_err());
}

#[test]
fn is_valid_socket_addr_ipv6_without_port() {
    let res = is_valid_socket_addr("[::1]".into());
    assert!(res.is_err());
}

#[test]
fn is_valid_socket_addr_no_ip() {
    let res = is_valid_socket_addr("random string".into());
    assert!(res.is_err());
}

#[test]
fn is_valid_telemetry_path_slash() {
    let res = is_valid_telemetry_path("/".into());
    assert!(res.is_err());
}

#[test]
fn is_valid_telemetry_path_empty() {
    let res = is_valid_telemetry_path("".into());
    assert!(res.is_err());
}

#[test]
fn is_valid_telemetry_path_relative() {
    let res = is_valid_telemetry_path("metrics".into());
    assert!(res.is_err());
}

#[test]
fn is_valid_telemetry_path_valid() {
    let res = is_valid_telemetry_path("/metrics".into());
    assert!(res.is_ok());
}
