use election_agent::args::{get_args, Args};
use election_agent::errors::ConfigError;

#[test]
fn get_args_builds_from_all_three_values() {
    let r = get_args(
        Some("node-1".to_string()),
        Some("127.0.0.1".to_string()),
        Some(2379),
    );
    let args = r.unwrap();
    assert_eq!(args.node, "node-1");
    assert_eq!(args.host, "127.0.0.1");
    assert_eq!(args.port, 2379);
}

#[test]
fn get_args_reports_missing_node() {
    let r = get_args(None, Some("127.0.0.1".to_string()), Some(2379));
    assert_eq!(r.err(), Some(ConfigError::MissingNode));
}

#[test]
fn get_args_reports_missing_host() {
    let r = get_args(Some("node-1".to_string()), None, Some(2379));
    assert_eq!(r.err(), Some(ConfigError::MissingHost));
}

#[test]
fn get_args_reports_missing_port() {
    let r = get_args(Some("node-1".to_string()), Some("127.0.0.1".to_string()), None);
    assert_eq!(r.err(), Some(ConfigError::MissingPort));
}

#[test]
fn get_args_reports_node_first_when_all_are_missing() {
    let r = get_args(None, None, None);
    assert_eq!(r.err(), Some(ConfigError::MissingNode));
}

#[test]
fn builder_assembles_fields() {
    let mut builder = Args::builder();
    builder.node("n".to_string());
    builder.host("h".to_string());
    builder.port(4);
    let args = builder.build();
    assert_eq!(args.node, "n");
    assert_eq!(args.host, "h");
    assert_eq!(args.port, 4);
}

#[test]
fn builder_starts_empty() {
    let args = Args::builder().build();
    assert_eq!(args.node, "");
    assert_eq!(args.host, "");
    assert_eq!(args.port, 0);
}
