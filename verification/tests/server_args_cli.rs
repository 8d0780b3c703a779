//! Command-line flag tests for the backend server.

use cr8s::server_args::Cli;

fn args(list: &[&str]) -> Vec<String> {
    list.iter().map(|s| s.to_string()).collect()
}

#[test]
fn parses_dump_flag() {
    let cli = Cli::parse_from(args(&["test", "--dump-state-traits"])).unwrap();
    assert!(cli.dump_state_traits);
    assert!(!cli.check);
    assert!(cli.output.is_none());
}

#[test]
fn parses_output_path() {
    let cli = Cli::parse_from(args(&["test", "--output", "output.md"])).unwrap();
    assert_eq!(cli.output.unwrap(), "output.md");
}

#[test]
fn parses_check_flag() {
    let cli = Cli::parse_from(args(&["test", "--check"])).unwrap();
    assert!(cli.check);
    assert!(!cli.dump_state_traits);
}

#[test]
fn parses_all_together() {
    let cli = Cli::parse_from(args(&[
        "test",
        "--check",
        "--dump-state-traits",
        "--output",
        "state.md",
    ]))
    .unwrap();
    assert!(cli.check);
    assert!(cli.dump_state_traits);
    assert_eq!(cli.output.unwrap(), "state.md");
}

#[test]
fn rejects_unknown_or_dangling_flags() {
    assert!(Cli::parse_from(args(&["test", "--verbose"])).is_err());
    assert!(Cli::parse_from(args(&["test", "--output"])).is_err());
    assert!(Cli::parse_from(args(&["test", "--check", "--check"])).is_err());
}
