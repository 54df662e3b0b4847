use cosmic_monitor::cli::{cli_request, help_text, version_text, CliRequest};

fn args(list: &[Option<&str>]) -> Vec<Option<String>> {
    list.iter().map(|a| a.map(|s| s.to_string())).collect()
}

#[test]
fn cli_requests() {
    assert_eq!(cli_request(&args(&[Some("cosmic-monitor")])), CliRequest::Run);
    assert_eq!(cli_request(&args(&[Some("cosmic-monitor"), Some("--help")])), CliRequest::Help);
    assert_eq!(cli_request(&args(&[Some("cosmic-monitor"), Some("-h")])), CliRequest::Help);
    assert_eq!(cli_request(&args(&[Some("cosmic-monitor"), Some("-V")])), CliRequest::Version);
    assert_eq!(
        cli_request(&args(&[Some("x"), None, Some("--version"), Some("--help")])),
        CliRequest::Version
    );
    assert_eq!(cli_request(&args(&[Some("x"), Some("-v"), Some("--HELP")])), CliRequest::Run);
    assert_eq!(cli_request(&args(&[])), CliRequest::Run);
}

#[test]
fn cli_texts() {
    assert_eq!(version_text("1.0.0"), "cosmic-monitor 1.0.0");
    assert!(help_text().starts_with("COSMIC System Monitor\n"));
    assert!(help_text().ends_with("  --version                       Show the version of cosmic-monitor"));
    assert!(help_text().contains("COSMIC\u{2122} desktop"));
}
