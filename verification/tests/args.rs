use ghop::cli::is_option;
use ghop::config::CommandSpec;

#[test]
fn dashed_arguments_are_options() {
    assert!(is_option("-h"));
    assert!(is_option("--file"));
    assert!(is_option("-"));
}

#[test]
fn plain_arguments_are_not_options() {
    assert!(!is_option("build"));
    assert!(!is_option("dev"));
    assert!(!is_option(""));
}

#[test]
fn command_spec_validity_follows_the_interface_contract() {
    assert!(CommandSpec::new("echo ok".to_string(), None).is_valid());
    assert!(CommandSpec::new("echo ok".to_string(), Some(1)).is_valid());
    assert!(!CommandSpec::new(String::new(), None).is_valid());
    assert!(!CommandSpec::new("echo ok".to_string(), Some(0)).is_valid());
}

#[test]
fn command_spec_keeps_text_and_timeout() {
    let s = CommandSpec::new("echo b".to_string(), Some(2));
    assert_eq!(s.command, "echo b");
    assert_eq!(s.timeout, Some(2));
    let t = s.clone();
    assert_eq!(t.command, "echo b");
    assert_eq!(t.timeout, Some(2));
    let u = CommandSpec::new("echo a".to_string(), None);
    assert_eq!(u.timeout, None);
}
