use runebook::command::{validate_command, CommandRejection};

fn names(v: &[&str]) -> Vec<String> {
    v.iter().map(|s| s.to_string()).collect()
}

#[test]
fn plain_command_passes() {
    assert_eq!(validate_command("ls", &names(&["PATH", "MY_VAR1"])), Ok(()));
    assert_eq!(validate_command(" echo ", &names(&[])), Ok(()));
}

#[test]
fn blank_command_is_refused() {
    assert_eq!(validate_command("", &names(&[])), Err(CommandRejection::Empty));
    assert_eq!(validate_command("  \t\n", &names(&[])), Err(CommandRejection::Empty));
    assert_eq!(validate_command("\u{2003}", &names(&["bad-name"])), Err(CommandRejection::Empty));
}

#[test]
fn shell_operators_are_refused() {
    for c in ["ls | wc", "a;b", "x&", "a>b", "a<b", "`id`", "$HOME", "f()"] {
        assert_eq!(
            validate_command(c, &names(&[])),
            Err(CommandRejection::DangerousCharacters),
            "{}",
            c
        );
    }
}

#[test]
fn env_names_are_checked_in_order() {
    assert_eq!(
        validate_command("env", &names(&["OK", "BAD-1", "ALSO BAD"])),
        Err(CommandRejection::InvalidEnvName("BAD-1".to_string()))
    );
    assert_eq!(validate_command("env", &names(&["ÉTÉ_2"])), Ok(()));
}

#[test]
fn rejection_messages() {
    assert_eq!(CommandRejection::Empty.message(), "Command cannot be empty");
    assert_eq!(
        CommandRejection::InvalidEnvName("A-B".to_string()).message(),
        "Invalid environment variable name: A-B"
    );
    assert!(CommandRejection::DangerousCharacters.message().starts_with("Command contains potentially dangerous characters."));
}
