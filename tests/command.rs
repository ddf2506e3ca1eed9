use zed_php_lsp::{command_from_lookup, PhpLspExtension, ServerCommand};

fn pair(name: &str, value: &str) -> (String, String) {
    (name.to_string(), value.to_string())
}

fn expect_ok(r: Result<ServerCommand, String>) -> ServerCommand {
    match r {
        Ok(c) => c,
        Err(e) => panic!("expected a command, got error {e:?}"),
    }
}

#[test]
fn scenario_found_in_usr_local_bin() {
    let r = command_from_lookup(
        Some("/usr/local/bin/php-lsp".to_string()),
        vec![pair("PATH", "/usr/local/bin")],
    );
    let c = expect_ok(r);
    assert_eq!(c.command, "/usr/local/bin/php-lsp");
    assert_eq!(c.args, vec!["--stdio".to_string()]);
    assert_eq!(c.env, vec![pair("PATH", "/usr/local/bin")]);
}

#[test]
fn scenario_not_found() {
    let r = command_from_lookup(None, vec![pair("PATH", "/usr/bin")]);
    assert_eq!(r.err(), Some("php-lsp not found in PATH".to_string()));
}

#[test]
fn found_path_is_used_with_single_stdio_flag() {
    let c = expect_ok(command_from_lookup(Some("/opt/tools/php-lsp".to_string()), Vec::new()));
    assert_eq!(c.command, "/opt/tools/php-lsp");
    assert_eq!(c.args.len(), 1);
    assert_eq!(c.args[0], "--stdio");
}

#[test]
fn not_found_ignores_environment() {
    let r = command_from_lookup(None, Vec::new());
    assert_eq!(r.err().as_deref(), Some("php-lsp not found in PATH"));
}

#[test]
fn environment_is_passed_through_unchanged() {
    let env = vec![
        pair("PATH", "/usr/local/bin:/usr/bin"),
        pair("HOME", "/home/dev"),
        pair("EMPTY", ""),
        pair("PATH", "/duplicate"),
    ];
    let c = expect_ok(command_from_lookup(Some("/bin/php-lsp".to_string()), env.clone()));
    assert_eq!(c.env, env);
}

#[test]
fn empty_environment_stays_empty() {
    let c = expect_ok(command_from_lookup(Some("/bin/php-lsp".to_string()), Vec::new()));
    assert!(c.env.is_empty());
}

#[test]
fn resolving_twice_gives_identical_commands() {
    let env = vec![pair("PATH", "/usr/local/bin"), pair("LANG", "C.UTF-8")];
    let first = expect_ok(command_from_lookup(Some("/usr/local/bin/php-lsp".to_string()), env.clone()));
    let second = expect_ok(command_from_lookup(Some("/usr/local/bin/php-lsp".to_string()), env));
    assert_eq!(first.command, second.command);
    assert_eq!(first.args, second.args);
    assert_eq!(first.env, second.env);
}

#[test]
fn resolving_twice_when_missing_gives_identical_errors() {
    let first = command_from_lookup(None, vec![pair("PATH", "/bin")]);
    let second = command_from_lookup(None, vec![pair("PATH", "/bin")]);
    assert_eq!(first.err(), second.err());
}

#[test]
fn extension_can_be_created() {
    let _extension = PhpLspExtension::new();
}
