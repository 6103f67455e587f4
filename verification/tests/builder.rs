use xtask_cmdwrap::builder::{Builder, Command};
use xtask_cmdwrap::schema::CommandSchema;

fn echo_builder() -> Builder {
    let schema = CommandSchema { program_name: "echo".to_string(), fields: Vec::new() };
    Builder::new(&schema)
}

#[test]
fn test_arg() {
    let mut cmd = echo_builder();
    cmd.arg("hello");
    assert_eq!(cmd.program_name().as_str(), "echo");
    assert_eq!(cmd.tokens()[0].as_str(), "hello");
}

#[test]
fn test_args() {
    let mut cmd = echo_builder();
    let args: Vec<String> = vec!["hello".to_string(), "world".to_string()];
    cmd.args(&args);
    assert_eq!(cmd.program_name().as_str(), "echo");
    assert_eq!(cmd.tokens()[0].as_str(), "hello");
    assert_eq!(cmd.tokens()[1].as_str(), "world");
}

#[test]
fn test_arg_if_true() {
    let mut cmd = echo_builder();
    cmd.arg_if("hello", true);
    assert_eq!(cmd.program_name().as_str(), "echo");
    assert_eq!(cmd.tokens()[0].as_str(), "hello");
}

#[test]
fn test_arg_if_false() {
    let mut cmd = echo_builder();
    cmd.arg_if("hello", false);
    assert_eq!(cmd.program_name().as_str(), "echo");
    assert_eq!(cmd.tokens().len(), 0);
}

#[test]
fn test_args_if() {
    let mut cmd = echo_builder();
    let args: Vec<String> = vec!["hello".to_string(), "world".to_string()];
    cmd.args_if(&args, |arg: &String| arg.starts_with("h"));
    assert_eq!(cmd.program_name().as_str(), "echo");
    assert_eq!(cmd.tokens()[0].as_str(), "hello");
    assert_eq!(cmd.tokens().len(), 1);
}

#[test]
fn add_arg_single() {
    let mut cmd = echo_builder();
    cmd.arg("hello world");
    assert_eq!(cmd.stringify(), "echo hello world")
}

#[test]
fn add_arg_multiple() {
    let mut cmd = echo_builder();
    cmd.arg("-n");
    cmd.arg("-e");
    cmd.arg("hello\tworld");
    assert_eq!(cmd.stringify(), "echo -n -e hello\tworld")
}

#[test]
fn render_without_tokens_is_program_alone() {
    let cmd = echo_builder();
    assert_eq!(cmd.render(), "echo");
}

#[test]
fn raw_handle_transfers_everything_unchanged() {
    let mut cmd = echo_builder();
    cmd.arg("-n");
    cmd.arg("hello");
    let handle = cmd.raw_handle();
    assert_eq!(handle.program_name().as_str(), "echo");
    let tokens: Vec<String> = handle.tokens().clone();
    assert_eq!(tokens, vec!["-n".to_string(), "hello".to_string()]);
    let (program, tokens) = handle.into_parts();
    assert_eq!(program, "echo");
    assert_eq!(tokens, vec!["-n".to_string(), "hello".to_string()]);
}
