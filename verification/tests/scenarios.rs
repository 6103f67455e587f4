use xtask_cmdwrap::builder::Builder;
use xtask_cmdwrap::schema::{parse_schema, AttrItem, CommandSchema, FieldDecl, SchemaDecl};

fn echo_schema() -> CommandSchema {
    let decl = SchemaDecl {
        kind_name: "Echo".to_string(),
        name: None,
        fields: vec![
            FieldDecl {
                field_name: "no_newline".to_string(),
                attrs: Some(vec![
                    AttrItem { key: "no_val".to_string(), value: None },
                    AttrItem { key: "prefix".to_string(), value: Some("-".to_string()) },
                    AttrItem { key: "name".to_string(), value: Some("n".to_string()) },
                ]),
            },
            FieldDecl {
                field_name: "string".to_string(),
                attrs: Some(vec![AttrItem { key: "no_opt".to_string(), value: None }]),
            },
        ],
    };
    parse_schema(&decl).unwrap()
}

#[test]
fn echo_flag_then_positional() {
    let schema = echo_schema();
    let mut echo = Builder::new(&schema);
    echo.set_flag(&schema.fields[0]);
    echo.set_value(&schema.fields[1], "hello world");
    assert_eq!(echo.render(), "echo -n hello world");
}

#[test]
fn echo_positional_alone() {
    let schema = echo_schema();
    let mut echo = Builder::new(&schema);
    echo.set_value(&schema.fields[1], "hello world");
    assert_eq!(echo.render(), "echo hello world");
}

#[test]
fn repeated_flag_is_not_deduplicated() {
    let schema = echo_schema();
    let mut echo = Builder::new(&schema);
    echo.set_flag(&schema.fields[0]);
    echo.set_flag(&schema.fields[0]);
    let tokens: Vec<String> = echo.tokens().clone();
    assert_eq!(tokens, vec!["-n".to_string(), "-n".to_string()]);
}

#[test]
fn tokens_keep_call_order() {
    let schema = echo_schema();
    let mut echo = Builder::new(&schema);
    echo.set_value(&schema.fields[1], "first");
    echo.set_flag(&schema.fields[0]);
    echo.set_value(&schema.fields[1], "second");
    let tokens: Vec<String> = echo.tokens().clone();
    assert_eq!(
        tokens,
        vec!["first".to_string(), "-n".to_string(), "second".to_string()],
    );
}

#[test]
fn program_override_with_two_flags_and_positional() {
    let decl = SchemaDecl {
        kind_name: "Echo".to_string(),
        name: Some("/bin/echo".to_string()),
        fields: vec![
            FieldDecl {
                field_name: "no_newline".to_string(),
                attrs: Some(vec![
                    AttrItem { key: "no_val".to_string(), value: None },
                    AttrItem { key: "prefix".to_string(), value: Some("-".to_string()) },
                    AttrItem { key: "name".to_string(), value: Some("n".to_string()) },
                ]),
            },
            FieldDecl {
                field_name: "escape".to_string(),
                attrs: Some(vec![
                    AttrItem { key: "no_val".to_string(), value: None },
                    AttrItem { key: "prefix".to_string(), value: Some("-".to_string()) },
                    AttrItem { key: "name".to_string(), value: Some("e".to_string()) },
                ]),
            },
            FieldDecl {
                field_name: "string".to_string(),
                attrs: Some(vec![AttrItem { key: "no_opt".to_string(), value: None }]),
            },
        ],
    };
    let schema = parse_schema(&decl).unwrap();
    let mut echo = Builder::new(&schema);
    echo.set_flag(&schema.fields[1]);
    echo.set_flag(&schema.fields[0]);
    echo.set_value(&schema.fields[2], "hello\\nworld");
    assert_eq!(echo.render(), "/bin/echo -e -n hello\\nworld");
}
