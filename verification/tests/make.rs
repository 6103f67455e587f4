use xtask_cmdwrap::make::{make_schema, Make};
use xtask_cmdwrap::schema::{parse_schema, AttrItem, FieldDecl, SchemaDecl};

#[test]
pub fn make_constructor() {
    let make = Make::new();
    assert_eq!(make.string_repr(), "make".to_string());
}

#[test]
fn make_schema_table_is_resolved() {
    let schema = make_schema();
    assert_eq!(schema.program_name, "make");
    assert_eq!(schema.fields.len(), 7);
    assert_eq!(schema.fields[0].field_name, "directory");
    assert_eq!(schema.fields[0].option_name, "C");
    assert_eq!(schema.fields[0].prefix, "-");
    assert_eq!(schema.fields[6].field_name, "target");
}

fn make_tokens(make: Make) -> Vec<String> {
    let (_, tokens) = make.raw_handle().into_parts();
    tokens
}

#[test]
fn make_setters_emit_their_tokens() {
    let mut make = Make::new();
    make.directory("/tmp");
    make.env_overwrites();
    make.eval("x := 1");
    make.file("Makefile");
    make.ignore_errors();
    make.include_dir("inc");
    make.target("all");
    let tokens: Vec<String> = make_tokens(make);
    assert_eq!(
        tokens,
        vec![
            "-C".to_string(),
            "/tmp".to_string(),
            "-e".to_string(),
            "--eval".to_string(),
            "x := 1".to_string(),
            "--file".to_string(),
            "Makefile".to_string(),
            "-i".to_string(),
            "-I".to_string(),
            "inc".to_string(),
            "all".to_string(),
        ],
    );
}

#[test]
fn make_render_joins_with_single_spaces() {
    let mut make = Make::new();
    make.directory("/tmp");
    make.target("all");
    assert_eq!(make.string_repr(), "make -C /tmp all");
}

fn bare(key: &str) -> AttrItem {
    AttrItem { key: key.to_string(), value: None }
}

fn valued(key: &str, value: &str) -> AttrItem {
    AttrItem { key: key.to_string(), value: Some(value.to_string()) }
}

fn field(name: &str, attrs: Vec<AttrItem>) -> FieldDecl {
    FieldDecl { field_name: name.to_string(), attrs: Some(attrs) }
}

#[test]
fn make_declaration_parses_to_the_static_table() {
    let decl = SchemaDecl {
        kind_name: "Make".to_string(),
        name: None,
        fields: vec![
            field("directory", vec![valued("prefix", "-"), valued("name", "C")]),
            field(
                "env_overwrites",
                vec![bare("no_val"), valued("prefix", "-"), valued("name", "e")],
            ),
            field("eval", vec![]),
            field("file", vec![]),
            field(
                "ignore_errors",
                vec![bare("no_val"), valued("prefix", "-"), valued("name", "i")],
            ),
            field("include_dir", vec![valued("prefix", "-"), valued("name", "I")]),
            field("target", vec![bare("no_opt")]),
        ],
    };
    let parsed = parse_schema(&decl).unwrap();
    let table = make_schema();
    assert_eq!(parsed.program_name, table.program_name);
    assert_eq!(parsed.fields, table.fields);
}
