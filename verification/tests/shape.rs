use type_cli::ctor::Ctor;
use type_cli::decl::{
    find_attr, parse_help, try_help, Attribute, Field, Item, Lit, Meta, Role, ShapeError, Slot,
    Variant,
};
use type_cli::derive::{cli, Cli};
use type_cli::help::start_help;
use type_cli::named::{Arg, Parser};

fn help_attr(text: &str) -> Attribute {
    Attribute {
        path: "help".to_string(),
        tokens: format!("= {:?}", text),
        meta: Meta::NameValue(Lit::Str(text.to_string())),
    }
}

fn word(name: &str) -> Attribute {
    Attribute { path: name.to_string(), tokens: String::new(), meta: Meta::Path }
}

fn list(name: &str, tokens: &str) -> Attribute {
    Attribute { path: name.to_string(), tokens: tokens.to_string(), meta: Meta::List }
}

fn field(ident: &str, attrs: Vec<Attribute>) -> Field {
    Field { ident: ident.to_string(), attrs }
}

fn slot(ident: &str, role: Role, required: bool, variadic: bool, short: Option<&str>) -> Slot {
    Slot {
        ident: ident.to_string(),
        role,
        required,
        variadic,
        short: short.map(|s| s.to_string()),
        help: None,
    }
}

fn item(fields: Vec<Field>) -> Item {
    Item::Struct { ident: "Cmd".to_string(), attrs: vec![], fields }
}

fn mistake(item: Item) -> String {
    match cli(&item) {
        Err(e) => e.to_string(),
        Ok(_) => panic!("expected a mistake in the declaration"),
    }
}

fn plan(item: Item) -> Ctor {
    match cli(&item) {
        Ok(Cli::Struct(ctor)) => ctor,
        Ok(Cli::Enum(_)) => panic!("expected a flat command"),
        Err(e) => panic!("{}", e.to_string()),
    }
}

#[test]
fn arg_new_derives_name_and_keys() {
    let arg = Arg::new("time_out".to_string(), Some("t".to_string()), None, true, false);
    assert_eq!(arg.ident, "time_out");
    assert_eq!(arg.name, "time_out");
    assert_eq!(arg.arg_name, "--time-out");
    assert_eq!(arg.short, Some("-t".to_string()));
    assert_eq!(arg.help, None);
    assert!(arg.required);
    assert!(!arg.variadic);
}

#[test]
fn arg_new_of_a_mixed_case_ident() {
    let arg = Arg::new("dryRun".to_string(), None, Some("about".to_string()), false, true);
    assert_eq!(arg.name, "dry-run");
    assert_eq!(arg.arg_name, "--dry-run");
    assert_eq!(arg.short, None);
    assert_eq!(arg.help, Some("about".to_string()));
    assert!(!arg.required);
    assert!(arg.variadic);
}

#[test]
fn find_attr_gives_the_first_of_a_name() {
    let attrs = vec![word("optional"), help_attr("one"), help_attr("two"), word("named")];
    assert_eq!(find_attr(&attrs, "help"), Some(1));
    assert_eq!(find_attr(&attrs, "optional"), Some(0));
    assert_eq!(find_attr(&attrs, "named"), Some(3));
    assert_eq!(find_attr(&attrs, "flag"), None);
    assert_eq!(find_attr(&Vec::new(), "help"), None);
}

#[test]
fn parse_help_reads_a_string_literal() {
    match parse_help(&help_attr("Save a file")) {
        Ok(text) => assert_eq!(text, "Save a file"),
        Err(e) => panic!("{}", e.to_string()),
    }
}

#[test]
fn parse_help_refuses_other_literals() {
    let attr = Attribute {
        path: "help".to_string(),
        tokens: "= 3".to_string(),
        meta: Meta::NameValue(Lit::Other),
    };
    match parse_help(&attr) {
        Err(ShapeError::HelpNotString) => {},
        _ => panic!("expected a refusal"),
    }
    assert_eq!(ShapeError::HelpNotString.to_string(), "Help message must be a string literal");
}

#[test]
fn parse_help_refuses_other_forms() {
    match parse_help(&word("help")) {
        Err(ShapeError::HelpFormat) => {},
        _ => panic!("expected a refusal"),
    }
    match parse_help(&list("help", "(\"text\")")) {
        Err(ShapeError::HelpFormat) => {},
        _ => panic!("expected a refusal"),
    }
    assert_eq!(
        ShapeError::HelpFormat.to_string(),
        "Help must be formatted as #[help = \"msg\"]"
    );
}

#[test]
fn parse_help_hands_on_what_is_wrong_with_the_attribute() {
    let attr = Attribute {
        path: "help".to_string(),
        tokens: "1 2".to_string(),
        meta: Meta::Malformed("expected literal".to_string()),
    };
    match parse_help(&attr) {
        Err(e) => assert_eq!(e.to_string(), "expected literal"),
        Ok(_) => panic!("expected a refusal"),
    }
}

#[test]
fn try_help_without_a_help_attribute() {
    match try_help(&vec![word("optional")]) {
        Ok(None) => {},
        _ => panic!("expected no help"),
    }
    match try_help(&vec![word("optional"), help_attr("x")]) {
        Ok(Some(text)) => assert_eq!(text, "x"),
        _ => panic!("expected a help text"),
    }
}

#[test]
fn slot_of_a_plain_field_is_positional_and_required() {
    let slot = match field("name", vec![]).slot() {
        Ok(slot) => slot,
        Err(e) => panic!("{}", e.to_string()),
    };
    assert_eq!(slot.ident, "name");
    assert!(slot.role == Role::Positional);
    assert!(slot.required);
    assert!(!slot.variadic);
    assert_eq!(slot.short, None);
    assert_eq!(slot.help, None);
}

#[test]
fn slot_reads_every_mark() {
    let slot = match field(
        "count",
        vec![list("named", "(short = \"c\")"), word("optional"), help_attr("How many")],
    )
    .slot()
    {
        Ok(slot) => slot,
        Err(e) => panic!("{}", e.to_string()),
    };
    assert!(slot.role == Role::Named);
    assert!(!slot.required);
    assert!(!slot.variadic);
    assert_eq!(slot.short, Some("c".to_string()));
    assert_eq!(slot.help, Some("How many".to_string()));
}

#[test]
fn slot_prefers_named_to_flag() {
    let slot = match field("x", vec![list("flag", "(short = \"f\")"), list("named", "(short = \"n\")")])
        .slot()
    {
        Ok(slot) => slot,
        Err(e) => panic!("{}", e.to_string()),
    };
    assert!(slot.role == Role::Named);
    assert_eq!(slot.short, Some("n".to_string()));
}

#[test]
fn short_alias_is_what_stands_between_the_quotes() {
    let cases = [
        ("(short = \"v\")", Some("v")),
        ("(short=\"v\")", Some("v")),
        ("(short  =\t\"verbose\")", Some("verbose")),
        ("(short = \"\")", Some("")),
        ("(short = \"a\", other = \"b\")", Some("a\", other = \"b")),
        ("", None),
        ("(long = \"v\")", None),
        ("(short = v)", None),
        ("(short \"v\")", None),
    ];
    for (tokens, short) in cases {
        let slot = match field("x", vec![list("flag", tokens)]).slot() {
            Ok(slot) => slot,
            Err(e) => panic!("{}", e.to_string()),
        };
        assert!(slot.role == Role::Flag);
        assert_eq!(slot.short, short.map(|s| s.to_string()), "for {}", tokens);
    }
}

#[test]
fn a_positional_field_has_no_short_alias() {
    let slot = match field("x", vec![list("other", "(short = \"v\")")]).slot() {
        Ok(slot) => slot,
        Err(e) => panic!("{}", e.to_string()),
    };
    assert!(slot.role == Role::Positional);
    assert_eq!(slot.short, None);
}

#[test]
fn slot_reports_a_bad_help_attribute() {
    match field("x", vec![word("named"), word("help")]).slot() {
        Err(ShapeError::HelpFormat) => {},
        _ => panic!("expected a refusal"),
    }
}

#[test]
fn add_sorts_slots_by_role() {
    let mut parser = Parser::new("Cmd".to_string());
    assert!(parser.add(slot("a", Role::Positional, true, false, None)).is_ok());
    assert!(parser.add(slot("n", Role::Named, true, false, Some("n"))).is_ok());
    assert!(parser.add(slot("f", Role::Flag, true, false, None)).is_ok());
    assert!(parser.add(slot("b", Role::Positional, false, false, None)).is_ok());
    assert!(parser.add(slot("rest", Role::Positional, true, true, None)).is_ok());
    assert_eq!(parser.cmd_ident, "Cmd");
    assert_eq!(parser.pos_args.len(), 3);
    assert_eq!(parser.named_args.len(), 1);
    assert_eq!(parser.flags.len(), 1);
    assert_eq!(parser.pos_args[0].name, "a");
    assert_eq!(parser.pos_args[1].name, "b");
    assert_eq!(parser.pos_args[2].name, "rest");
    assert!(parser.pos_args[2].variadic);
    assert_eq!(parser.named_args[0].arg_name, "--n");
    assert_eq!(parser.named_args[0].short, Some("-n".to_string()));
    assert_eq!(parser.flags[0].arg_name, "--f");
}

#[test]
fn add_leaves_the_parser_as_it_was_on_a_mistake() {
    let mut parser = Parser::new("Cmd".to_string());
    assert!(parser.add(slot("a", Role::Positional, false, false, None)).is_ok());
    assert!(parser.add(slot("b", Role::Positional, true, false, None)).is_err());
    assert!(parser.add(slot("n", Role::Named, true, true, None)).is_err());
    assert_eq!(parser.pos_args.len(), 1);
    assert_eq!(parser.named_args.len(), 0);
    assert_eq!(parser.flags.len(), 0);
}

#[test]
fn named_argument_cannot_be_variadic() {
    let text = mistake(item(vec![field("files", vec![word("named"), word("variadic")])]));
    assert_eq!(text, "Named argument `files` cannot be variadic.");
}

#[test]
fn flag_cannot_be_variadic() {
    let text = mistake(item(vec![field("v", vec![word("flag"), word("variadic")])]));
    assert_eq!(text, "Flag `v` cannot be variadic.");
}

#[test]
fn required_positional_cannot_follow_an_optional_one() {
    let text = mistake(item(vec![field("a", vec![word("optional")]), field("b", vec![])]));
    assert_eq!(
        text,
        "Required positional argument `b` must come before any optional arguments."
    );
}

#[test]
fn positional_cannot_follow_the_variadic_one() {
    let text = mistake(item(vec![field("rest", vec![word("variadic")]), field("b", vec![])]));
    assert_eq!(text, "Positional argument `b` must come before the variadic argument.");
    let text = mistake(item(vec![
        field("rest", vec![word("variadic")]),
        field("b", vec![word("optional")]),
    ]));
    assert_eq!(text, "Positional argument `b` must come before the variadic argument.");
    let text = mistake(item(vec![
        field("rest", vec![word("variadic")]),
        field("more", vec![word("variadic")]),
    ]));
    assert_eq!(text, "Positional argument `more` must come before the variadic argument.");
}

#[test]
fn variadic_may_follow_an_optional_positional() {
    let ctor = plan(item(vec![
        field("a", vec![]),
        field("b", vec![word("optional")]),
        field("rest", vec![word("variadic")]),
    ]));
    assert_eq!(ctor.parser.pos_args.len(), 3);
    assert!(ctor.parser.pos_args[2].variadic);
    assert!(ctor.parser.pos_args[2].required);
}

#[test]
fn named_and_flag_fields_do_not_count_in_the_positional_order() {
    let ctor = plan(item(vec![
        field("a", vec![word("optional")]),
        field("n", vec![word("named")]),
        field("f", vec![word("flag")]),
    ]));
    assert_eq!(ctor.parser.pos_args.len(), 1);
    assert_eq!(ctor.parser.named_args.len(), 1);
    assert_eq!(ctor.parser.flags.len(), 1);
    assert!(ctor.parser.named_args[0].required);
}

#[test]
fn long_keys_must_differ() {
    let text = mistake(item(vec![
        field("time_out", vec![word("named")]),
        field("timeOut", vec![word("flag")]),
    ]));
    assert_eq!(text, "Argument `timeOut` declares a key that is taken.");
}

#[test]
fn short_keys_must_differ() {
    let text = mistake(item(vec![
        field("verbose", vec![list("flag", "(short = \"v\")")]),
        field("version", vec![list("named", "(short = \"v\")")]),
    ]));
    assert_eq!(text, "Argument `version` declares a key that is taken.");
}

#[test]
fn short_key_must_differ_from_long_keys() {
    let text = mistake(item(vec![
        field("a", vec![word("flag")]),
        field("b", vec![list("flag", "(short = \"-a\")")]),
    ]));
    assert_eq!(text, "Argument `b` declares a key that is taken.");
    let text = mistake(item(vec![field("a", vec![list("named", "(short = \"-a\")")])]));
    assert_eq!(text, "Argument `a` declares a key that is taken.");
}

#[test]
fn positional_names_are_no_keys() {
    let ctor = plan(item(vec![field("file", vec![]), field("file", vec![word("named")])]));
    assert_eq!(ctor.parser.pos_args.len(), 1);
    assert_eq!(ctor.parser.named_args.len(), 1);
}

#[test]
fn the_first_mistake_in_declaration_order_is_reported() {
    let text = mistake(item(vec![
        field("a", vec![word("optional")]),
        field("b", vec![]),
        field("c", vec![word("named"), word("help")]),
    ]));
    assert_eq!(
        text,
        "Required positional argument `b` must come before any optional arguments."
    );
    let text = mistake(item(vec![
        field("c", vec![word("named"), word("help")]),
        field("a", vec![word("optional")]),
        field("b", vec![]),
    ]));
    assert_eq!(text, "Help must be formatted as #[help = \"msg\"]");
}

#[test]
fn a_command_reports_its_own_help_attribute_first() {
    let text = mistake(Item::Struct {
        ident: "Cmd".to_string(),
        attrs: vec![word("help")],
        fields: vec![field("n", vec![word("named"), word("variadic")])],
    });
    assert_eq!(text, "Help must be formatted as #[help = \"msg\"]");
}

#[test]
fn only_structs_and_enums_declare_commands() {
    assert_eq!(mistake(Item::Other), "Only allowed on structs and enums.");
}

#[test]
fn subcommand_names_must_differ() {
    let text = mistake(Item::Enum {
        ident: "Cmd".to_string(),
        attrs: vec![],
        variants: vec![
            Variant { ident: "LoadFile".to_string(), attrs: vec![], fields: vec![] },
            Variant { ident: "loadFile".to_string(), attrs: vec![], fields: vec![] },
        ],
    });
    assert_eq!(text, "Subcommand `load-file` is declared twice.");
}

#[test]
fn an_enum_reports_its_variants_before_its_own_help() {
    let text = mistake(Item::Enum {
        ident: "Cmd".to_string(),
        attrs: vec![word("help")],
        variants: vec![Variant {
            ident: "Run".to_string(),
            attrs: vec![],
            fields: vec![field("v", vec![word("flag"), word("variadic")])],
        }],
    });
    assert_eq!(text, "Flag `v` cannot be variadic.");
}

#[test]
fn an_enum_without_variants_has_an_empty_list() {
    let cmd = match cli(&Item::Enum { ident: "Cmd".to_string(), attrs: vec![], variants: vec![] }) {
        Ok(Cli::Enum(cmd)) => cmd,
        _ => panic!("expected a set of subcommands"),
    };
    assert_eq!(cmd.subcommands.len(), 0);
    assert_eq!(cmd.help, "Help - cmd\nSUBCOMMANDS:\n");
}

#[test]
fn help_head_with_and_without_a_description() {
    assert_eq!(start_help("FileSystem", &None), "Help - file-system\n");
    assert_eq!(
        start_help("FileSystem", &Some("Save or load files.".to_string())),
        "Help - file-system\nSave or load files.\n\n"
    );
}

#[test]
fn help_of_a_command_without_slots_is_its_head() {
    let ctor = plan(item(vec![]));
    assert_eq!(ctor.help, "Help - cmd\n");
}

#[test]
fn help_of_flags_only_has_no_arguments_section() {
    let ctor = plan(item(vec![
        field("pedantic", vec![word("flag"), help_attr("include subjective lints")]),
        field("quiet", vec![list("flag", "(short = \"q\")"), word("optional")]),
    ]));
    assert_eq!(
        ctor.help,
        "Help - cmd\nFLAGS:\n    --pedantic\tinclude subjective lints\n    -q, --quiet\n"
    );
}

#[test]
fn help_lists_every_tag() {
    let ctor = plan(Item::Struct {
        ident: "Build".to_string(),
        attrs: vec![help_attr("Build the current crate.")],
        fields: vec![
            field("path", vec![]),
            field("out_dir", vec![word("optional"), help_attr("where to")]),
            field("rest", vec![word("variadic"), word("optional")]),
            field("target", vec![list("named", "(short = \"t\")"), help_attr("the target platform")]),
            field("jobs", vec![word("named"), word("optional")]),
            field("release", vec![word("flag"), help_attr("build for release mode")]),
        ],
    });
    assert_eq!(
        ctor.help,
        "Help - build\nBuild the current crate.\n\nARGUMENTS:\n    path\n    out_dir\twhere to\t[optional]\n    rest\t[variadic]\t[optional]\n    -t, --target\tthe target platform\n    --jobs\t[optional]\n\nFLAGS:\n    --release\tbuild for release mode\n"
    );
}

#[test]
fn build_help_appends_to_what_is_there() {
    let mut parser = Parser::new("Cmd".to_string());
    assert!(parser.add(slot("a", Role::Positional, true, false, None)).is_ok());
    let mut text = "before\n".to_string();
    parser.build_help(&mut text);
    assert_eq!(text, "before\nARGUMENTS:\n    a\n\n");
}

#[test]
fn into_ctor_keeps_slots_and_help() {
    let mut parser = Parser::new("Cmd".to_string());
    assert!(parser.add(slot("a", Role::Positional, true, false, None)).is_ok());
    let ctor = parser.into_ctor("the help".to_string());
    assert_eq!(ctor.help, "the help");
    assert_eq!(ctor.parser.pos_args.len(), 1);
    assert!(ctor.help_on_blank());
}

#[test]
fn collect_args_registers_in_declaration_order() {
    let fields = vec![
        field("b", vec![]),
        field("x", vec![word("flag")]),
        field("a", vec![word("optional")]),
    ];
    let parser = match Parser::collect_args("Cmd".to_string(), &fields) {
        Ok(parser) => parser,
        Err(e) => panic!("{}", e.to_string()),
    };
    assert_eq!(parser.pos_args.len(), 2);
    assert_eq!(parser.pos_args[0].name, "b");
    assert_eq!(parser.pos_args[1].name, "a");
    assert_eq!(parser.flags[0].name, "x");
}
