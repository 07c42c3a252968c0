use type_cli::ctor::{Collected, Ctor};
use type_cli::decl::{Attribute, Field, Item, Lit, Meta};
use type_cli::derive::{cli, Cli};
use type_cli::{Error, Parse};

#[derive(PartialEq, Eq, Debug)]
pub struct Name {
    first: String,
    last: Option<String>,
}

#[derive(PartialEq, Eq, Debug)]
pub struct Oof {
    ouch: String,
    count: Option<u32>,
}

#[derive(PartialEq, Eq, Debug)]
pub struct Ls {
    dir: Option<String>,
}

fn help_attr(text: &str) -> Attribute {
    Attribute {
        path: "help".to_string(),
        tokens: format!("= {:?}", text),
        meta: Meta::NameValue(Lit::Str(text.to_string())),
    }
}

fn word(name: &str) -> Attribute {
    Attribute { path: name.to_string(), tokens: String::new(), meta: Meta::Path }
}

fn list(name: &str, tokens: &str) -> Attribute {
    Attribute { path: name.to_string(), tokens: tokens.to_string(), meta: Meta::List }
}

fn field(ident: &str, attrs: Vec<Attribute>) -> Field {
    Field { ident: ident.to_string(), attrs }
}

fn name_item() -> Item {
    Item::Struct {
        ident: "Name".to_string(),
        attrs: vec![help_attr("Format a person's name")],
        fields: vec![
            field("first", vec![help_attr("First name")]),
            field("last", vec![word("optional"), help_attr("Last name")]),
        ],
    }
}

fn oof_item() -> Item {
    Item::Struct {
        ident: "Oof".to_string(),
        attrs: vec![],
        fields: vec![
            field("ouch", vec![]),
            field("count", vec![list("named", "(short = \"c\")"), word("optional")]),
        ],
    }
}

fn ls_item() -> Item {
    Item::Struct {
        ident: "Ls".to_string(),
        attrs: vec![],
        fields: vec![field("dir", vec![word("optional")])],
    }
}

fn args(tokens: &[&str]) -> Vec<String> {
    let mut all = vec!["type-cli".to_string()];
    for token in tokens {
        all.push(token.to_string());
    }
    all
}

fn process<T>(
    item: Item,
    tokens: &[&str],
    build: fn(&Ctor, &Collected) -> Result<T, Error>,
) -> Result<T, Error> {
    let plan = match cli(&item) {
        Ok(plan) => plan,
        Err(e) => panic!("{}", e.to_string()),
    };
    let ctor = match &plan {
        Cli::Struct(ctor) => ctor,
        Cli::Enum(_) => unreachable!(),
    };
    match plan.parse(&args(tokens))? {
        Parse::Success(matched) => build(ctor, &matched.values),
        Parse::Help(h) => panic!("{}", h.to_string()),
    }
}

fn unwrap<T>(r: Result<T, Error>) -> T {
    match r {
        Ok(val) => val,
        Err(e) => panic!("{}", e.to_string()),
    }
}

fn build_name(ctor: &Ctor, got: &Collected) -> Result<Name, Error> {
    Ok(Name { first: ctor.positional(got, 0)?, last: ctor.optional(got, 1)? })
}

fn build_oof(ctor: &Ctor, got: &Collected) -> Result<Oof, Error> {
    Ok(Oof { ouch: ctor.positional(got, 0)?, count: ctor.optional_named(got, 0)? })
}

fn build_ls(ctor: &Ctor, got: &Collected) -> Result<Ls, Error> {
    Ok(Ls { dir: ctor.optional(got, 0)? })
}

#[test]
fn misc_name() {
    assert_eq!(
        unwrap(process(name_item(), &["Robb", "Stark"], build_name)),
        Name { first: "Robb".to_string(), last: Some("Stark".to_string()) }
    );
}

#[test]
fn misc_name_op() {
    assert_eq!(
        unwrap(process(name_item(), &["Pate"], build_name)),
        Name { first: "Pate".to_string(), last: None }
    );
}

#[test]
#[should_panic(expected = "Help - name")]
fn misc_name_help() {
    unwrap(process(name_item(), &["--help"], build_name));
}

#[test]
#[should_panic(expected = "Help - name")]
fn name_help2() {
    unwrap(process(name_item(), &["-h"], build_name));
}

#[test]
#[should_panic(expected = "Help - name")]
fn name_help3() {
    unwrap(process(name_item(), &[], build_name));
}

#[test]
fn misc_oof() {
    assert_eq!(
        unwrap(process(oof_item(), &["foo", "--count", "4"], build_oof)),
        Oof { ouch: "foo".to_string(), count: Some(4) }
    );
    assert_eq!(
        unwrap(process(oof_item(), &["foo"], build_oof)),
        Oof { ouch: "foo".to_string(), count: None }
    );
}

#[test]
fn misc_oof_short() {
    assert_eq!(
        unwrap(process(oof_item(), &["-c", "12", "foo"], build_oof)),
        Oof { ouch: "foo".to_string(), count: Some(12) }
    );
}

#[test]
#[should_panic(expected = "Error parsing argument `--count`")]
fn misc_oof_err() {
    unwrap(process(oof_item(), &["foo", "--count", "kevin"], build_oof));
}

#[test]
fn ls_arg() {
    assert_eq!(
        unwrap(process(ls_item(), &["dir"], build_ls)),
        Ls { dir: Some("dir".to_string()) }
    );
}

#[test]
fn ls_none() {
    assert_eq!(unwrap(process(ls_item(), &[], build_ls)), Ls { dir: None });
}

#[test]
#[should_panic(expected = "Help - ls")]
fn ls_help() {
    unwrap(process(ls_item(), &["--help"], build_ls));
}

#[test]
fn oof_err_names_the_argument_and_the_cause() {
    match process(oof_item(), &["foo", "--count", "kevin"], build_oof) {
        Err(e) => assert_eq!(
            e.to_string(),
            "Error parsing argument `--count`:\ninvalid digit found in string"
        ),
        Ok(_) => panic!("expected a parse error"),
    }
}

#[test]
fn name_help_text() {
    let plan = match cli(&name_item()) {
        Ok(plan) => plan,
        Err(e) => panic!("{}", e.to_string()),
    };
    let text = match plan.parse(&args(&["-h"])) {
        Ok(Parse::Help(h)) => h.to_string(),
        _ => unreachable!(),
    };
    assert_eq!(
        text,
        "Help - name\nFormat a person's name\n\nARGUMENTS:\n    first\tFirst name\n    last\tLast name\t[optional]\n\n"
    );
}

#[test]
fn oof_help_text() {
    let plan = match cli(&oof_item()) {
        Ok(plan) => plan,
        Err(e) => panic!("{}", e.to_string()),
    };
    let text = match plan.parse(&args(&["--help"])) {
        Ok(Parse::Help(h)) => h.to_string(),
        _ => unreachable!(),
    };
    assert_eq!(text, "Help - oof\nARGUMENTS:\n    ouch\n    -c, --count\t[optional]\n\n");
}

#[test]
fn short_key_is_read_from_the_attribute() {
    let plan = match cli(&oof_item()) {
        Ok(Cli::Struct(ctor)) => ctor,
        _ => unreachable!(),
    };
    assert_eq!(plan.parser.named_args.len(), 1);
    assert_eq!(plan.parser.named_args[0].short, Some("-c".to_string()));
    assert_eq!(plan.parser.named_args[0].arg_name, "--count");
    assert_eq!(plan.parser.pos_args[0].short, None);
}
