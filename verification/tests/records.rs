use type_cli::ctor::{Collected, Ctor};
use type_cli::decl::{Attribute, Field, Item, Lit, Meta};
use type_cli::derive::{cli, Cli};
use type_cli::{Error, Parse};

#[derive(PartialEq, Eq, Debug)]
pub struct Name {
    first: String,
    last: Option<String>,
}

#[derive(PartialEq, Eq, Debug)]
pub struct Oof {
    ouch: String,
    count: Option<u32>,
}

fn help_attr(text: &str) -> Attribute {
    Attribute {
        path: "help".to_string(),
        tokens: format!("= {:?}", text),
        meta: Meta::NameValue(Lit::Str(text.to_string())),
    }
}

fn word(name: &str) -> Attribute {
    Attribute { path: name.to_string(), tokens: String::new(), meta: Meta::Path }
}

fn list(name: &str, tokens: &str) -> Attribute {
    Attribute { path: name.to_string(), tokens: tokens.to_string(), meta: Meta::List }
}

fn field(ident: &str, attrs: Vec<Attribute>) -> Field {
    Field { ident: ident.to_string(), attrs }
}

fn name_item() -> Item {
    Item::Struct {
        ident: "Name".to_string(),
        attrs: vec![help_attr("Format a person's name")],
        fields: vec![
            field("first", vec![help_attr("First name")]),
            field("last", vec![word("optional"), help_attr("Last name")]),
        ],
    }
}

fn oof_item() -> Item {
    Item::Struct {
        ident: "Oof".to_string(),
        attrs: vec![],
        fields: vec![
            field("ouch", vec![]),
            field("count", vec![list("named", "(short = \"c\")"), word("optional")]),
        ],
    }
}

fn args(tokens: &[&str]) -> Vec<String> {
    let mut all = vec!["type-cli".to_string()];
    for token in tokens {
        all.push(token.to_string());
    }
    all
}

fn process<T>(
    item: Item,
    tokens: &[&str],
    build: fn(&Ctor, &Collected) -> Result<T, Error>,
) -> T {
    let plan = match cli(&item) {
        Ok(plan) => plan,
        Err(e) => panic!("{}", e.to_string()),
    };
    let ctor = match &plan {
        Cli::Struct(ctor) => ctor,
        Cli::Enum(_) => unreachable!(),
    };
    let built = match plan.parse(&args(tokens)) {
        Ok(Parse::Success(matched)) => build(ctor, &matched.values),
        Ok(Parse::Help(h)) => panic!("{}", h.to_string()),
        Err(e) => Err(e),
    };
    match built {
        Ok(val) => val,
        Err(e) => panic!("{}", e.to_string()),
    }
}

fn build_name(ctor: &Ctor, got: &Collected) -> Result<Name, Error> {
    Ok(Name { first: ctor.positional(got, 0)?, last: ctor.optional(got, 1)? })
}

fn build_oof(ctor: &Ctor, got: &Collected) -> Result<Oof, Error> {
    Ok(Oof { ouch: ctor.positional(got, 0)?, count: ctor.optional_named(got, 0)? })
}

#[test]
fn name() {
    assert_eq!(
        process(name_item(), &["Robb", "Stark"], build_name),
        Name { first: "Robb".to_string(), last: Some("Stark".to_string()) }
    );
}

#[test]
fn name_op() {
    assert_eq!(
        process(name_item(), &["Pate"], build_name),
        Name { first: "Pate".to_string(), last: None }
    );
}

#[test]
#[should_panic(expected = "Help - name")]
fn name_help() {
    process(name_item(), &["--help"], build_name);
}

#[test]
fn oof() {
    assert_eq!(
        process(oof_item(), &["foo", "--count", "4"], build_oof),
        Oof { ouch: "foo".to_string(), count: Some(4) }
    );
    assert_eq!(
        process(oof_item(), &["foo"], build_oof),
        Oof { ouch: "foo".to_string(), count: None }
    );
}

#[test]
fn oof_short() {
    assert_eq!(
        process(oof_item(), &["-c", "12", "foo"], build_oof),
        Oof { ouch: "foo".to_string(), count: Some(12) }
    );
}

#[test]
#[should_panic(expected = "Error parsing argument `--count`")]
fn oof_err() {
    process(oof_item(), &["foo", "--count", "kevin"], build_oof);
}
