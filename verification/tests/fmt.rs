use type_cli::ctor::{Collected, Ctor};
use type_cli::decl::{Attribute, Field, Item, Lit, Meta};
use type_cli::derive::{cli, Cli};
use type_cli::{Error, Parse};

#[derive(PartialEq, Eq, Debug)]
pub struct Format(String, Vec<String>);

#[derive(PartialEq, Eq, Debug)]
pub struct Print(String, Option<String>);

fn help_attr(text: &str) -> Attribute {
    Attribute {
        path: "help".to_string(),
        tokens: format!("= {:?}", text),
        meta: Meta::NameValue(Lit::Str(text.to_string())),
    }
}

fn word(name: &str) -> Attribute {
    Attribute { path: name.to_string(), tokens: String::new(), meta: Meta::Path }
}

fn field(ident: &str, attrs: Vec<Attribute>) -> Field {
    Field { ident: ident.to_string(), attrs }
}

fn format_item() -> Item {
    Item::Struct {
        ident: "Format".to_string(),
        attrs: vec![help_attr("Format a string with an arbitrary number of values")],
        fields: vec![field("0", vec![]), field("1", vec![word("variadic")])],
    }
}

fn print_item() -> Item {
    Item::Struct {
        ident: "Print".to_string(),
        attrs: vec![help_attr("Print one or two strings")],
        fields: vec![field("0", vec![]), field("1", vec![word("optional")])],
    }
}

fn args(tokens: &[&str]) -> Vec<String> {
    let mut all = vec!["type-cli".to_string()];
    for token in tokens {
        all.push(token.to_string());
    }
    all
}

fn process<T>(
    item: Item,
    tokens: &[&str],
    build: fn(&Ctor, &Collected) -> Result<T, Error>,
) -> Result<T, Error> {
    let plan = match cli(&item) {
        Ok(plan) => plan,
        Err(e) => panic!("{}", e.to_string()),
    };
    let ctor = match &plan {
        Cli::Struct(ctor) => ctor,
        Cli::Enum(_) => unreachable!(),
    };
    match plan.parse(&args(tokens))? {
        Parse::Success(matched) => build(ctor, &matched.values),
        Parse::Help(h) => panic!("{}", h.to_string()),
    }
}

fn unwrap<T>(r: Result<T, Error>) -> T {
    match r {
        Ok(val) => val,
        Err(e) => panic!("{}", e.to_string()),
    }
}

fn build_format(ctor: &Ctor, got: &Collected) -> Result<Format, Error> {
    Ok(Format(ctor.positional(got, 0)?, ctor.variadic(got)?))
}

fn build_print(ctor: &Ctor, got: &Collected) -> Result<Print, Error> {
    Ok(Print(ctor.positional(got, 0)?, ctor.optional(got, 1)?))
}

#[test]
fn format() {
    assert_eq!(
        unwrap(process(format_item(), &["fmt", "arg1", "arg2"], build_format)),
        Format("fmt".to_string(), vec!["arg1".to_string(), "arg2".to_string()])
    );
}

#[test]
fn print() {
    assert_eq!(
        unwrap(process(print_item(), &["foo", "bar"], build_print)),
        Print("foo".to_string(), Some("bar".to_string()))
    );
}

#[test]
fn print_opt() {
    assert_eq!(
        unwrap(process(print_item(), &["foo"], build_print)),
        Print("foo".to_string(), None)
    );
}

#[test]
#[should_panic(expected = "Unexpected positional argument `extra-arg`")]
fn print_err() {
    unwrap(process(print_item(), &["foo", "bar", "extra-arg"], build_print));
}

#[test]
fn print_extra_arg_value() {
    match process(print_item(), &["foo", "bar", "extra-arg"], build_print) {
        Err(Error::ExtraArg(token)) => assert_eq!(token, "extra-arg"),
        _ => panic!("expected a token too many"),
    }
}
