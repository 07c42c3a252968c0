//! The declaration of a command as data: items, variants, fields and their
//! attributes, and the reading of one field's attributes into a slot.

use vstd::prelude::*;
use crate::outcome::opt_text;
use crate::text::{text_is, wrapped};

verus! {

/// The value of a `name = value` attribute.
pub enum Lit {
    /// A string literal, with its contents.
    Str(String),
    /// Any other literal.
    Other,
}

/// The form of an attribute's contents.
pub enum Meta {
    /// A bare name, like `optional`.
    Path,
    /// A name with a parenthesised list, like `named(short = "n")`.
    List,
    /// A name and a value, like `help = "text"`.
    NameValue(Lit),
    /// None of these; the text says what is wrong.
    Malformed(String),
}

/// One attribute of an item, a variant or a field.
pub struct Attribute {
    /// The attribute's name.
    pub path: String,
    /// What follows the name, as text.
    pub tokens: String,
    /// The form of the attribute.
    pub meta: Meta,
}

/// One declared field.
pub struct Field {
    pub ident: String,
    pub attrs: Vec<Attribute>,
}

/// One variant of an enum: a subcommand.
pub struct Variant {
    pub ident: String,
    pub attrs: Vec<Attribute>,
    pub fields: Vec<Field>,
}

/// A declaration that a command can be derived from, or any other item.
pub enum Item {
    Enum { ident: String, attrs: Vec<Attribute>, variants: Vec<Variant> },
    Struct { ident: String, attrs: Vec<Attribute>, fields: Vec<Field> },
    Other,
}

/// The role of a slot on the command line.
#[derive(Clone, Copy, PartialEq, Eq, Structural)]
pub enum Role {
    /// Served by its position among the tokens without a leading dash.
    Positional,
    /// Served by its key and the token after it.
    Named,
    /// Counted by the occurrences of its key.
    Flag,
}

/// One argument slot as it was declared, before classification.
pub struct Slot {
    pub ident: String,
    pub role: Role,
    pub required: bool,
    pub variadic: bool,
    /// The declared short alias, without its dash.
    pub short: Option<String>,
    pub help: Option<String>,
}

/// The model of a [`Slot`].
pub struct SlotView {
    pub ident: Seq<char>,
    pub role: Role,
    pub required: bool,
    pub variadic: bool,
    pub short: Option<Seq<char>>,
    pub help: Option<Seq<char>>,
}

impl View for Slot {
    type V = SlotView;

    open spec fn view(&self) -> SlotView {
        SlotView {
            ident: self.ident@,
            role: self.role,
            required: self.required,
            variadic: self.variadic,
            short: opt_text(self.short),
            help: opt_text(self.help),
        }
    }
}

/// A mistake in the declaration of a command. It never depends on the
/// tokens that a user types.
pub enum ShapeError {
    /// The named argument is marked variadic.
    NamedVariadic(String),
    /// The flag is marked variadic.
    FlagVariadic(String),
    /// The positional argument is required and follows an optional one.
    RequiredAfterOptional(String),
    /// The positional argument follows the variadic one.
    AfterVariadic(String),
    /// The argument declares a key that is taken.
    DuplicateKey(String),
    /// The subcommand's name is taken.
    DuplicateSub(String),
    /// The item is neither a struct nor an enum.
    NotStructOrEnum,
    /// A help attribute's value is no string literal.
    HelpNotString,
    /// A help attribute is not of the form `help = "text"`.
    HelpFormat,
    /// An attribute could not be read; the text says why.
    Malformed(String),
}

/// The model of a [`ShapeError`].
pub enum ShapeErrorView {
    NamedVariadic(Seq<char>),
    FlagVariadic(Seq<char>),
    RequiredAfterOptional(Seq<char>),
    AfterVariadic(Seq<char>),
    DuplicateKey(Seq<char>),
    DuplicateSub(Seq<char>),
    NotStructOrEnum,
    HelpNotString,
    HelpFormat,
    Malformed(Seq<char>),
}

impl View for ShapeError {
    type V = ShapeErrorView;

    open spec fn view(&self) -> ShapeErrorView {
        match self {
            ShapeError::NamedVariadic(ident) => ShapeErrorView::NamedVariadic(ident@),
            ShapeError::FlagVariadic(ident) => ShapeErrorView::FlagVariadic(ident@),
            ShapeError::RequiredAfterOptional(ident) => ShapeErrorView::RequiredAfterOptional(
                ident@,
            ),
            ShapeError::AfterVariadic(ident) => ShapeErrorView::AfterVariadic(ident@),
            ShapeError::DuplicateKey(ident) => ShapeErrorView::DuplicateKey(ident@),
            ShapeError::DuplicateSub(name) => ShapeErrorView::DuplicateSub(name@),
            ShapeError::NotStructOrEnum => ShapeErrorView::NotStructOrEnum,
            ShapeError::HelpNotString => ShapeErrorView::HelpNotString,
            ShapeError::HelpFormat => ShapeErrorView::HelpFormat,
            ShapeError::Malformed(why) => ShapeErrorView::Malformed(why@),
        }
    }
}

/// The one line that reports a mistake in a declaration.
pub open spec fn shape_error_text(e: ShapeErrorView) -> Seq<char> {
    match e {
        ShapeErrorView::NamedVariadic(ident) => "Named argument `"@ + ident
            + "` cannot be variadic."@,
        ShapeErrorView::FlagVariadic(ident) => "Flag `"@ + ident + "` cannot be variadic."@,
        ShapeErrorView::RequiredAfterOptional(ident) => "Required positional argument `"@ + ident
            + "` must come before any optional arguments."@,
        ShapeErrorView::AfterVariadic(ident) => "Positional argument `"@ + ident
            + "` must come before the variadic argument."@,
        ShapeErrorView::DuplicateKey(ident) => "Argument `"@ + ident
            + "` declares a key that is taken."@,
        ShapeErrorView::DuplicateSub(name) => "Subcommand `"@ + name + "` is declared twice."@,
        ShapeErrorView::NotStructOrEnum => "Only allowed on structs and enums."@,
        ShapeErrorView::HelpNotString => "Help message must be a string literal"@,
        ShapeErrorView::HelpFormat => "Help must be formatted as #[help = \"msg\"]"@,
        ShapeErrorView::Malformed(why) => why,
    }
}

impl ShapeError {
    /// The one line that reports the mistake.
    pub fn to_string(&self) -> (r: String)
        ensures
            r@ == shape_error_text(self@),
    {
        match self {
            ShapeError::NamedVariadic(ident) => wrapped(
                "Named argument `",
                ident.as_str(),
                "` cannot be variadic.",
            ),
            ShapeError::FlagVariadic(ident) => wrapped(
                "Flag `",
                ident.as_str(),
                "` cannot be variadic.",
            ),
            ShapeError::RequiredAfterOptional(ident) => wrapped(
                "Required positional argument `",
                ident.as_str(),
                "` must come before any optional arguments.",
            ),
            ShapeError::AfterVariadic(ident) => wrapped(
                "Positional argument `",
                ident.as_str(),
                "` must come before the variadic argument.",
            ),
            ShapeError::DuplicateKey(ident) => wrapped(
                "Argument `",
                ident.as_str(),
                "` declares a key that is taken.",
            ),
            ShapeError::DuplicateSub(name) => wrapped(
                "Subcommand `",
                name.as_str(),
                "` is declared twice.",
            ),
            ShapeError::NotStructOrEnum => String::from_str("Only allowed on structs and enums."),
            ShapeError::HelpNotString => String::from_str("Help message must be a string literal"),
            ShapeError::HelpFormat => String::from_str(
                "Help must be formatted as #[help = \"msg\"]",
            ),
            ShapeError::Malformed(why) => why.clone(),
        }
    }
}

/// The pattern that finds a short alias in the contents of a `named` or
/// `flag` attribute.
pub const SHORT_PATTERN: &'static str = "short\\s*=\\s*\"(.*)\"";

/// The text that capture group 1 of the regular expression `pattern` takes
/// in the leftmost match in `haystack`; `None` where the pattern does not
/// compile, where nothing matches, or where the group takes no part in the
/// match.
pub uninterp spec fn regex_first_group(pattern: Seq<char>, haystack: Seq<char>) -> Option<Seq<char>>;

/// `regex::Regex::new`, `Regex::captures`, `Captures::get` and
/// `Match::as_str`: compiles `pattern`, searches `haystack` for its leftmost
/// match and hands out the text of capture group 1. The result depends on
/// the two texts alone; it is named, not defined.
#[verifier::external_body]
fn first_group(pattern: &str, haystack: &str) -> (r: Option<String>)
    ensures
        opt_text(r) == regex_first_group(pattern@, haystack@),
{
    match regex::Regex::new(pattern) {
        Ok(re) => match re.captures(haystack) {
            Some(caps) => match caps.get(1) {
                Some(group) => Some(group.as_str().to_string()),
                None => None,
            },
            None => None,
        },
        Err(_) => None,
    }
}

/// The index of the first attribute from `from` on whose name is `name`.
pub open spec fn first_attr(attrs: Seq<Attribute>, name: Seq<char>, from: int) -> Option<int>
    decreases attrs.len() - from,
{
    if from < 0 || from >= attrs.len() {
        None
    } else if attrs[from].path@ == name {
        Some(from)
    } else {
        first_attr(attrs, name, from + 1)
    }
}

/// The help text that a `help` attribute holds, or what is wrong with it.
pub open spec fn help_of(help: Attribute) -> Result<Seq<char>, ShapeErrorView> {
    match help.meta {
        Meta::Malformed(why) => Err(ShapeErrorView::Malformed(why@)),
        Meta::NameValue(Lit::Str(text)) => Ok(text@),
        Meta::NameValue(Lit::Other) => Err(ShapeErrorView::HelpNotString),
        _ => Err(ShapeErrorView::HelpFormat),
    }
}

/// The help text among `attrs`: that of the first `help` attribute, if
/// there is one.
pub open spec fn help_among(attrs: Seq<Attribute>) -> Result<Option<Seq<char>>, ShapeErrorView> {
    match first_attr(attrs, "help"@, 0) {
        None => Ok(None),
        Some(i) => match help_of(attrs[i]) {
            Ok(text) => Ok(Some(text)),
            Err(e) => Err(e),
        },
    }
}

/// The short alias that the contents of a `named` or `flag` attribute
/// declare.
pub open spec fn short_in(tokens: Seq<char>) -> Option<Seq<char>> {
    regex_first_group(SHORT_PATTERN@, tokens)
}

/// The slot that a field's attributes declare: optional if marked
/// `optional`, variadic if marked `variadic`, named if marked `named`, else
/// a flag if marked `flag`, else positional; a short alias only in a `named`
/// or `flag` attribute.
pub open spec fn slot_of(field: Field) -> Result<SlotView, ShapeErrorView> {
    let attrs = field.attrs@;
    match help_among(attrs) {
        Err(e) => Err(e),
        Ok(help) => {
            let (role, short) = match first_attr(attrs, "named"@, 0) {
                Some(i) => (Role::Named, short_in(attrs[i].tokens@)),
                None => match first_attr(attrs, "flag"@, 0) {
                    Some(i) => (Role::Flag, short_in(attrs[i].tokens@)),
                    None => (Role::Positional, None),
                },
            };
            Ok(
                SlotView {
                    ident: field.ident@,
                    role,
                    required: first_attr(attrs, "optional"@, 0) is None,
                    variadic: first_attr(attrs, "variadic"@, 0) is Some,
                    short,
                    help,
                },
            )
        },
    }
}

/// The model of a result that holds a text.
pub open spec fn text_result(r: Result<String, ShapeError>) -> Result<Seq<char>, ShapeErrorView> {
    match r {
        Ok(text) => Ok(text@),
        Err(e) => Err(e@),
    }
}

/// The model of a result that holds an optional text.
pub open spec fn opt_text_result(r: Result<Option<String>, ShapeError>) -> Result<
    Option<Seq<char>>,
    ShapeErrorView,
> {
    match r {
        Ok(text) => Ok(opt_text(text)),
        Err(e) => Err(e@),
    }
}

/// The model of a result that holds a slot.
pub open spec fn slot_result(r: Result<Slot, ShapeError>) -> Result<SlotView, ShapeErrorView> {
    match r {
        Ok(slot) => Ok(slot@),
        Err(e) => Err(e@),
    }
}

/// Finds the first attribute named `name`.
pub fn find_attr(attrs: &Vec<Attribute>, name: &str) -> (r: Option<usize>)
    ensures
        crate::ctor::opt_index(r) == first_attr(attrs@, name@, 0),
        r matches Some(i) ==> i < attrs.len(),
{
    let mut i: usize = 0;
    while i < attrs.len()
        invariant
            i <= attrs.len(),
            first_attr(attrs@, name@, 0) == first_attr(attrs@, name@, i as int),
        decreases attrs.len() - i,
    {
        if text_is(&attrs[i].path, name) {
            return Some(i);
        }
        i += 1;
    }
    None
}

/// Reads the text of a `help` attribute, which has the form
/// `help = "text"`.
pub fn parse_help(help: &Attribute) -> (r: Result<String, ShapeError>)
    ensures
        text_result(r) == help_of(*help),
{
    match &help.meta {
        Meta::Malformed(why) => Err(ShapeError::Malformed(why.clone())),
        Meta::NameValue(lit) => match lit {
            Lit::Str(text) => Ok(text.clone()),
            Lit::Other => Err(ShapeError::HelpNotString),
        },
        _ => Err(ShapeError::HelpFormat),
    }
}

/// Reads the help text among `attrs`, if they hold a `help` attribute.
pub fn try_help(attrs: &Vec<Attribute>) -> (r: Result<Option<String>, ShapeError>)
    ensures
        opt_text_result(r) == help_among(attrs@),
{
    match find_attr(attrs, "help") {
        Some(i) => match parse_help(&attrs[i]) {
            Ok(text) => Ok(Some(text)),
            Err(e) => Err(e),
        },
        None => Ok(None),
    }
}

impl Field {
    /// Reads the field's attributes into the slot that they declare.
    pub fn slot(&self) -> (r: Result<Slot, ShapeError>)
        ensures
            slot_result(r) == slot_of(*self),
    {
        let required = find_attr(&self.attrs, "optional").is_none();
        let variadic = find_attr(&self.attrs, "variadic").is_some();
        let help = match try_help(&self.attrs) {
            Ok(help) => help,
            Err(e) => {
                return Err(e);
            },
        };
        let (role, short) = match find_attr(&self.attrs, "named") {
            Some(i) => (Role::Named, first_group(SHORT_PATTERN, self.attrs[i].tokens.as_str())),
            None => match find_attr(&self.attrs, "flag") {
                Some(i) => (Role::Flag, first_group(SHORT_PATTERN, self.attrs[i].tokens.as_str())),
                None => (Role::Positional, None),
            },
        };
        Ok(Slot { ident: self.ident.clone(), role, required, variadic, short, help })
    }
}

} // verus!
