//! Typed command-line parsing from a declarative description of a command.
//!
//! A command is declared as data ([`decl::Item`]): a struct with fields, or
//! an enum whose variants are subcommands. [`derive::cli`] classifies the
//! fields into positional slots, named slots and flags, checks the rules on
//! their order and their keys, and builds the help text. The plan that it
//! returns consumes the arguments of a process ([`derive::Cli::parse`]) and
//! answers with the collected tokens, with help, or with an error. The
//! collected tokens are then read slot by slot as the types that the fields
//! have ([`values`]), through the traits in [`args`].
//!
//! What each step means is stated over the model in [`model`]; [`laws`]
//! holds what follows for every plan and every stream of tokens.

pub mod args;
pub mod ctor;
pub mod decl;
pub mod derive;
pub mod enum_cmd;
pub mod help;
pub mod ints;
pub mod laws;
pub mod model;
pub mod named;
pub mod number;
pub mod outcome;
pub mod struct_cmd;
pub mod text;
pub mod values;

pub use args::{Argument, Flag, OptionalArg};
pub use outcome::{ArgRef, Error, HelpInfo, Parse};
pub use text::to_snake;
