//! The entry point: from the declaration of a command to its plan, and from
//! the arguments of a process to the answer of that plan.

use vstd::prelude::*;
use crate::ctor::Ctor;
use crate::decl::{Item, ShapeError, ShapeErrorView};
use crate::enum_cmd::{answer_of, answer_view, dispatch, enum_plan, Answer, EnumCmd, EnumView, Matched};
use crate::model::{run, PlanView};
use crate::outcome::{Error, Parse};
use crate::struct_cmd::struct_plan;

verus! {

/// The plan of a command: a flat argument list, or a set of subcommands.
pub enum Cli {
    Struct(Ctor),
    Enum(EnumCmd),
}

/// The model of a [`Cli`].
pub enum CliView {
    /// The slots and the help text.
    Struct(PlanView, Seq<char>),
    Enum(EnumView),
}

impl View for Cli {
    type V = CliView;

    open spec fn view(&self) -> CliView {
        match self {
            Cli::Struct(ctor) => CliView::Struct(ctor.parser@, ctor.help@),
            Cli::Enum(cmd) => CliView::Enum(cmd@),
        }
    }
}

impl CliView {
    /// The invariant of the plan.
    pub open spec fn wf(self) -> bool {
        match self {
            CliView::Struct(plan, _) => plan.wf(),
            CliView::Enum(cmd) => cmd.wf(),
        }
    }

    /// The answer to the arguments of a process. The first argument, by
    /// convention the program's own name, is always passed over.
    pub open spec fn answer(self, args: Seq<Seq<char>>) -> Answer {
        match self {
            CliView::Struct(plan, help) => answer_of(run(plan, args, 1), None, help),
            CliView::Enum(cmd) => dispatch(cmd, args, 1),
        }
    }
}

/// The plan that an item declares, or the first mistake in the declaration.
/// Only a struct or an enum declares a command.
pub open spec fn cli_plan(item: Item) -> Result<CliView, ShapeErrorView> {
    match item {
        Item::Enum { ident, attrs, variants } => match enum_plan(ident@, attrs@, variants@) {
            Ok(cmd) => Ok(CliView::Enum(cmd)),
            Err(e) => Err(e),
        },
        Item::Struct { ident, attrs, fields } => match struct_plan(ident@, attrs@, fields@) {
            Ok((plan, help)) => Ok(CliView::Struct(plan, help)),
            Err(e) => Err(e),
        },
        Item::Other => Err(ShapeErrorView::NotStructOrEnum),
    }
}

/// The model of a result that holds the plan of a command.
pub open spec fn cli_result(r: Result<Cli, ShapeError>) -> Result<CliView, ShapeErrorView> {
    match r {
        Ok(cli) => Ok(cli@),
        Err(e) => Err(e@),
    }
}

/// Derives the plan of the command that `item` declares.
pub fn cli(item: &Item) -> (r: Result<Cli, ShapeError>)
    ensures
        cli_result(r) == cli_plan(*item),
        r matches Ok(cli) ==> cli@.wf(),
{
    match item {
        Item::Enum { ident, attrs, variants } => {
            match crate::enum_cmd::parse(ident.as_str(), attrs, variants) {
                Ok(cmd) => Ok(Cli::Enum(cmd)),
                Err(e) => Err(e),
            }
        },
        Item::Struct { ident, attrs, fields } => {
            match crate::struct_cmd::parse(ident.clone(), attrs, fields) {
                Ok(ctor) => Ok(Cli::Struct(ctor)),
                Err(e) => Err(e),
            }
        },
        Item::Other => Err(ShapeError::NotStructOrEnum),
    }
}

impl Cli {
    /// Parses the arguments of a process: passes over the first one and
    /// runs the plan on the rest.
    pub fn parse(&self, args: &Vec<String>) -> (r: Result<Parse<Matched>, Error>)
        requires
            self@.wf(),
        ensures
            answer_view(r) == self@.answer(args.deep_view()),
    {
        match self {
            Cli::Struct(ctor) => match ctor.parse(args, 1) {
                Ok(Parse::Success(values)) => Ok(Parse::Success(Matched { variant: None, values })),
                Ok(Parse::Help(h)) => Ok(Parse::Help(h)),
                Err(e) => Err(e),
            },
            Cli::Enum(cmd) => cmd.parse(args, 1),
        }
    }
}

} // verus!
