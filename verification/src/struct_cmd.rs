//! The plan of a command with a flat argument list.

use vstd::prelude::*;
use crate::ctor::Ctor;
use crate::decl::{help_among, try_help, Attribute, Field, ShapeError, ShapeErrorView};
use crate::help::{arguments_help, help_head, start_help};
use crate::model::PlanView;
use crate::named::Parser;

verus! {

/// The plan and the help text of the command `ident` with the given
/// attributes and fields, or the first mistake in its declaration: one in
/// the command's own help attribute comes before those of the fields.
pub open spec fn struct_plan(ident: Seq<char>, attrs: Seq<Attribute>, fields: Seq<Field>) -> Result<
    (PlanView, Seq<char>),
    ShapeErrorView,
> {
    match help_among(attrs) {
        Err(e) => Err(e),
        Ok(about) => match PlanView::empty(ident).collect(fields, 0) {
            Err(e) => Err(e),
            Ok(plan) => Ok((plan, help_head(ident, about) + arguments_help(plan))),
        },
    }
}

/// The model of a result that holds a plan ready to run.
pub open spec fn ctor_result(r: Result<Ctor, ShapeError>) -> Result<(PlanView, Seq<char>), ShapeErrorView> {
    match r {
        Ok(ctor) => Ok((ctor.parser@, ctor.help@)),
        Err(e) => Err(e@),
    }
}

/// Builds the plan of the command `cmd_ident` from its attributes and its
/// fields.
pub fn parse(cmd_ident: String, attr: &Vec<Attribute>, fields: &Vec<Field>) -> (r: Result<
    Ctor,
    ShapeError,
>)
    ensures
        ctor_result(r) == struct_plan(cmd_ident@, attr@, fields@),
        r matches Ok(ctor) ==> ctor.wf(),
{
    let about = match try_help(attr) {
        Ok(about) => about,
        Err(e) => {
            return Err(e);
        },
    };
    let mut helpmsg = start_help(cmd_ident.as_str(), &about);
    let parser = match Parser::collect_args(cmd_ident, fields) {
        Ok(parser) => parser,
        Err(e) => {
            return Err(e);
        },
    };
    parser.build_help(&mut helpmsg);
    Ok(parser.into_ctor(helpmsg))
}

} // verus!
