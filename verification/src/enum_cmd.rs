//! The plan of a command that is a set of subcommands, and the dispatch on
//! the first token.

use vstd::prelude::*;
use crate::ctor::{opt_index, Collected, Ctor};
use crate::decl::{help_among, try_help, Attribute, ShapeError, ShapeErrorView, Variant};
use crate::help::{help_head, opt_part, start_help};
use crate::model::{run, Filled, Outcome, PlanView};
use crate::outcome::{opt_text, Error, ErrorView, HelpInfo, Parse};
use crate::struct_cmd::struct_plan;
use crate::text::{asks_help, is_help, snake, to_snake};

verus! {

/// One subcommand: the token that selects it and its plan.
pub struct Subcommand {
    pub name: String,
    pub ctor: Ctor,
}

/// The model of a [`Subcommand`].
pub struct SubView {
    pub name: Seq<char>,
    pub plan: PlanView,
    pub help: Seq<char>,
}

impl View for Subcommand {
    type V = SubView;

    open spec fn view(&self) -> SubView {
        SubView { name: self.name@, plan: self.ctor.parser@, help: self.ctor.help@ }
    }
}

/// The plan of a command that is a set of subcommands.
pub struct EnumCmd {
    pub help: String,
    pub subcommands: Vec<Subcommand>,
}

/// The model of an [`EnumCmd`].
pub struct EnumView {
    pub help: Seq<char>,
    pub subs: Seq<SubView>,
}

impl View for EnumCmd {
    type V = EnumView;

    open spec fn view(&self) -> EnumView {
        EnumView {
            help: self.help@,
            subs: Seq::new(self.subcommands.len() as nat, |i: int| self.subcommands[i]@),
        }
    }
}

/// The index of the first subcommand from `from` on that `token` selects.
pub open spec fn find_sub(subs: Seq<SubView>, token: Seq<char>, from: int) -> Option<int>
    decreases subs.len() - from,
{
    if from < 0 || from >= subs.len() {
        None
    } else if subs[from].name == token {
        Some(from)
    } else {
        find_sub(subs, token, from + 1)
    }
}

impl EnumView {
    /// The invariant of the plan: every subcommand's plan is well formed,
    /// and no two subcommands have the same name.
    pub open spec fn wf(self) -> bool {
        &&& forall|i: int| 0 <= i < self.subs.len() ==> (#[trigger] self.subs[i]).plan.wf()
        &&& forall|i: int, j: int|
            0 <= i < j < self.subs.len() ==> (#[trigger] self.subs[i]).name != (
            #[trigger] self.subs[j]).name
    }
}

/// The values of a successful run, with the subcommand that was selected,
/// if the command has subcommands.
pub struct Matched {
    pub variant: Option<usize>,
    pub values: Collected,
}

/// The outcome of a run at the top of a command.
pub enum Answer {
    /// The index of the selected subcommand, if there are subcommands, and
    /// what was collected.
    Success(Option<int>, Filled),
    /// The help text that is handed out.
    Help(Seq<char>),
    Error(ErrorView),
}

/// The outcome of a plan's run as an answer: help hands out `help`, and
/// success is marked with `variant`.
pub open spec fn answer_of(outcome: Outcome, variant: Option<int>, help: Seq<char>) -> Answer {
    match outcome {
        Outcome::Success(got) => Answer::Success(variant, got),
        Outcome::Help => Answer::Help(help),
        Outcome::Error(e) => Answer::Error(e),
    }
}

/// The outcome of dispatching the tokens from index `at` on: the command's
/// own help if there is no token or the first one asks for help; else the
/// outcome of the subcommand that the first token selects, run on all the
/// tokens after it; an error if it selects none.
pub open spec fn dispatch(cmd: EnumView, tokens: Seq<Seq<char>>, at: int) -> Answer {
    if at < 0 || at >= tokens.len() || is_help(tokens[at]) {
        Answer::Help(cmd.help)
    } else {
        match find_sub(cmd.subs, tokens[at], 0) {
            Some(k) => answer_of(run(cmd.subs[k].plan, tokens, at + 1), Some(k), cmd.subs[k].help),
            None => Answer::Error(ErrorView::UnknownSub(tokens[at])),
        }
    }
}

/// The model of what a run at the top of a command returns.
pub open spec fn answer_view(r: Result<Parse<Matched>, Error>) -> Answer {
    match r {
        Ok(Parse::Success(m)) => Answer::Success(opt_index(m.variant), m.values@),
        Ok(Parse::Help(h)) => Answer::Help(h@),
        Err(e) => Answer::Error(e@),
    }
}

/// The line of one subcommand in the help: four spaces, the name, the
/// description after a tab if there is one, and a line feed.
pub open spec fn sub_line(name: Seq<char>, about: Option<Seq<char>>) -> Seq<char> {
    "    "@ + name + opt_part("\t"@, about) + "\n"@
}

/// The subcommands and their help lines after the variants from `from` on
/// were added in order to `subs` and `lines`, or the first mistake met. A
/// variant's name is the hyphenated form of its identifier and must be new.
pub open spec fn variants_from(
    subs: Seq<SubView>,
    lines: Seq<char>,
    variants: Seq<Variant>,
    from: int,
) -> Result<(Seq<SubView>, Seq<char>), ShapeErrorView>
    decreases variants.len() - from,
{
    if from < 0 || from >= variants.len() {
        Ok((subs, lines))
    } else {
        let variant = variants[from];
        let name = snake(variant.ident@);
        if find_sub(subs, name, 0) is Some {
            Err(ShapeErrorView::DuplicateSub(name))
        } else {
            match (
                help_among(variant.attrs@),
                struct_plan(variant.ident@, variant.attrs@, variant.fields@),
            ) {
                (Ok(about), Ok((plan, help))) => variants_from(
                    subs.push(SubView { name, plan, help }),
                    lines + sub_line(name, about),
                    variants,
                    from + 1,
                ),
                (_, Err(e)) => Err(e),
                (Err(e), _) => Err(e),
            }
        }
    }
}

/// The plan of the enum `ident` with the given attributes and variants, or
/// the first mistake in its declaration: those of the variants come before
/// one in the enum's own help attribute.
pub open spec fn enum_plan(ident: Seq<char>, attrs: Seq<Attribute>, variants: Seq<Variant>) -> Result<
    EnumView,
    ShapeErrorView,
> {
    match variants_from(Seq::empty(), Seq::empty(), variants, 0) {
        Err(e) => Err(e),
        Ok((subs, lines)) => match help_among(attrs) {
            Err(e) => Err(e),
            Ok(about) => Ok(
                EnumView { help: help_head(ident, about) + "SUBCOMMANDS:\n"@ + lines, subs },
            ),
        },
    }
}

/// The model of a result that holds the plan of an enum.
pub open spec fn enum_result(r: Result<EnumCmd, ShapeError>) -> Result<EnumView, ShapeErrorView> {
    match r {
        Ok(cmd) => Ok(cmd@),
        Err(e) => Err(e@),
    }
}

/// Where no subcommand from `from` on has a name, none of them has it.
pub proof fn lemma_find_sub_none(subs: Seq<SubView>, token: Seq<char>, from: int)
    requires
        0 <= from,
        find_sub(subs, token, from) is None,
    ensures
        forall|i: int| from <= i < subs.len() ==> (#[trigger] subs[i]).name != token,
    decreases subs.len() - from,
{
    if from < subs.len() {
        lemma_find_sub_none(subs, token, from + 1);
    }
}

/// Finds the first subcommand that `token` selects.
pub fn position_sub(subs: &Vec<Subcommand>, token: &String) -> (r: Option<usize>)
    ensures
        opt_index(r) == find_sub(Seq::new(subs.len() as nat, |i: int| subs[i]@), token@, 0),
        r matches Some(k) ==> k < subs.len(),
{
    let ghost views = Seq::new(subs.len() as nat, |i: int| subs[i]@);
    let mut i: usize = 0;
    while i < subs.len()
        invariant
            i <= subs.len(),
            views == Seq::new(subs.len() as nat, |i: int| subs[i]@),
            find_sub(views, token@, 0) == find_sub(views, token@, i as int),
        decreases subs.len() - i,
    {
        if subs[i].name == *token {
            return Some(i);
        }
        i += 1;
    }
    None
}

/// Builds the plan of the enum `cmd_ident` from its attributes and its
/// variants.
pub fn parse(cmd_ident: &str, attrs: &Vec<Attribute>, variants: &Vec<Variant>) -> (r: Result<
    EnumCmd,
    ShapeError,
>)
    ensures
        enum_result(r) == enum_plan(cmd_ident@, attrs@, variants@),
        r matches Ok(cmd) ==> cmd@.wf(),
{
    let mut subcommands: Vec<Subcommand> = Vec::new();
    let mut lines = String::new();
    let ghost goal = variants_from(Seq::empty(), Seq::empty(), variants@, 0);
    let ghost mut subs: Seq<SubView> = Seq::empty();
    let mut i: usize = 0;
    while i < variants.len()
        invariant
            i <= variants.len(),
            subs == Seq::new(subcommands.len() as nat, |k: int| subcommands[k]@),
            goal == variants_from(Seq::empty(), Seq::empty(), variants@, 0),
            goal == variants_from(subs, lines@, variants@, i as int),
            forall|k: int| 0 <= k < subs.len() ==> (#[trigger] subs[k]).plan.wf(),
            forall|k: int, j: int|
                0 <= k < j < subs.len() ==> (#[trigger] subs[k]).name != (#[trigger] subs[j]).name,
        decreases variants.len() - i,
    {
        let variant = &variants[i];
        let name = to_snake(variant.ident.as_str());
        if position_sub(&subcommands, &name).is_some() {
            return Err(ShapeError::DuplicateSub(name));
        }
        proof {
            lemma_find_sub_none(subs, name@, 0);
        }
        let ctor = match crate::struct_cmd::parse(variant.ident.clone(), &variant.attrs, &variant.fields) {
            Ok(ctor) => ctor,
            Err(e) => {
                return Err(e);
            },
        };
        let about = match try_help(&variant.attrs) {
            Ok(about) => about,
            Err(e) => {
                return Err(e);
            },
        };
        let ghost before = lines@;
        lines.append("    ");
        lines.append(name.as_str());
        if let Some(text) = &about {
            lines.push('\t');
            lines.append(text.as_str());
        }
        lines.append("\n");
        assert(lines@ =~= before + sub_line(name@, opt_text(about))) by {
            reveal_strlit("\t");
        }
        let sub = Subcommand { name, ctor };
        subcommands.push(sub);
        proof {
            subs = subs.push(sub@);
        }
        i += 1;
    }
    let about = match try_help(attrs) {
        Ok(about) => about,
        Err(e) => {
            return Err(e);
        },
    };
    let mut help = start_help(cmd_ident, &about);
    help.append("SUBCOMMANDS:\n");
    help.append(lines.as_str());
    Ok(EnumCmd { help, subcommands })
}

impl EnumCmd {
    /// Dispatches on the token at index `start`: help for the whole command
    /// if the token is missing or asks for it, else the run of the
    /// subcommand that the token names on the tokens after it.
    pub fn parse(&self, args: &Vec<String>, start: usize) -> (r: Result<Parse<Matched>, Error>)
        requires
            self@.wf(),
        ensures
            answer_view(r) == dispatch(self@, args.deep_view(), start as int),
    {
        if start >= args.len() {
            return Ok(Parse::Help(HelpInfo(self.help.clone())));
        }
        let token = &args[start];
        if asks_help(token) {
            return Ok(Parse::Help(HelpInfo(self.help.clone())));
        }
        match position_sub(&self.subcommands, token) {
            Some(k) => {
                let sub = &self.subcommands[k];
                match sub.ctor.parse(args, start + 1) {
                    Ok(Parse::Success(values)) => Ok(
                        Parse::Success(Matched { variant: Some(k), values }),
                    ),
                    Ok(Parse::Help(h)) => Ok(Parse::Help(h)),
                    Err(e) => Err(e),
                }
            },
            None => Err(Error::UnknownSub(token.clone())),
        }
    }
}

} // verus!
