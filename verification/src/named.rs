//! Classified argument slots and the parser that collects them: the model
//! builder. Slots are registered in declaration order; each registration
//! checks the rules that the order of the slots and their keys must obey.

use vstd::prelude::*;
use crate::ctor::{position, Ctor};
use crate::decl::{slot_of, Field, Role, ShapeError, ShapeErrorView, Slot, SlotView};
use crate::model::{lemma_find_key_none, ArgView, PlanView};
use crate::outcome::opt_text;
use crate::text::{hyphenate, hyphenated, snake, to_snake};

verus! {

/// One argument slot of a command.
pub struct Arg {
    /// The field's declared identifier.
    pub ident: String,
    /// The key of the argument on the command line, `--arg`.
    pub arg_name: String,
    /// The short key of the argument, `-a`.
    pub short: Option<String>,
    /// The name of the argument without the dashes.
    pub name: String,
    pub help: Option<String>,
    pub required: bool,
    pub variadic: bool,
}

impl View for Arg {
    type V = ArgView;

    open spec fn view(&self) -> ArgView {
        ArgView {
            ident: self.ident@,
            arg_name: self.arg_name@,
            short: opt_text(self.short),
            name: self.name@,
            help: opt_text(self.help),
            required: self.required,
            variadic: self.variadic,
        }
    }
}

/// The models of a list of slots.
pub open spec fn arg_views(args: Seq<Arg>) -> Seq<ArgView> {
    Seq::new(args.len(), |i: int| args[i]@)
}

/// The slot of a field named `ident`: its name is the hyphenated lower-case
/// form of the identifier, its long key is `--` and that name with hyphens
/// for underscores, its short key is `-` and the declared alias.
pub open spec fn new_arg(
    ident: Seq<char>,
    short: Option<Seq<char>>,
    help: Option<Seq<char>>,
    required: bool,
    variadic: bool,
) -> ArgView {
    ArgView {
        ident,
        arg_name: "--"@ + hyphenated(snake(ident)),
        short: match short {
            Some(s) => Some("-"@ + s),
            None => None,
        },
        name: snake(ident),
        help,
        required,
        variadic,
    }
}

impl Arg {
    /// Makes the slot of the field `ident`.
    pub fn new(
        ident: String,
        short: Option<String>,
        help: Option<String>,
        required: bool,
        variadic: bool,
    ) -> (arg: Arg)
        ensures
            arg@ == new_arg(ident@, opt_text(short), opt_text(help), required, variadic),
    {
        let name = to_snake(ident.as_str());
        let mut arg_name = String::from_str("--");
        arg_name.append(hyphenate(name.as_str()).as_str());
        let short = match short {
            Some(s) => {
                let mut key = String::from_str("-");
                key.append(s.as_str());
                Some(key)
            },
            None => None,
        };
        Arg { ident, arg_name, short, name, help, required, variadic }
    }
}

/// The slots of one command, sorted by role.
pub struct Parser {
    pub cmd_ident: String,
    pub pos_args: Vec<Arg>,
    pub named_args: Vec<Arg>,
    pub flags: Vec<Arg>,
}

impl View for Parser {
    type V = PlanView;

    open spec fn view(&self) -> PlanView {
        PlanView {
            cmd_ident: self.cmd_ident@,
            pos_args: arg_views(self.pos_args@),
            named_args: arg_views(self.named_args@),
            flags: arg_views(self.flags@),
        }
    }
}

impl PlanView {
    /// The plan of a command without slots.
    pub open spec fn empty(cmd_ident: Seq<char>) -> PlanView {
        PlanView {
            cmd_ident,
            pos_args: Seq::empty(),
            named_args: Seq::empty(),
            flags: Seq::empty(),
        }
    }

    /// Whether a key of `arg` is taken: a slot of the plan answers it, or
    /// the long and the short key of `arg` are the same.
    pub open spec fn taken(self, arg: ArgView) -> bool {
        ||| self.answered(arg.arg_name)
        ||| arg.short is Some && (self.answered(arg.short->0) || arg.short->0 == arg.arg_name)
    }

    /// The plan with one more slot, or the rule that the slot breaks.
    ///
    /// A named slot or a flag must not be variadic, and its keys must be
    /// free. A positional slot that must be served must not follow an
    /// optional one, and no positional slot follows the variadic one.
    pub open spec fn add(self, slot: SlotView) -> Result<PlanView, ShapeErrorView> {
        match slot.role {
            Role::Named => {
                let arg = new_arg(slot.ident, slot.short, slot.help, slot.required, false);
                if slot.variadic {
                    Err(ShapeErrorView::NamedVariadic(slot.ident))
                } else if self.taken(arg) {
                    Err(ShapeErrorView::DuplicateKey(slot.ident))
                } else {
                    Ok(PlanView { named_args: self.named_args.push(arg), ..self })
                }
            },
            Role::Flag => {
                let arg = new_arg(slot.ident, slot.short, slot.help, slot.required, false);
                if slot.variadic {
                    Err(ShapeErrorView::FlagVariadic(slot.ident))
                } else if self.taken(arg) {
                    Err(ShapeErrorView::DuplicateKey(slot.ident))
                } else {
                    Ok(PlanView { flags: self.flags.push(arg), ..self })
                }
            },
            Role::Positional => {
                let arg = new_arg(slot.ident, None, slot.help, slot.required, slot.variadic);
                if arg.needed() && self.pos_args.len() > 0 && !self.pos_args.last().required {
                    Err(ShapeErrorView::RequiredAfterOptional(slot.ident))
                } else if self.pos_args.len() > 0 && self.pos_args.last().variadic {
                    Err(ShapeErrorView::AfterVariadic(slot.ident))
                } else {
                    Ok(PlanView { pos_args: self.pos_args.push(arg), ..self })
                }
            },
        }
    }

    /// The plan after the fields from `from` on were registered in order,
    /// or the first mistake met.
    pub open spec fn collect(self, fields: Seq<Field>, from: int) -> Result<PlanView, ShapeErrorView>
        decreases fields.len() - from,
    {
        if from < 0 || from >= fields.len() {
            Ok(self)
        } else {
            match slot_of(fields[from]) {
                Err(e) => Err(e),
                Ok(slot) => match self.add(slot) {
                    Err(e) => Err(e),
                    Ok(next) => next.collect(fields, from + 1),
                },
            }
        }
    }
}

/// A slot whose keys are free clashes with no slot of the plan.
pub proof fn lemma_free_keys(plan: PlanView, arg: ArgView)
    requires
        !plan.taken(arg),
    ensures
        forall|i: int| 0 <= i < plan.named_args.len() ==> !(#[trigger] plan.named_args[i]).clashes(arg),
        forall|i: int| 0 <= i < plan.flags.len() ==> !(#[trigger] plan.flags[i]).clashes(arg),
        arg.short != Some(arg.arg_name),
{
    lemma_find_key_none(plan.named_args, arg.arg_name, 0);
    lemma_find_key_none(plan.flags, arg.arg_name, 0);
    if arg.short is Some {
        lemma_find_key_none(plan.named_args, arg.short->0, 0);
        lemma_find_key_none(plan.flags, arg.short->0, 0);
    }
}

/// Registering a slot keeps the invariant of the plan.
pub proof fn lemma_add_keeps_wf(plan: PlanView, slot: SlotView)
    requires
        plan.wf(),
    ensures
        plan.add(slot) matches Ok(next) ==> next.wf(),
{
    if plan.add(slot) is Ok {
        match slot.role {
            Role::Positional => {},
            Role::Named => {
                let arg = new_arg(slot.ident, slot.short, slot.help, slot.required, false);
                lemma_free_keys(plan, arg);
            },
            Role::Flag => {
                let arg = new_arg(slot.ident, slot.short, slot.help, slot.required, false);
                lemma_free_keys(plan, arg);
            },
        }
    }
}

/// What registering a slot gives, in the model: the new plan, or the error
/// and the plan as it was.
pub open spec fn added(before: PlanView, slot: SlotView, after: PlanView, r: Result<(), ShapeError>) -> bool {
    match before.add(slot) {
        Ok(plan) => r is Ok && after == plan,
        Err(e) => r is Err && r->Err_0@ == e && after == before,
    }
}

/// The model of a result that holds a parser.
pub open spec fn plan_result(r: Result<Parser, ShapeError>) -> Result<PlanView, ShapeErrorView> {
    match r {
        Ok(parser) => Ok(parser@),
        Err(e) => Err(e@),
    }
}

impl Parser {
    /// The parser of a command without slots.
    pub fn new(cmd_ident: String) -> (parser: Parser)
        ensures
            parser@ == PlanView::empty(cmd_ident@),
            parser@.wf(),
    {
        let parser = Parser {
            cmd_ident,
            pos_args: Vec::new(),
            named_args: Vec::new(),
            flags: Vec::new(),
        };
        assert(parser@.pos_args =~= Seq::empty());
        parser
    }

    /// Whether some named slot or flag answers `token`.
    fn answered(&self, token: &String) -> (r: bool)
        ensures
            r == self@.answered(token@),
    {
        position(&self.named_args, token).is_some() || position(&self.flags, token).is_some()
    }

    /// Whether a key of `arg` is taken.
    fn taken(&self, arg: &Arg) -> (r: bool)
        ensures
            r == self@.taken(arg@),
    {
        if self.answered(&arg.arg_name) {
            return true;
        }
        match &arg.short {
            Some(short) => self.answered(short) || *short == arg.arg_name,
            None => false,
        }
    }

    /// Registers one more slot, or reports the rule that it breaks and
    /// leaves the parser as it was.
    pub fn add(&mut self, slot: Slot) -> (r: Result<(), ShapeError>)
        ensures
            added(old(self)@, slot@, final(self)@, r),
            old(self)@.wf() ==> final(self)@.wf(),
    {
        proof {
            if self@.wf() {
                lemma_add_keeps_wf(self@, slot@);
            }
        }
        let ghost before = self@;
        let Slot { ident, role, required, variadic, short, help } = slot;
        match role {
            Role::Named => {
                if variadic {
                    return Err(ShapeError::NamedVariadic(ident));
                }
                let arg = Arg::new(ident, short, help, required, false);
                if self.taken(&arg) {
                    return Err(ShapeError::DuplicateKey(arg.ident));
                }
                self.named_args.push(arg);
                assert(self@.named_args =~= before.named_args.push(arg@));
                Ok(())
            },
            Role::Flag => {
                if variadic {
                    return Err(ShapeError::FlagVariadic(ident));
                }
                let arg = Arg::new(ident, short, help, required, false);
                if self.taken(&arg) {
                    return Err(ShapeError::DuplicateKey(arg.ident));
                }
                self.flags.push(arg);
                assert(self@.flags =~= before.flags.push(arg@));
                Ok(())
            },
            Role::Positional => {
                let arg = Arg::new(ident, None, help, required, variadic);
                let count = self.pos_args.len();
                if count > 0 {
                    let last = &self.pos_args[count - 1];
                    if required && !variadic && !last.required {
                        return Err(ShapeError::RequiredAfterOptional(arg.ident));
                    }
                    if last.variadic {
                        return Err(ShapeError::AfterVariadic(arg.ident));
                    }
                }
                self.pos_args.push(arg);
                assert(self@.pos_args =~= before.pos_args.push(arg@));
                Ok(())
            },
        }
    }

    /// Processes the fields of a command into its slots, in declaration
    /// order, and stops at the first mistake.
    pub fn collect_args(cmd_ident: String, fields: &Vec<Field>) -> (r: Result<Parser, ShapeError>)
        ensures
            plan_result(r) == PlanView::empty(cmd_ident@).collect(fields@, 0),
            r matches Ok(parser) ==> parser@.wf() && parser@.cmd_ident == cmd_ident@,
    {
        let ghost start = PlanView::empty(cmd_ident@);
        let mut parser = Parser::new(cmd_ident);
        let mut i: usize = 0;
        while i < fields.len()
            invariant
                i <= fields.len(),
                parser@.wf(),
                parser@.cmd_ident == cmd_ident@,
                start == PlanView::empty(cmd_ident@),
                start.collect(fields@, 0) == parser@.collect(fields@, i as int),
            decreases fields.len() - i,
        {
            let slot = match fields[i].slot() {
                Ok(slot) => slot,
                Err(e) => {
                    return Err(e);
                },
            };
            match parser.add(slot) {
                Ok(()) => {},
                Err(e) => {
                    return Err(e);
                },
            }
            i += 1;
        }
        Ok(parser)
    }

    /// Turns the parser into a plan that can be run, with `help` as the
    /// text that is handed out on request.
    pub fn into_ctor(self, help: String) -> (ctor: Ctor)
        ensures
            ctor.parser == self,
            ctor.help == help,
    {
        Ctor { parser: self, help }
    }
}

} // verus!
