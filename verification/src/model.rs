//! The mathematical model of a plan and of what running it means.
//!
//! A plan is three ordered lists of slots. Running it is one pass over the
//! token stream that classifies each token by its first character and by
//! the keys that the plan declares.

use vstd::prelude::*;
use crate::outcome::ErrorView;
use crate::text::{dashed, is_help};

verus! {

/// One classified argument slot.
pub struct ArgView {
    /// The field's declared identifier.
    pub ident: Seq<char>,
    /// The long key, `--` and the hyphenated name.
    pub arg_name: Seq<char>,
    /// The short key, `-` and the declared alias.
    pub short: Option<Seq<char>>,
    /// The name shown in help texts.
    pub name: Seq<char>,
    pub help: Option<Seq<char>>,
    pub required: bool,
    pub variadic: bool,
}

impl ArgView {
    /// Whether the slot must be served by a token: it is required and takes
    /// exactly one.
    pub open spec fn needed(self) -> bool {
        self.required && !self.variadic
    }

    /// Whether `token` is one of the slot's keys.
    pub open spec fn answers(self, token: Seq<char>) -> bool {
        self.arg_name == token || self.short == Some(token)
    }

    /// Whether two slots share a key.
    pub open spec fn clashes(self, other: ArgView) -> bool {
        ||| self.answers(other.arg_name)
        ||| other.short is Some && self.answers(other.short->0)
    }
}

/// The index of the first slot from `from` on that answers `token`.
pub open spec fn find_key(slots: Seq<ArgView>, token: Seq<char>, from: int) -> Option<int>
    decreases slots.len() - from,
{
    if from < 0 || from >= slots.len() {
        None
    } else if slots[from].answers(token) {
        Some(from)
    } else {
        find_key(slots, token, from + 1)
    }
}

/// A key that is found lies at or after the index from which it was looked
/// for, and within the list.
pub proof fn lemma_find_key_bounds(slots: Seq<ArgView>, token: Seq<char>, from: int)
    requires
        0 <= from,
    ensures
        find_key(slots, token, from) matches Some(k) ==> from <= k < slots.len() && slots[k].answers(
            token,
        ),
    decreases slots.len() - from,
{
    if from < slots.len() && !slots[from].answers(token) {
        lemma_find_key_bounds(slots, token, from + 1);
    }
}

/// Where no slot from `from` on answers a token, none of them does.
pub proof fn lemma_find_key_none(slots: Seq<ArgView>, token: Seq<char>, from: int)
    requires
        0 <= from,
        find_key(slots, token, from) is None,
    ensures
        forall|i: int| from <= i < slots.len() ==> !(#[trigger] slots[i]).answers(token),
    decreases slots.len() - from,
{
    if from < slots.len() {
        lemma_find_key_none(slots, token, from + 1);
    }
}

/// The slots of one command, by role and in declaration order.
pub struct PlanView {
    pub cmd_ident: Seq<char>,
    pub pos_args: Seq<ArgView>,
    pub named_args: Seq<ArgView>,
    pub flags: Seq<ArgView>,
}

/// No two of the slots share a key, and none has its long key as its short
/// key.
pub open spec fn distinct(slots: Seq<ArgView>) -> bool {
    &&& forall|i: int, j: int|
        0 <= i < j < slots.len() ==> !(#[trigger] slots[i]).clashes(#[trigger] slots[j])
    &&& forall|i: int| 0 <= i < slots.len() ==> (#[trigger] slots[i]).short != Some(slots[i].arg_name)
}

/// None of the slots is variadic.
pub open spec fn single(slots: Seq<ArgView>) -> bool {
    forall|i: int| 0 <= i < slots.len() ==> !(#[trigger] slots[i]).variadic
}

impl PlanView {
    /// A variadic positional slot is the last positional slot.
    pub open spec fn variadic_last(self) -> bool {
        forall|i: int| 0 <= i < self.pos_args.len() - 1 ==> !(#[trigger] self.pos_args[i]).variadic
    }

    /// No needed positional slot follows one that may stay empty.
    pub open spec fn needed_first(self) -> bool {
        forall|i: int, j: int|
            0 <= i < j < self.pos_args.len() && (#[trigger] self.pos_args[j]).needed() ==> (
            #[trigger] self.pos_args[i]).needed()
    }

    /// No key is declared twice, neither by two slots nor by one.
    pub open spec fn keys_unique(self) -> bool {
        &&& distinct(self.named_args)
        &&& distinct(self.flags)
        &&& forall|i: int, j: int|
            0 <= i < self.named_args.len() && 0 <= j < self.flags.len() ==> !(
            #[trigger] self.named_args[i]).clashes(#[trigger] self.flags[j])
    }

    /// The invariant of a plan.
    pub open spec fn wf(self) -> bool {
        &&& self.variadic_last()
        &&& self.needed_first()
        &&& single(self.named_args)
        &&& single(self.flags)
        &&& self.keys_unique()
    }

    /// Whether an empty stream is answered with help: some positional slot
    /// must be served.
    pub open spec fn help_on_blank(self) -> bool {
        exists|i: int| 0 <= i < self.pos_args.len() && (#[trigger] self.pos_args[i]).needed()
    }

    /// Whether some named slot or flag of the plan answers `token`.
    pub open spec fn answered(self, token: Seq<char>) -> bool {
        find_key(self.named_args, token, 0) is Some || find_key(self.flags, token, 0) is Some
    }
}

/// What a run has collected so far, slot by slot.
pub struct Filled {
    /// The tokens taken by the leading positional slots, one each.
    pub pos: Seq<Seq<char>>,
    /// The tokens taken by the variadic slot.
    pub rest: Seq<Seq<char>>,
    /// The last value given to each named slot.
    pub named: Seq<Option<Seq<char>>>,
    /// How often each flag occurred.
    pub flags: Seq<nat>,
}

impl Filled {
    /// Nothing collected yet, for a plan with the given numbers of named
    /// slots and flags.
    pub open spec fn blank(named: nat, flags: nat) -> Filled {
        Filled {
            pos: Seq::empty(),
            rest: Seq::empty(),
            named: Seq::new(named, |i: int| None),
            flags: Seq::new(flags, |i: int| 0nat),
        }
    }

    /// With `token` in the next single positional slot.
    pub open spec fn take(self, token: Seq<char>) -> Filled {
        Filled { pos: self.pos.push(token), ..self }
    }

    /// With `token` as one more of the variadic slot.
    pub open spec fn absorb(self, token: Seq<char>) -> Filled {
        Filled { rest: self.rest.push(token), ..self }
    }

    /// With `token` as the value of named slot `slot`, in place of an
    /// earlier one.
    pub open spec fn assign(self, slot: int, token: Seq<char>) -> Filled {
        Filled { named: self.named.update(slot, Some(token)), ..self }
    }

    /// With one more occurrence of flag `slot`.
    pub open spec fn raise(self, slot: int) -> Filled {
        Filled { flags: self.flags.update(slot, self.flags[slot] + 1), ..self }
    }
}

/// The outcome of a run.
pub enum Outcome {
    /// The stream was consumed; this was collected.
    Success(Filled),
    /// Help was asked for, or is due on an empty stream.
    Help,
    /// The stream does not fit the plan.
    Error(ErrorView),
}

/// The index of the first named slot from `from` on that is required and
/// has no value.
pub open spec fn missing_named(slots: Seq<ArgView>, named: Seq<Option<Seq<char>>>, from: int) -> Option<
    int,
>
    decreases slots.len() - from,
{
    if from < 0 || from >= slots.len() {
        None
    } else if slots[from].required && !has_value(named, from) {
        Some(from)
    } else {
        missing_named(slots, named, from + 1)
    }
}

/// Whether named slot `slot` has a value.
pub open spec fn has_value(named: Seq<Option<Seq<char>>>, slot: int) -> bool {
    0 <= slot < named.len() && named[slot] is Some
}

/// No named slot is missing from `from` on exactly if each required one of
/// them has a value.
pub proof fn lemma_missing_named(slots: Seq<ArgView>, named: Seq<Option<Seq<char>>>, from: int)
    requires
        0 <= from,
    ensures
        missing_named(slots, named, from) is None <==> forall|k: int|
            from <= k < slots.len() && (#[trigger] slots[k]).required ==> has_value(named, k),
        missing_named(slots, named, from) matches Some(k) ==> from <= k < slots.len()
            && slots[k].required && !has_value(named, k),
    decreases slots.len() - from,
{
    if from < slots.len() {
        lemma_missing_named(slots, named, from + 1);
    }
}

/// The outcome once the stream is exhausted: an error if the next positional
/// slot must be served; else an error if a required named slot has no
/// value, the first of them in declaration order; success otherwise.
pub open spec fn finish(plan: PlanView, got: Filled) -> Outcome {
    if got.pos.len() < plan.pos_args.len() && plan.pos_args[got.pos.len() as int].needed() {
        Outcome::Error(ErrorView::ExpectedPositional(got.pos.len() + 1))
    } else {
        match missing_named(plan.named_args, got.named, 0) {
            Some(slot) => Outcome::Error(ErrorView::ExpectedNamed(plan.named_args[slot].arg_name)),
            None => Outcome::Success(got),
        }
    }
}

/// The outcome of consuming `tokens` from index `at` on, with `got`
/// collected before.
///
/// A token that starts with a dash is a help request, a named slot's key
/// (which takes the following token as its value, whatever it looks like), a
/// flag's key, or an error; help is looked for first. Any other token goes
/// to the next positional slot: it fills a single slot, joins the variadic
/// slot, or is one too many.
pub open spec fn scan(plan: PlanView, tokens: Seq<Seq<char>>, at: int, got: Filled) -> Outcome
    decreases tokens.len() - at,
{
    if at < 0 || at >= tokens.len() {
        finish(plan, got)
    } else {
        let token = tokens[at];
        if dashed(token) {
            if is_help(token) {
                Outcome::Help
            } else if let Some(slot) = find_key(plan.named_args, token, 0) {
                if at + 1 < tokens.len() {
                    scan(plan, tokens, at + 2, got.assign(slot, tokens[at + 1]))
                } else {
                    Outcome::Error(ErrorView::ExpectedValue(plan.named_args[slot].arg_name))
                }
            } else if let Some(slot) = find_key(plan.flags, token, 0) {
                scan(plan, tokens, at + 1, got.raise(slot))
            } else {
                Outcome::Error(ErrorView::UnknownFlag(token))
            }
        } else if got.pos.len() >= plan.pos_args.len() {
            Outcome::Error(ErrorView::ExtraArg(token))
        } else if plan.pos_args[got.pos.len() as int].variadic {
            scan(plan, tokens, at + 1, got.absorb(token))
        } else {
            scan(plan, tokens, at + 1, got.take(token))
        }
    }
}

/// The outcome of running a plan on the tokens from index `at` on: help if
/// the stream is empty and the plan has a positional slot that must be
/// served, else the outcome of the scan.
pub open spec fn run(plan: PlanView, tokens: Seq<Seq<char>>, at: int) -> Outcome {
    if plan.help_on_blank() && at >= tokens.len() {
        Outcome::Help
    } else {
        scan(plan, tokens, at, Filled::blank(plan.named_args.len(), plan.flags.len()))
    }
}

} // verus!
