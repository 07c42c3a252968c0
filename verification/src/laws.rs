//! Laws of the token consumer, stated over the model of a plan and proved
//! for every plan and every token.

use vstd::prelude::*;
use crate::args::{raised_times, Argument, Flag, OptionalArg};
use crate::model::{
    find_key, finish, has_value, lemma_find_key_bounds, lemma_missing_named, missing_named, run,
    scan, Filled, Outcome, PlanView,
};
use crate::outcome::Error;
use crate::text::{dashed, is_help};
use crate::values::{optional_named_spec, optional_spec, positional_spec};

verus! {

/// Whether every named slot of the plan but `but` may be left out.
pub open spec fn others_optional(plan: PlanView, but: int) -> bool {
    forall|k: int|
        0 <= k < plan.named_args.len() && k != but ==> !(#[trigger] plan.named_args[k]).required
}

/// Whether every named slot of the plan may be left out.
pub open spec fn named_optional(plan: PlanView) -> bool {
    forall|k: int| 0 <= k < plan.named_args.len() ==> !(#[trigger] plan.named_args[k]).required
}

/// A plan whose positional and named slots may all stay empty answers an
/// empty stream with success, and nothing is collected: there is no help
/// unasked for.
pub proof fn law_blank_stream_succeeds(plan: PlanView, tokens: Seq<Seq<char>>, at: int)
    requires
        forall|i: int| 0 <= i < plan.pos_args.len() ==> !(#[trigger] plan.pos_args[i]).needed(),
        named_optional(plan),
        at >= tokens.len(),
    ensures
        run(plan, tokens, at) == Outcome::Success(
            Filled::blank(plan.named_args.len(), plan.flags.len()),
        ),
{
    lemma_missing_named(
        plan.named_args,
        Filled::blank(plan.named_args.len(), plan.flags.len()).named,
        0,
    );
}

/// Where nothing was collected, every slot that may stay empty reads as its
/// type's default and every flag as unset.
pub proof fn law_blank_slots_default<P: OptionalArg, N: OptionalArg, F: Flag>(
    plan: PlanView,
    slot: int,
    p: Result<P, Error>,
    n: Result<N, Error>,
)
    requires
        optional_spec::<P>(Filled::blank(plan.named_args.len(), plan.flags.len()), slot, p),
        optional_named_spec::<N>(
            plan,
            Filled::blank(plan.named_args.len(), plan.flags.len()),
            slot,
            n,
        ),
    ensures
        p is Ok && p->Ok_0.is_default(),
        n is Ok && n->Ok_0.is_default(),
        0 <= slot < plan.flags.len() ==> raised_times::<F>(
            Filled::blank(plan.named_args.len(), plan.flags.len()).flags[slot],
        ) == F::unset(),
{
}

/// A plan with a positional slot that must be served answers an empty stream
/// with help, as it answers a stream that starts with `--help` or `-h`.
pub proof fn law_blank_stream_helps(plan: PlanView, tokens: Seq<Seq<char>>, at: int, asked: Seq<Seq<char>>)
    requires
        plan.help_on_blank(),
        at >= tokens.len(),
        asked.len() > 0,
        is_help(asked[0]),
    ensures
        run(plan, tokens, at) == Outcome::Help,
        run(plan, asked, 0) == run(plan, tokens, at),
{
    reveal_strlit("--help");
    reveal_strlit("-h");
}

/// A run that succeeds ends in a state that needs nothing more.
pub proof fn lemma_scan_success(plan: PlanView, tokens: Seq<Seq<char>>, at: int, got: Filled)
    ensures
        scan(plan, tokens, at, got) matches Outcome::Success(end) ==> finish(plan, end)
            == Outcome::Success(end),
    decreases tokens.len() - at,
{
    if 0 <= at < tokens.len() {
        let token = tokens[at];
        if dashed(token) {
            if is_help(token) {
            } else if let Some(slot) = find_key(plan.named_args, token, 0) {
                if at + 1 < tokens.len() {
                    lemma_scan_success(plan, tokens, at + 2, got.assign(slot, tokens[at + 1]));
                }
            } else if let Some(slot) = find_key(plan.flags, token, 0) {
                lemma_scan_success(plan, tokens, at + 1, got.raise(slot));
            }
        } else if got.pos.len() >= plan.pos_args.len() {
        } else if plan.pos_args[got.pos.len() as int].variadic {
            lemma_scan_success(plan, tokens, at + 1, got.absorb(token));
        } else {
            lemma_scan_success(plan, tokens, at + 1, got.take(token));
        }
    }
}

/// Success is complete: after a run that succeeds, every positional slot
/// that must be served holds a token, and every required named slot has a
/// value.
pub proof fn law_success_is_complete(plan: PlanView, tokens: Seq<Seq<char>>, at: int, got: Filled)
    requires
        plan.wf(),
        run(plan, tokens, at) == Outcome::Success(got),
    ensures
        forall|i: int|
            0 <= i < plan.pos_args.len() && (#[trigger] plan.pos_args[i]).needed() ==> i
                < got.pos.len(),
        forall|k: int|
            0 <= k < plan.named_args.len() && (#[trigger] plan.named_args[k]).required
                ==> has_value(got.named, k),
{
    lemma_scan_success(
        plan,
        tokens,
        at,
        Filled::blank(plan.named_args.len(), plan.flags.len()),
    );
    lemma_missing_named(plan.named_args, got.named, 0);
}

/// Tokens without a leading dash, no more than there are single positional
/// slots and enough for those that must be served, are collected one per
/// slot, in order.
pub proof fn lemma_scan_plain(plan: PlanView, tokens: Seq<Seq<char>>, at: int, got: Filled)
    requires
        0 <= at <= tokens.len() <= plan.pos_args.len(),
        got.pos.len() == at,
        forall|i: int| 0 <= i < tokens.len() ==> !dashed(#[trigger] tokens[i]),
        forall|i: int| 0 <= i < tokens.len() ==> !(#[trigger] plan.pos_args[i]).variadic,
        tokens.len() < plan.pos_args.len() ==> !plan.pos_args[tokens.len() as int].needed(),
        missing_named(plan.named_args, got.named, 0) is None,
    ensures
        scan(plan, tokens, at, got) == Outcome::Success(
            Filled { pos: got.pos + tokens.skip(at), ..got },
        ),
    decreases tokens.len() - at,
{
    if at < tokens.len() {
        let next = got.take(tokens[at]);
        lemma_scan_plain(plan, tokens, at + 1, next);
        assert(next.pos + tokens.skip(at + 1) =~= got.pos + tokens.skip(at));
    }
}

/// Round trip of positional values: a stream of tokens without a leading
/// dash, one for each of the first positional slots, puts each token in the
/// slot of its position, and reading that slot as a `T` gives the value that
/// the token stands for, whenever the token is in the grammar of `T`.
pub proof fn law_positional_round_trip<T: Argument>(
    plan: PlanView,
    tokens: Seq<Seq<char>>,
    slot: int,
    r: Result<T, Error>,
)
    requires
        0 < tokens.len() <= plan.pos_args.len(),
        forall|i: int| 0 <= i < tokens.len() ==> !dashed(#[trigger] tokens[i]),
        forall|i: int| 0 <= i < tokens.len() ==> !(#[trigger] plan.pos_args[i]).variadic,
        tokens.len() < plan.pos_args.len() ==> !plan.pos_args[tokens.len() as int].needed(),
        named_optional(plan),
        0 <= slot < tokens.len(),
        T::accepts(tokens[slot]),
        run(plan, tokens, 0) matches Outcome::Success(got) && positional_spec::<T>(got, slot, r),
    ensures
        run(plan, tokens, 0) == Outcome::Success(
            Filled { pos: tokens, ..Filled::blank(plan.named_args.len(), plan.flags.len()) },
        ),
        r is Ok && r->Ok_0.denotes(tokens[slot]),
{
    let blank = Filled::blank(plan.named_args.len(), plan.flags.len());
    lemma_missing_named(plan.named_args, blank.named, 0);
    lemma_scan_plain(plan, tokens, 0, blank);
    assert(blank.pos + tokens.skip(0) =~= tokens);
}

/// Round trip of named values: a key of a named slot followed by any token
/// puts that token in the slot, whatever the token looks like.
pub proof fn law_named_round_trip(plan: PlanView, key: Seq<char>, value: Seq<char>, slot: int)
    requires
        dashed(key),
        !is_help(key),
        find_key(plan.named_args, key, 0) == Some(slot),
        !plan.help_on_blank(),
        others_optional(plan, slot),
    ensures
        run(plan, seq![key, value], 0) == Outcome::Success(
            Filled::blank(plan.named_args.len(), plan.flags.len()).assign(slot, value),
        ),
{
    let blank = Filled::blank(plan.named_args.len(), plan.flags.len());
    let goal = blank.assign(slot, value);
    lemma_find_key_bounds(plan.named_args, key, 0);
    lemma_missing_named(plan.named_args, goal.named, 0);
    reveal_with_fuel(scan, 3);
}

/// Flags commute with positional values: with two positional slots and a
/// flag, the flag may stand before, between or after the two values, and the
/// outcome is the same.
pub proof fn law_flag_interleaving(
    plan: PlanView,
    a: Seq<char>,
    b: Seq<char>,
    x: Seq<char>,
    slot: int,
)
    requires
        plan.pos_args.len() >= 2,
        !plan.pos_args[0].variadic,
        !plan.pos_args[1].variadic,
        plan.pos_args.len() > 2 ==> !plan.pos_args[2].needed(),
        named_optional(plan),
        !dashed(a),
        !dashed(b),
        dashed(x),
        !is_help(x),
        find_key(plan.named_args, x, 0) is None,
        find_key(plan.flags, x, 0) == Some(slot),
    ensures
        run(plan, seq![a, x, b], 0) == run(plan, seq![x, a, b], 0),
        run(plan, seq![a, b, x], 0) == run(plan, seq![x, a, b], 0),
        run(plan, seq![x, a, b], 0) == Outcome::Success(
            Filled::blank(plan.named_args.len(), plan.flags.len()).take(a).take(b).raise(slot),
        ),
{
    let blank = Filled::blank(plan.named_args.len(), plan.flags.len());
    let goal = blank.take(a).take(b).raise(slot);
    lemma_missing_named(plan.named_args, goal.named, 0);
    assert(scan(plan, seq![x, a, b], 0, blank) == Outcome::Success(goal)) by {
        reveal_with_fuel(scan, 4);
    }
    assert(scan(plan, seq![a, x, b], 0, blank) == Outcome::Success(goal)) by {
        reveal_with_fuel(scan, 4);
    }
    assert(scan(plan, seq![a, b, x], 0, blank) == Outcome::Success(goal)) by {
        reveal_with_fuel(scan, 4);
    }
}

/// A scan looks at the tokens from its index on only.
pub proof fn lemma_scan_suffix(
    plan: PlanView,
    one: Seq<Seq<char>>,
    two: Seq<Seq<char>>,
    at: int,
    got: Filled,
)
    requires
        0 <= at,
        one.len() == two.len(),
        forall|i: int| at <= i < one.len() ==> one[i] == two[i],
    ensures
        scan(plan, one, at, got) == scan(plan, two, at, got),
    decreases one.len() - at,
{
    if at < one.len() {
        let token = one[at];
        if dashed(token) {
            if is_help(token) {
            } else if let Some(slot) = find_key(plan.named_args, token, 0) {
                if at + 1 < one.len() {
                    lemma_scan_suffix(plan, one, two, at + 2, got.assign(slot, one[at + 1]));
                }
            } else if let Some(slot) = find_key(plan.flags, token, 0) {
                lemma_scan_suffix(plan, one, two, at + 1, got.raise(slot));
            }
        } else if got.pos.len() >= plan.pos_args.len() {
        } else if plan.pos_args[got.pos.len() as int].variadic {
            lemma_scan_suffix(plan, one, two, at + 1, got.absorb(token));
        } else {
            lemma_scan_suffix(plan, one, two, at + 1, got.take(token));
        }
    }
}

/// Flags commute with positional consumption: where a positional value is
/// followed by a flag, the two may change places and the outcome of the
/// scan stays the same, whatever stands before and after them.
pub proof fn law_flag_commutes(plan: PlanView, tokens: Seq<Seq<char>>, at: int, got: Filled)
    requires
        0 <= at,
        at + 1 < tokens.len(),
        !dashed(tokens[at]),
        dashed(tokens[at + 1]),
        !is_help(tokens[at + 1]),
        find_key(plan.named_args, tokens[at + 1], 0) is None,
        find_key(plan.flags, tokens[at + 1], 0) is Some,
    ensures
        scan(plan, tokens.update(at, tokens[at + 1]).update(at + 1, tokens[at]), at, got) == scan(
            plan,
            tokens,
            at,
            got,
        ),
{
    let swapped = tokens.update(at, tokens[at + 1]).update(at + 1, tokens[at]);
    let value = tokens[at];
    let slot = find_key(plan.flags, tokens[at + 1], 0)->0;
    reveal_with_fuel(scan, 2);
    if got.pos.len() >= plan.pos_args.len() {
    } else if plan.pos_args[got.pos.len() as int].variadic {
        assert(got.raise(slot).absorb(value) == got.absorb(value).raise(slot));
        lemma_scan_suffix(plan, swapped, tokens, at + 2, got.absorb(value).raise(slot));
    } else {
        assert(got.raise(slot).take(value) == got.take(value).raise(slot));
        lemma_scan_suffix(plan, swapped, tokens, at + 2, got.take(value).raise(slot));
    }
}

/// The variadic slot is greedy, and named arguments are still found among
/// its tokens: two values, then a named slot's key and its value, put both
/// values in the variadic slot and the value in the named slot.
pub proof fn law_variadic_greedy(
    plan: PlanView,
    v1: Seq<char>,
    v2: Seq<char>,
    key: Seq<char>,
    value: Seq<char>,
    slot: int,
)
    requires
        plan.pos_args.len() > 0,
        plan.pos_args[0].variadic,
        others_optional(plan, slot),
        !dashed(v1),
        !dashed(v2),
        dashed(key),
        !is_help(key),
        find_key(plan.named_args, key, 0) == Some(slot),
    ensures
        run(plan, seq![v1, v2, key, value], 0) matches Outcome::Success(got) && got.rest == seq![
            v1,
            v2,
        ] && got.named[slot] == Some(value) && got
            == Filled::blank(plan.named_args.len(), plan.flags.len()).absorb(v1).absorb(v2).assign(
            slot,
            value,
        ),
{
    lemma_find_key_bounds(plan.named_args, key, 0);
    let blank = Filled::blank(plan.named_args.len(), plan.flags.len());
    let goal = blank.absorb(v1).absorb(v2).assign(slot, value);
    lemma_missing_named(plan.named_args, goal.named, 0);
    assert(scan(plan, seq![v1, v2, key, value], 0, blank) == Outcome::Success(goal)) by {
        reveal_with_fuel(scan, 4);
    }
}

} // verus!
