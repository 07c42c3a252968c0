//! The token consumer: a plan together with its help text, run against a
//! token stream.

use vstd::prelude::*;
use crate::model::{find_key, missing_named, run, scan, Filled, Outcome, PlanView};
use crate::named::{arg_views, Arg, Parser};
use crate::outcome::{opt_text, Error, HelpInfo, Parse};
use crate::text::{asks_help, dashed, starts_with_dash};

verus! {

/// The raw values that one run has collected, before any of them is
/// converted to its declared type.
pub struct Collected {
    /// The tokens of the leading positional slots; slot `i` was served if
    /// and only if `i < pos.len()`.
    pub pos: Vec<String>,
    /// The tokens of the variadic slot, in order.
    pub rest: Vec<String>,
    /// The value of each named slot, if it was given.
    pub named: Vec<Option<String>>,
    /// How often each flag was given.
    pub flags: Vec<usize>,
}

impl View for Collected {
    type V = Filled;

    open spec fn view(&self) -> Filled {
        Filled {
            pos: self.pos.deep_view(),
            rest: self.rest.deep_view(),
            named: Seq::new(self.named.len() as nat, |i: int| opt_text(self.named[i])),
            flags: Seq::new(self.flags.len() as nat, |i: int| self.flags[i] as nat),
        }
    }
}

impl Collected {
    /// Whether the collection has one entry for each named slot and each flag
    /// of `plan`, and no flag was counted more often than there were tokens
    /// up to `seen`.
    pub open spec fn fits(&self, plan: PlanView, seen: int) -> bool {
        &&& self.named.len() == plan.named_args.len()
        &&& self.flags.len() == plan.flags.len()
        &&& forall|i: int| 0 <= i < self.flags.len() ==> #[trigger] self.flags[i] <= seen
    }
}

/// The model of what `parse` returns.
pub open spec fn outcome_of(r: Result<Parse<Collected>, Error>) -> Outcome {
    match r {
        Ok(Parse::Success(got)) => Outcome::Success(got@),
        Ok(Parse::Help(_)) => Outcome::Help,
        Err(e) => Outcome::Error(e@),
    }
}

/// The model of an optional index.
pub open spec fn opt_index(index: Option<usize>) -> Option<int> {
    match index {
        Some(i) => Some(i as int),
        None => None,
    }
}

/// Finds the first slot of which `token` is the long or the short key.
pub fn position(slots: &Vec<Arg>, token: &String) -> (r: Option<usize>)
    ensures
        opt_index(r) == find_key(arg_views(slots@), token@, 0),
        r matches Some(k) ==> k < slots.len(),
{
    let mut i: usize = 0;
    while i < slots.len()
        invariant
            i <= slots.len(),
            find_key(arg_views(slots@), token@, 0) == find_key(arg_views(slots@), token@, i as int),
        decreases slots.len() - i,
    {
        let arg = &slots[i];
        let hit = arg.arg_name == *token || match &arg.short {
            Some(short) => *short == *token,
            None => false,
        };
        if hit {
            return Some(i);
        }
        i += 1;
    }
    None
}

/// A vector of `n` absent values.
fn blank_named(n: usize) -> (r: Vec<Option<String>>)
    ensures
        r.len() == n,
        forall|i: int| 0 <= i < n ==> r[i] is None,
{
    let mut r: Vec<Option<String>> = Vec::new();
    while r.len() < n
        invariant
            r.len() <= n,
            forall|i: int| 0 <= i < r.len() ==> r[i] is None,
        decreases n - r.len(),
    {
        r.push(None);
    }
    r
}

/// A vector of `n` zeros.
fn blank_flags(n: usize) -> (r: Vec<usize>)
    ensures
        r.len() == n,
        forall|i: int| 0 <= i < n ==> r[i] == 0,
{
    let mut r: Vec<usize> = Vec::new();
    while r.len() < n
        invariant
            r.len() <= n,
            forall|i: int| 0 <= i < r.len() ==> r[i] == 0,
        decreases n - r.len(),
    {
        r.push(0);
    }
    r
}

/// A plan that is ready to run: the classified slots and the help text that
/// was built for them.
pub struct Ctor {
    pub parser: Parser,
    pub help: String,
}

impl Ctor {
    /// The invariant of the plan.
    pub open spec fn wf(&self) -> bool {
        self.parser@.wf()
    }

    /// Whether some positional slot must be served by a token.
    pub fn help_on_blank(&self) -> (r: bool)
        ensures
            r == self.parser@.help_on_blank(),
    {
        let mut i: usize = 0;
        while i < self.parser.pos_args.len()
            invariant
                i <= self.parser.pos_args.len(),
                forall|j: int| 0 <= j < i ==> !(#[trigger] self.parser@.pos_args[j]).needed(),
            decreases self.parser.pos_args.len() - i,
        {
            let arg = &self.parser.pos_args[i];
            assert(self.parser@.pos_args[i as int] == arg@);
            if arg.required && !arg.variadic {
                return true;
            }
            i += 1;
        }
        false
    }

    /// Runs the plan on the tokens of `args` from index `start` on.
    ///
    /// An empty stream is answered with help if some positional slot must be
    /// served. Otherwise named arguments and flags are consumed wherever
    /// they stand, before the first positional token and after each one; the
    /// positional slots are served in their order, the variadic slot takes
    /// what is left, and a token that no slot takes is an error. At the end
    /// of the stream every required named slot must have its value.
    pub fn parse(&self, args: &Vec<String>, start: usize) -> (r: Result<Parse<Collected>, Error>)
        requires
            self.wf(),
        ensures
            outcome_of(r) == run(self.parser@, args.deep_view(), start as int),
            r matches Ok(Parse::Help(h)) ==> h@ == self.help@,
    {
        let ghost plan = self.parser@;
        let ghost tokens = args.deep_view();
        let begin = if start < args.len() {
            start
        } else {
            args.len()
        };
        if begin >= args.len() && self.help_on_blank() {
            return Ok(Parse::Help(HelpInfo(self.help.clone())));
        }
        let mut got = Collected {
            pos: Vec::new(),
            rest: Vec::new(),
            named: blank_named(self.parser.named_args.len()),
            flags: blank_flags(self.parser.flags.len()),
        };
        let ghost goal = scan(plan, tokens, begin as int, got@);
        proof {
            assert(got@.pos =~= Seq::<Seq<char>>::empty());
            assert(got@.named =~= Filled::blank(plan.named_args.len(), plan.flags.len()).named);
            assert(got@.flags =~= Filled::blank(plan.named_args.len(), plan.flags.len()).flags);
        }
        let mut cursor = match self.consume_flags(args, begin, &mut got) {
            Ok(Some(next)) => next,
            Ok(None) => {
                return Ok(Parse::Help(HelpInfo(self.help.clone())));
            },
            Err(e) => {
                return Err(e);
            },
        };
        let mut i: usize = 0;
        while i < self.parser.pos_args.len()
            invariant
                i <= self.parser.pos_args.len(),
                cursor <= args.len(),
                cursor < args.len() ==> !dashed(args[cursor as int]@),
                plan == self.parser@,
                plan.wf(),
                tokens == args.deep_view(),
                got.fits(plan, cursor as int),
                scan(plan, tokens, cursor as int, got@) == goal,
                goal == run(plan, tokens, start as int),
                got.pos.len() <= i,
                got.pos.len() < i ==> cursor == args.len(),
                forall|k: int| got.pos.len() <= k < i ==> !(#[trigger] plan.pos_args[k]).needed(),
            decreases self.parser.pos_args.len() - i,
        {
            let arg = &self.parser.pos_args[i];
            if arg.variadic {
                while cursor < args.len()
                    invariant
                        i < self.parser.pos_args.len(),
                        cursor <= args.len(),
                        cursor < args.len() ==> !dashed(args[cursor as int]@),
                        plan == self.parser@,
                        plan.pos_args[i as int].variadic,
                        tokens == args.deep_view(),
                        got.fits(plan, cursor as int),
                        scan(plan, tokens, cursor as int, got@) == goal,
                        goal == run(plan, tokens, start as int),
                        got.pos.len() <= i,
                        got.pos.len() < i ==> cursor == args.len(),
                        forall|k: int|
                            got.pos.len() <= k < i ==> !(#[trigger] plan.pos_args[k]).needed(),
                    decreases args.len() - cursor,
                {
                    let ghost before = got@;
                    got.rest.push(args[cursor].clone());
                    assert(got@.rest =~= before.absorb(tokens[cursor as int]).rest);
                    cursor = match self.consume_flags(args, cursor + 1, &mut got) {
                        Ok(Some(next)) => next,
                        Ok(None) => {
                            return Ok(Parse::Help(HelpInfo(self.help.clone())));
                        },
                        Err(e) => {
                            return Err(e);
                        },
                    };
                }
            } else {
                if cursor >= args.len() {
                    if arg.required {
                        return Err(Error::ExpectedPositional(i + 1));
                    }
                } else {
                    let ghost before = got@;
                    got.pos.push(args[cursor].clone());
                    assert(got@.pos =~= before.take(tokens[cursor as int]).pos);
                    cursor = match self.consume_flags(args, cursor + 1, &mut got) {
                        Ok(Some(next)) => next,
                        Ok(None) => {
                            return Ok(Parse::Help(HelpInfo(self.help.clone())));
                        },
                        Err(e) => {
                            return Err(e);
                        },
                    };
                }
            }
            i += 1;
        }
        if cursor < args.len() {
            return Err(Error::ExtraArg(args[cursor].clone()));
        }
        match self.missing(&got) {
            Some(slot) => {
                Err(Error::ExpectedNamed(self.parser.named_args[slot].arg_name.clone()))
            },
            None => Ok(Parse::Success(got)),
        }
    }

    /// Finds the first named slot that is required and was not given.
    pub fn missing(&self, got: &Collected) -> (r: Option<usize>)
        ensures
            opt_index(r) == missing_named(self.parser@.named_args, got@.named, 0),
            r matches Some(k) ==> k < self.parser.named_args.len(),
    {
        let ghost slots = self.parser@.named_args;
        let mut i: usize = 0;
        while i < self.parser.named_args.len()
            invariant
                i <= self.parser.named_args.len(),
                slots == self.parser@.named_args,
                missing_named(slots, got@.named, 0) == missing_named(slots, got@.named, i as int),
            decreases self.parser.named_args.len() - i,
        {
            let given = i < got.named.len() && got.named[i].is_some();
            if self.parser.named_args[i].required && !given {
                return Some(i);
            }
            i += 1;
        }
        None
    }

    /// Consumes named arguments and flags from `cursor` on, until the next
    /// token does not start with a dash or the stream ends, and returns the
    /// index of that token; `None` if help was asked for.
    fn consume_flags(&self, args: &Vec<String>, cursor: usize, got: &mut Collected) -> (r: Result<
        Option<usize>,
        Error,
    >)
        requires
            cursor <= args.len(),
            old(got).fits(self.parser@, cursor as int),
        ensures
            final(got).pos == old(got).pos,
            final(got).rest == old(got).rest,
            match r {
                Ok(Some(next)) => {
                    &&& cursor <= next <= args.len()
                    &&& next < args.len() ==> !dashed(args[next as int]@)
                    &&& final(got).fits(self.parser@, next as int)
                    &&& scan(self.parser@, args.deep_view(), next as int, final(got)@) == scan(
                        self.parser@,
                        args.deep_view(),
                        cursor as int,
                        old(got)@,
                    )
                },
                Ok(None) => scan(self.parser@, args.deep_view(), cursor as int, old(got)@)
                    == Outcome::Help,
                Err(e) => scan(self.parser@, args.deep_view(), cursor as int, old(got)@)
                    == Outcome::Error(e@),
            },
    {
        let ghost plan = self.parser@;
        let ghost tokens = args.deep_view();
        let ghost goal = scan(plan, tokens, cursor as int, got@);
        let mut at = cursor;
        while at < args.len() && starts_with_dash(args[at].as_str())
            invariant
                cursor <= at <= args.len(),
                plan == self.parser@,
                tokens == args.deep_view(),
                got.fits(plan, at as int),
                got.pos == old(got).pos,
                got.rest == old(got).rest,
                scan(plan, tokens, at as int, got@) == goal,
                goal == scan(plan, tokens, cursor as int, old(got)@),
            decreases args.len() - at,
        {
            let token = &args[at];
            if asks_help(token) {
                return Ok(None);
            }
            match position(&self.parser.named_args, token) {
                Some(slot) => {
                    if at + 1 < args.len() {
                        let ghost before = got@;
                        got.named.set(slot, Some(args[at + 1].clone()));
                        assert(got@.named =~= before.assign(slot as int, tokens[at + 1]).named);
                        at += 2;
                    } else {
                        return Err(Error::ExpectedValue(self.parser.named_args[slot].arg_name.clone()));
                    }
                },
                None => match position(&self.parser.flags, token) {
                    Some(slot) => {
                        let ghost before = got@;
                        let count = got.flags[slot];
                        got.flags.set(slot, count + 1);
                        assert(got@.flags =~= before.raise(slot as int).flags);
                        at += 1;
                    },
                    None => {
                        return Err(Error::UnknownFlag(token.clone()));
                    },
                },
            }
        }
        Ok(Some(at))
    }
}

} // verus!
