//! Conversion of the collected tokens to the types that the fields declare.
//!
//! Each function reads one slot. A caller that assembles a value reads the
//! positional slots in their order, then the named slots, then the flags, so
//! that the first error in that order is the one reported. After a run that
//! succeeded, a slot that must be served is never found empty.

use vstd::prelude::*;
use crate::args::{parsed, parsed_optional, raise, raised_times, takes, Argument, Flag, OptionalArg};
use crate::ctor::{Collected, Ctor};
use crate::model::{Filled, PlanView};
use crate::outcome::{ArgRef, ArgRefView, Error, ErrorView};

verus! {

/// The token that served positional slot `slot`, if any did.
pub open spec fn served(got: Filled, slot: int) -> Option<Seq<char>> {
    if 0 <= slot < got.pos.len() {
        Some(got.pos[slot])
    } else {
        None
    }
}

/// The value given to named slot `slot`, if any was.
pub open spec fn given(got: Filled, slot: int) -> Option<Seq<char>> {
    if 0 <= slot < got.named.len() {
        got.named[slot]
    } else {
        None
    }
}

/// What reading a positional slot that must be served gives: the slot's
/// token read as a `T`, or, where the slot is empty, the error that a
/// positional argument was expected.
pub open spec fn positional_spec<T: Argument>(got: Filled, slot: int, r: Result<T, Error>) -> bool {
    match served(got, slot) {
        Some(token) => parsed::<T>(token, ArgRefView::Positional((slot + 1) as nat), r),
        None => r is Err && r->Err_0@ == ErrorView::ExpectedPositional((slot + 1) as nat),
    }
}

/// What reading a positional slot that may stay empty gives.
pub open spec fn optional_spec<T: OptionalArg>(got: Filled, slot: int, r: Result<T, Error>) -> bool {
    parsed_optional::<T>(served(got, slot), ArgRefView::Positional((slot + 1) as nat), r)
}

/// What reading a named slot that must be given yields: its value read as
/// a `T`, or, where it was not given, the error that names its key.
pub open spec fn named_spec<T: Argument>(plan: PlanView, got: Filled, slot: int, r: Result<T, Error>) -> bool {
    let key = plan.named_args[slot].arg_name;
    match given(got, slot) {
        Some(token) => parsed::<T>(token, ArgRefView::Named(key), r),
        None => r is Err && r->Err_0@ == ErrorView::ExpectedNamed(key),
    }
}

/// What reading a named slot that may be left out gives.
pub open spec fn optional_named_spec<T: OptionalArg>(
    plan: PlanView,
    got: Filled,
    slot: int,
    r: Result<T, Error>,
) -> bool {
    parsed_optional::<T>(given(got, slot), ArgRefView::Named(plan.named_args[slot].arg_name), r)
}

/// The index of the first token from `from` on that is outside the grammar
/// of `T`.
pub open spec fn first_rejected<T: Argument>(tokens: Seq<Seq<char>>, from: int) -> Option<int>
    decreases tokens.len() - from,
{
    if from < 0 || from >= tokens.len() {
        None
    } else if !T::accepts(tokens[from]) {
        Some(from)
    } else {
        first_rejected::<T>(tokens, from + 1)
    }
}

/// What reading the variadic slot gives, where `first` is the position of
/// its first token: every token read as a `T`, in order, or the error of the
/// first token outside the grammar, at its position.
pub open spec fn variadic_spec<T: Argument>(
    tokens: Seq<Seq<char>>,
    first: nat,
    r: Result<Vec<T>, Error>,
) -> bool {
    match first_rejected::<T>(tokens, 0) {
        None => {
            &&& r is Ok
            &&& r->Ok_0.len() == tokens.len()
            &&& forall|i: int| 0 <= i < tokens.len() ==> (#[trigger] r->Ok_0[i]).denotes(tokens[i])
        },
        Some(k) => r is Err && r->Err_0@ == ErrorView::Parse(
            ArgRefView::Positional((first + k) as nat),
            T::complaint(tokens[k]),
        ),
    }
}

/// The model of an optional borrowed text.
pub open spec fn opt_ref_text(text: Option<&String>) -> Option<Seq<char>> {
    match text {
        Some(s) => Some(s@),
        None => None,
    }
}

/// What looking up a token that must be there gives: the token, or the
/// given error where there is none.
pub open spec fn token_or(token: Option<Seq<char>>, missing: ErrorView, r: Result<&String, Error>) -> bool {
    match token {
        Some(t) => r is Ok && r->Ok_0@ == t,
        None => r is Err && r->Err_0@ == missing,
    }
}

impl Collected {
    /// The token that served positional slot `slot`, if any did.
    pub fn served(&self, slot: usize) -> (r: Option<&String>)
        ensures
            opt_ref_text(r) == served(self@, slot as int),
    {
        if slot < self.pos.len() {
            Some(&self.pos[slot])
        } else {
            None
        }
    }

    /// The value given to named slot `slot`, if any was.
    pub fn given(&self, slot: usize) -> (r: Option<&String>)
        ensures
            opt_ref_text(r) == given(self@, slot as int),
    {
        if slot < self.named.len() {
            match &self.named[slot] {
                Some(val) => Some(val),
                None => None,
            }
        } else {
            None
        }
    }
}

impl Ctor {
    /// The reference to positional slot `slot` in errors: its position,
    /// counted from one.
    pub fn positional_ref(&self, slot: usize) -> (r: ArgRef)
        requires
            slot < self.parser.pos_args.len(),
        ensures
            r@ == ArgRefView::Positional((slot + 1) as nat),
    {
        ArgRef::Positional(slot + 1)
    }

    /// The reference to the token at `index` among those of the variadic
    /// slot: its position, where the variadic slot is the last positional
    /// slot and its first token has that slot's position.
    pub fn variadic_ref(&self, index: usize) -> (r: ArgRef)
        requires
            self.parser.pos_args.len() + index <= usize::MAX,
        ensures
            r@ == ArgRefView::Positional((self.parser.pos_args.len() + index) as nat),
    {
        ArgRef::Positional(self.parser.pos_args.len() + index)
    }

    /// The reference to named slot `slot` in errors: its long key.
    pub fn named_ref(&self, slot: usize) -> (r: ArgRef)
        requires
            slot < self.parser.named_args.len(),
        ensures
            r@ == ArgRefView::Named(self.parser@.named_args[slot as int].arg_name),
    {
        ArgRef::Named(self.parser.named_args[slot].arg_name.clone())
    }

    /// The token of positional slot `slot`, which must be served; where it
    /// was not, the error that a positional argument was expected.
    pub fn positional_token<'a>(&self, got: &'a Collected, slot: usize) -> (r: Result<
        &'a String,
        Error,
    >)
        requires
            slot < self.parser.pos_args.len(),
        ensures
            token_or(
                served(got@, slot as int),
                ErrorView::ExpectedPositional((slot + 1) as nat),
                r,
            ),
    {
        match got.served(slot) {
            Some(token) => Ok(token),
            None => Err(Error::ExpectedPositional(slot + 1)),
        }
    }

    /// The value of named slot `slot`, which must be given; where it was
    /// not, the error that names the slot's key.
    pub fn named_token<'a>(&self, got: &'a Collected, slot: usize) -> (r: Result<&'a String, Error>)
        requires
            slot < self.parser.named_args.len(),
        ensures
            token_or(
                given(got@, slot as int),
                ErrorView::ExpectedNamed(self.parser@.named_args[slot as int].arg_name),
                r,
            ),
    {
        match got.given(slot) {
            Some(token) => Ok(token),
            None => {
                Err(Error::ExpectedNamed(self.parser.named_args[slot].arg_name.clone()))
            },
        }
    }

    /// Reads positional slot `slot`, which must be served.
    pub fn positional<T: Argument>(&self, got: &Collected, slot: usize) -> (r: Result<T, Error>)
        requires
            slot < self.parser.pos_args.len(),
        ensures
            positional_spec::<T>(got@, slot as int, r),
    {
        match self.positional_token(got, slot) {
            Ok(token) => T::parse(token.as_str(), self.positional_ref(slot)),
            Err(e) => Err(e),
        }
    }

    /// Reads positional slot `slot`, which may have stayed empty.
    pub fn optional<T: OptionalArg>(&self, got: &Collected, slot: usize) -> (r: Result<T, Error>)
        requires
            slot < self.parser.pos_args.len(),
        ensures
            optional_spec::<T>(got@, slot as int, r),
    {
        match got.served(slot) {
            Some(token) => T::map_parse(Some(token.as_str()), self.positional_ref(slot)),
            None => T::map_parse(None, self.positional_ref(slot)),
        }
    }

    /// Reads the tokens of the variadic slot, which is the last positional
    /// slot of the plan.
    pub fn variadic<T: Argument>(&self, got: &Collected) -> (r: Result<Vec<T>, Error>)
        requires
            self.parser.pos_args.len() + got.rest.len() <= usize::MAX,
        ensures
            variadic_spec::<T>(got@.rest, self.parser.pos_args.len() as nat, r),
    {
        let first = self.parser.pos_args.len();
        let ghost tokens = got@.rest;
        let mut out: Vec<T> = Vec::new();
        let mut i: usize = 0;
        while i < got.rest.len()
            invariant
                i <= got.rest.len(),
                first == self.parser.pos_args.len(),
                first + got.rest.len() <= usize::MAX,
                tokens == got@.rest,
                out.len() == i,
                first_rejected::<T>(tokens, 0) == first_rejected::<T>(tokens, i as int),
                forall|k: int| 0 <= k < i ==> (#[trigger] out[k]).denotes(tokens[k]),
            decreases got.rest.len() - i,
        {
            match T::parse(got.rest[i].as_str(), self.variadic_ref(i)) {
                Ok(v) => {
                    out.push(v);
                },
                Err(e) => {
                    return Err(e);
                },
            }
            i += 1;
        }
        Ok(out)
    }

    /// Reads named slot `slot`, which must be given.
    pub fn named<T: Argument>(&self, got: &Collected, slot: usize) -> (r: Result<T, Error>)
        requires
            slot < self.parser.named_args.len(),
        ensures
            named_spec::<T>(self.parser@, got@, slot as int, r),
    {
        match self.named_token(got, slot) {
            Ok(token) => T::parse(token.as_str(), self.named_ref(slot)),
            Err(e) => Err(e),
        }
    }

    /// Reads named slot `slot`, which may have been left out.
    pub fn optional_named<T: OptionalArg>(&self, got: &Collected, slot: usize) -> (r: Result<
        T,
        Error,
    >)
        requires
            slot < self.parser.named_args.len(),
        ensures
            optional_named_spec::<T>(self.parser@, got@, slot as int, r),
    {
        match got.given(slot) {
            Some(token) => T::map_parse(Some(token.as_str()), self.named_ref(slot)),
            None => T::map_parse(None, self.named_ref(slot)),
        }
    }

    /// The value of flag `slot`: the flag's unset value, raised once for each
    /// occurrence.
    pub fn flag<F: Flag>(&self, got: &Collected, slot: usize) -> (r: F)
        requires
            slot < got.flags.len(),
            takes::<F>(got@.flags[slot as int]),
        ensures
            r == raised_times::<F>(got@.flags[slot as int]),
    {
        raise::<F>(got.flags[slot])
    }
}

} // verus!
