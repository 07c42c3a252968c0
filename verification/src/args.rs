//! The capabilities that a field's type must offer: to be read from one
//! token, to stand for an argument that was left out, or to count the
//! occurrences of a flag.

use vstd::prelude::*;
use crate::outcome::{ArgRef, ArgRefView, Error, ErrorView};
use crate::text::text_is;

verus! {

/// A type that can be read from one token.
pub trait Argument: Sized {
    /// Whether `token` is in the type's grammar.
    spec fn accepts(token: Seq<char>) -> bool;

    /// Whether `self` is the value that `token` stands for.
    spec fn denotes(&self, token: Seq<char>) -> bool;

    /// The reason given for a token outside the grammar.
    spec fn complaint(token: Seq<char>) -> Seq<char>;

    /// Reads `val`. A token outside the grammar is reported as an error of
    /// the argument `arg`.
    fn parse(val: &str, arg: ArgRef) -> (r: Result<Self, Error>)
        ensures
            Self::accepts(val@) ==> r is Ok && r->Ok_0.denotes(val@),
            !Self::accepts(val@) ==> r is Err && r->Err_0@ == ErrorView::Parse(
                arg@,
                Self::complaint(val@),
            ),
    ;
}

/// What reading `token` for the argument `arg` gives: the value that the
/// token stands for, or the error that names the argument and the reason.
pub open spec fn parsed<T: Argument>(token: Seq<char>, arg: ArgRefView, r: Result<T, Error>) -> bool {
    if T::accepts(token) {
        r is Ok && r->Ok_0.denotes(token)
    } else {
        r is Err && r->Err_0@ == ErrorView::Parse(arg, T::complaint(token))
    }
}

/// A type that can be read from one token and has a value for an argument
/// that was not given.
pub trait OptionalArg: Sized {
    /// Whether `token` is in the type's grammar.
    spec fn accepts(token: Seq<char>) -> bool;

    /// Whether `self` is the value that `token` stands for.
    spec fn denotes(&self, token: Seq<char>) -> bool;

    /// The reason given for a token outside the grammar.
    spec fn complaint(token: Seq<char>) -> Seq<char>;

    /// Whether `self` is the value of an argument that was not given.
    spec fn is_default(&self) -> bool;

    /// Reads `val`, as [`Argument::parse`] does.
    fn parse(val: &str, arg: ArgRef) -> (r: Result<Self, Error>)
        ensures
            Self::accepts(val@) ==> r is Ok && r->Ok_0.denotes(val@),
            !Self::accepts(val@) ==> r is Err && r->Err_0@ == ErrorView::Parse(
                arg@,
                Self::complaint(val@),
            ),
    ;

    /// The value of an argument that was not given.
    fn default() -> (r: Self)
        ensures
            r.is_default(),
    ;

    /// Reads the token if there is one, and gives the default if not.
    fn map_parse(val: Option<&str>, arg: ArgRef) -> (r: Result<Self, Error>)
        ensures
            val is None ==> r is Ok && r->Ok_0.is_default(),
            val matches Some(v) ==> (Self::accepts(v@) ==> r is Ok && r->Ok_0.denotes(v@)),
            val matches Some(v) ==> (!Self::accepts(v@) ==> r is Err && r->Err_0@
                == ErrorView::Parse(arg@, Self::complaint(v@))),
    {
        match val {
            Some(val) => Self::parse(val, arg),
            None => Ok(Self::default()),
        }
    }
}

/// The model of an optional token.
pub open spec fn opt_str(val: Option<&str>) -> Option<Seq<char>> {
    match val {
        Some(s) => Some(s@),
        None => None,
    }
}

/// What reading an optional token for the argument `arg` gives: the default
/// where there is no token, else what reading the token gives.
pub open spec fn parsed_optional<T: OptionalArg>(
    token: Option<Seq<char>>,
    arg: ArgRefView,
    r: Result<T, Error>,
) -> bool {
    match token {
        None => r is Ok && r->Ok_0.is_default(),
        Some(token) => if T::accepts(token) {
            r is Ok && r->Ok_0.denotes(token)
        } else {
            r is Err && r->Err_0@ == ErrorView::Parse(arg, T::complaint(token))
        },
    }
}

impl<T: Argument> OptionalArg for Option<T> {
    open spec fn accepts(token: Seq<char>) -> bool {
        T::accepts(token)
    }

    open spec fn denotes(&self, token: Seq<char>) -> bool {
        self matches Some(v) && v.denotes(token)
    }

    open spec fn complaint(token: Seq<char>) -> Seq<char> {
        T::complaint(token)
    }

    open spec fn is_default(&self) -> bool {
        self is None
    }

    fn parse(val: &str, arg: ArgRef) -> (r: Result<Self, Error>) {
        match T::parse(val, arg) {
            Ok(v) => Ok(Some(v)),
            Err(e) => Err(e),
        }
    }

    fn default() -> (r: Self) {
        None
    }
}

/// A type that counts how often a flag was given.
pub trait Flag: Default {
    /// The value before the flag was seen.
    spec fn unset() -> Self;

    /// The value after the flag was seen once more.
    spec fn raised(self) -> Self;

    /// Whether the value cannot take another occurrence.
    spec fn full(self) -> bool;

    /// The type's default is the value before the flag was seen.
    proof fn default_is_unset(r: Self)
        requires
            call_ensures(Self::default, (), r),
        ensures
            r == Self::unset(),
    ;

    /// Records one more occurrence of the flag.
    fn increment(&mut self)
        requires
            !old(self).full(),
        ensures
            *final(self) == old(self).raised(),
    ;
}

/// The value of a flag after `n` occurrences.
pub open spec fn raised_times<F: Flag>(n: nat) -> F
    decreases n,
{
    if n == 0 {
        F::unset()
    } else {
        raised_times::<F>((n - 1) as nat).raised()
    }
}

/// Whether a flag of type `F` can take `n` occurrences.
pub open spec fn takes<F: Flag>(n: nat) -> bool {
    forall|k: nat| k < n ==> !(#[trigger] raised_times::<F>(k)).full()
}

/// The value of a flag that was given `count` times.
pub fn raise<F: Flag>(count: usize) -> (r: F)
    requires
        takes::<F>(count as nat),
    ensures
        r == raised_times::<F>(count as nat),
{
    let mut flag = F::default();
    proof {
        F::default_is_unset(flag);
    }
    let mut i: usize = 0;
    while i < count
        invariant
            i <= count,
            flag == raised_times::<F>(i as nat),
            takes::<F>(count as nat),
        decreases count - i,
    {
        flag.increment();
        i += 1;
    }
    flag
}

impl Argument for String {
    open spec fn accepts(token: Seq<char>) -> bool {
        true
    }

    open spec fn denotes(&self, token: Seq<char>) -> bool {
        self@ == token
    }

    open spec fn complaint(token: Seq<char>) -> Seq<char> {
        Seq::empty()
    }

    fn parse(val: &str, arg: ArgRef) -> (r: Result<Self, Error>) {
        Ok(String::from_str(val))
    }
}

impl Argument for char {
    open spec fn accepts(token: Seq<char>) -> bool {
        token.len() == 1
    }

    open spec fn denotes(&self, token: Seq<char>) -> bool {
        token == seq![*self]
    }

    open spec fn complaint(token: Seq<char>) -> Seq<char> {
        if token.len() == 0 {
            "cannot parse char from empty string"@
        } else {
            "too many characters in string"@
        }
    }

    fn parse(val: &str, arg: ArgRef) -> (r: Result<Self, Error>) {
        let count = val.unicode_len();
        if count == 1 {
            let c = val.get_char(0);
            assert(val@ =~= seq![c]);
            Ok(c)
        } else if count == 0 {
            Err(Error::Parse(arg, String::from_str("cannot parse char from empty string")))
        } else {
            Err(Error::Parse(arg, String::from_str("too many characters in string")))
        }
    }
}

impl Argument for bool {
    open spec fn accepts(token: Seq<char>) -> bool {
        token == "true"@ || token == "false"@
    }

    open spec fn denotes(&self, token: Seq<char>) -> bool {
        token == if *self {
            "true"@
        } else {
            "false"@
        }
    }

    open spec fn complaint(token: Seq<char>) -> Seq<char> {
        "provided string was not `true` or `false`"@
    }

    fn parse(val: &str, arg: ArgRef) -> (r: Result<Self, Error>) {
        let token = String::from_str(val);
        if text_is(&token, "true") {
            Ok(true)
        } else if text_is(&token, "false") {
            Ok(false)
        } else {
            Err(Error::Parse(arg, String::from_str("provided string was not `true` or `false`")))
        }
    }
}

impl Flag for bool {
    open spec fn unset() -> bool {
        false
    }

    open spec fn raised(self) -> bool {
        true
    }

    open spec fn full(self) -> bool {
        false
    }

    proof fn default_is_unset(r: bool) {
    }

    fn increment(&mut self) {
        *self = true;
    }
}

impl Flag for Option<()> {
    open spec fn unset() -> Option<()> {
        None
    }

    open spec fn raised(self) -> Option<()> {
        Some(())
    }

    open spec fn full(self) -> bool {
        false
    }

    proof fn default_is_unset(r: Option<()>) {
    }

    fn increment(&mut self) {
        *self = Some(());
    }
}

} // verus!
