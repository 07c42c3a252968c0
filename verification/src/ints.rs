//! The built-in integer types as arguments and as flags that count.

use vstd::prelude::*;
use crate::args::{Argument, Flag};
use crate::number::{fault_message, int_complaint, parse_int, read_int, IntFault};
use crate::outcome::{ArgRef, Error};

verus! {

impl Argument for u8 {
    open spec fn accepts(token: Seq<char>) -> bool {
        read_int(token, 0 as int, u8::MAX as int) is Ok
    }

    open spec fn denotes(&self, token: Seq<char>) -> bool {
        read_int(token, 0 as int, u8::MAX as int) == Ok::<int, IntFault>(*self as int)
    }

    open spec fn complaint(token: Seq<char>) -> Seq<char> {
        int_complaint(token, 0 as int, u8::MAX as int)
    }

    fn parse(val: &str, arg: ArgRef) -> (r: Result<Self, Error>) {
        match parse_int(val, 0 as i128, u8::MAX as i128) {
            Ok(v) => Ok(v as u8),
            Err(fault) => Err(Error::Parse(arg, fault_message(fault))),
        }
    }
}

impl Flag for u8 {
    open spec fn unset() -> u8 {
        0
    }

    open spec fn raised(self) -> u8 {
        (self + 1) as u8
    }

    open spec fn full(self) -> bool {
        self == u8::MAX
    }

    proof fn default_is_unset(r: u8) {
    }

    fn increment(&mut self) {
        *self += 1;
    }
}

impl Argument for u16 {
    open spec fn accepts(token: Seq<char>) -> bool {
        read_int(token, 0 as int, u16::MAX as int) is Ok
    }

    open spec fn denotes(&self, token: Seq<char>) -> bool {
        read_int(token, 0 as int, u16::MAX as int) == Ok::<int, IntFault>(*self as int)
    }

    open spec fn complaint(token: Seq<char>) -> Seq<char> {
        int_complaint(token, 0 as int, u16::MAX as int)
    }

    fn parse(val: &str, arg: ArgRef) -> (r: Result<Self, Error>) {
        match parse_int(val, 0 as i128, u16::MAX as i128) {
            Ok(v) => Ok(v as u16),
            Err(fault) => Err(Error::Parse(arg, fault_message(fault))),
        }
    }
}

impl Flag for u16 {
    open spec fn unset() -> u16 {
        0
    }

    open spec fn raised(self) -> u16 {
        (self + 1) as u16
    }

    open spec fn full(self) -> bool {
        self == u16::MAX
    }

    proof fn default_is_unset(r: u16) {
    }

    fn increment(&mut self) {
        *self += 1;
    }
}

impl Argument for u32 {
    open spec fn accepts(token: Seq<char>) -> bool {
        read_int(token, 0 as int, u32::MAX as int) is Ok
    }

    open spec fn denotes(&self, token: Seq<char>) -> bool {
        read_int(token, 0 as int, u32::MAX as int) == Ok::<int, IntFault>(*self as int)
    }

    open spec fn complaint(token: Seq<char>) -> Seq<char> {
        int_complaint(token, 0 as int, u32::MAX as int)
    }

    fn parse(val: &str, arg: ArgRef) -> (r: Result<Self, Error>) {
        match parse_int(val, 0 as i128, u32::MAX as i128) {
            Ok(v) => Ok(v as u32),
            Err(fault) => Err(Error::Parse(arg, fault_message(fault))),
        }
    }
}

impl Flag for u32 {
    open spec fn unset() -> u32 {
        0
    }

    open spec fn raised(self) -> u32 {
        (self + 1) as u32
    }

    open spec fn full(self) -> bool {
        self == u32::MAX
    }

    proof fn default_is_unset(r: u32) {
    }

    fn increment(&mut self) {
        *self += 1;
    }
}

impl Argument for u64 {
    open spec fn accepts(token: Seq<char>) -> bool {
        read_int(token, 0 as int, u64::MAX as int) is Ok
    }

    open spec fn denotes(&self, token: Seq<char>) -> bool {
        read_int(token, 0 as int, u64::MAX as int) == Ok::<int, IntFault>(*self as int)
    }

    open spec fn complaint(token: Seq<char>) -> Seq<char> {
        int_complaint(token, 0 as int, u64::MAX as int)
    }

    fn parse(val: &str, arg: ArgRef) -> (r: Result<Self, Error>) {
        match parse_int(val, 0 as i128, u64::MAX as i128) {
            Ok(v) => Ok(v as u64),
            Err(fault) => Err(Error::Parse(arg, fault_message(fault))),
        }
    }
}

impl Flag for u64 {
    open spec fn unset() -> u64 {
        0
    }

    open spec fn raised(self) -> u64 {
        (self + 1) as u64
    }

    open spec fn full(self) -> bool {
        self == u64::MAX
    }

    proof fn default_is_unset(r: u64) {
    }

    fn increment(&mut self) {
        *self += 1;
    }
}

impl Argument for usize {
    open spec fn accepts(token: Seq<char>) -> bool {
        read_int(token, 0 as int, usize::MAX as int) is Ok
    }

    open spec fn denotes(&self, token: Seq<char>) -> bool {
        read_int(token, 0 as int, usize::MAX as int) == Ok::<int, IntFault>(*self as int)
    }

    open spec fn complaint(token: Seq<char>) -> Seq<char> {
        int_complaint(token, 0 as int, usize::MAX as int)
    }

    fn parse(val: &str, arg: ArgRef) -> (r: Result<Self, Error>) {
        match parse_int(val, 0 as i128, usize::MAX as i128) {
            Ok(v) => Ok(v as usize),
            Err(fault) => Err(Error::Parse(arg, fault_message(fault))),
        }
    }
}

impl Flag for usize {
    open spec fn unset() -> usize {
        0
    }

    open spec fn raised(self) -> usize {
        (self + 1) as usize
    }

    open spec fn full(self) -> bool {
        self == usize::MAX
    }

    proof fn default_is_unset(r: usize) {
    }

    fn increment(&mut self) {
        *self += 1;
    }
}

impl Argument for i8 {
    open spec fn accepts(token: Seq<char>) -> bool {
        read_int(token, i8::MIN as int, i8::MAX as int) is Ok
    }

    open spec fn denotes(&self, token: Seq<char>) -> bool {
        read_int(token, i8::MIN as int, i8::MAX as int) == Ok::<int, IntFault>(*self as int)
    }

    open spec fn complaint(token: Seq<char>) -> Seq<char> {
        int_complaint(token, i8::MIN as int, i8::MAX as int)
    }

    fn parse(val: &str, arg: ArgRef) -> (r: Result<Self, Error>) {
        match parse_int(val, i8::MIN as i128, i8::MAX as i128) {
            Ok(v) => Ok(v as i8),
            Err(fault) => Err(Error::Parse(arg, fault_message(fault))),
        }
    }
}

impl Flag for i8 {
    open spec fn unset() -> i8 {
        0
    }

    open spec fn raised(self) -> i8 {
        (self + 1) as i8
    }

    open spec fn full(self) -> bool {
        self == i8::MAX
    }

    proof fn default_is_unset(r: i8) {
    }

    fn increment(&mut self) {
        *self += 1;
    }
}

impl Argument for i16 {
    open spec fn accepts(token: Seq<char>) -> bool {
        read_int(token, i16::MIN as int, i16::MAX as int) is Ok
    }

    open spec fn denotes(&self, token: Seq<char>) -> bool {
        read_int(token, i16::MIN as int, i16::MAX as int) == Ok::<int, IntFault>(*self as int)
    }

    open spec fn complaint(token: Seq<char>) -> Seq<char> {
        int_complaint(token, i16::MIN as int, i16::MAX as int)
    }

    fn parse(val: &str, arg: ArgRef) -> (r: Result<Self, Error>) {
        match parse_int(val, i16::MIN as i128, i16::MAX as i128) {
            Ok(v) => Ok(v as i16),
            Err(fault) => Err(Error::Parse(arg, fault_message(fault))),
        }
    }
}

impl Flag for i16 {
    open spec fn unset() -> i16 {
        0
    }

    open spec fn raised(self) -> i16 {
        (self + 1) as i16
    }

    open spec fn full(self) -> bool {
        self == i16::MAX
    }

    proof fn default_is_unset(r: i16) {
    }

    fn increment(&mut self) {
        *self += 1;
    }
}

impl Argument for i32 {
    open spec fn accepts(token: Seq<char>) -> bool {
        read_int(token, i32::MIN as int, i32::MAX as int) is Ok
    }

    open spec fn denotes(&self, token: Seq<char>) -> bool {
        read_int(token, i32::MIN as int, i32::MAX as int) == Ok::<int, IntFault>(*self as int)
    }

    open spec fn complaint(token: Seq<char>) -> Seq<char> {
        int_complaint(token, i32::MIN as int, i32::MAX as int)
    }

    fn parse(val: &str, arg: ArgRef) -> (r: Result<Self, Error>) {
        match parse_int(val, i32::MIN as i128, i32::MAX as i128) {
            Ok(v) => Ok(v as i32),
            Err(fault) => Err(Error::Parse(arg, fault_message(fault))),
        }
    }
}

impl Flag for i32 {
    open spec fn unset() -> i32 {
        0
    }

    open spec fn raised(self) -> i32 {
        (self + 1) as i32
    }

    open spec fn full(self) -> bool {
        self == i32::MAX
    }

    proof fn default_is_unset(r: i32) {
    }

    fn increment(&mut self) {
        *self += 1;
    }
}

impl Argument for i64 {
    open spec fn accepts(token: Seq<char>) -> bool {
        read_int(token, i64::MIN as int, i64::MAX as int) is Ok
    }

    open spec fn denotes(&self, token: Seq<char>) -> bool {
        read_int(token, i64::MIN as int, i64::MAX as int) == Ok::<int, IntFault>(*self as int)
    }

    open spec fn complaint(token: Seq<char>) -> Seq<char> {
        int_complaint(token, i64::MIN as int, i64::MAX as int)
    }

    fn parse(val: &str, arg: ArgRef) -> (r: Result<Self, Error>) {
        match parse_int(val, i64::MIN as i128, i64::MAX as i128) {
            Ok(v) => Ok(v as i64),
            Err(fault) => Err(Error::Parse(arg, fault_message(fault))),
        }
    }
}

impl Flag for i64 {
    open spec fn unset() -> i64 {
        0
    }

    open spec fn raised(self) -> i64 {
        (self + 1) as i64
    }

    open spec fn full(self) -> bool {
        self == i64::MAX
    }

    proof fn default_is_unset(r: i64) {
    }

    fn increment(&mut self) {
        *self += 1;
    }
}

impl Argument for isize {
    open spec fn accepts(token: Seq<char>) -> bool {
        read_int(token, isize::MIN as int, isize::MAX as int) is Ok
    }

    open spec fn denotes(&self, token: Seq<char>) -> bool {
        read_int(token, isize::MIN as int, isize::MAX as int) == Ok::<int, IntFault>(*self as int)
    }

    open spec fn complaint(token: Seq<char>) -> Seq<char> {
        int_complaint(token, isize::MIN as int, isize::MAX as int)
    }

    fn parse(val: &str, arg: ArgRef) -> (r: Result<Self, Error>) {
        match parse_int(val, isize::MIN as i128, isize::MAX as i128) {
            Ok(v) => Ok(v as isize),
            Err(fault) => Err(Error::Parse(arg, fault_message(fault))),
        }
    }
}

impl Flag for isize {
    open spec fn unset() -> isize {
        0
    }

    open spec fn raised(self) -> isize {
        (self + 1) as isize
    }

    open spec fn full(self) -> bool {
        self == isize::MAX
    }

    proof fn default_is_unset(r: isize) {
    }

    fn increment(&mut self) {
        *self += 1;
    }
}

} // verus!
