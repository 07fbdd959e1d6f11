//! Floating-point numbers as the library carries them.
//!
//! The library does no floating-point arithmetic. It keeps the bits of a
//! number, by which the number is handed back as it came, and the decimal
//! literal of the number, by which it enters SQL text. Whoever has the number
//! supplies both.

use vstd::prelude::*;

verus! {

/// A 4-byte floating-point number: its IEEE 754 bits and its decimal literal.
#[derive(Debug, PartialEq, Eq)]
pub struct Float32 {
    bits: u32,
    literal: String,
}

/// What a 4-byte floating-point number holds.
pub ghost struct Float32View {
    pub bits: u32,
    pub literal: Seq<char>,
}

impl View for Float32 {
    type V = Float32View;

    closed spec fn view(&self) -> Float32View {
        Float32View { bits: self.bits, literal: self.literal@ }
    }
}

impl Float32 {
    /// The number with the given bits, which is written as `literal`.
    pub fn new(bits: u32, literal: String) -> (number: Float32)
        ensures
            number@ == (Float32View { bits, literal: literal@ }),
    {
        Float32 { bits, literal }
    }

    /// The IEEE 754 bits of the number.
    pub fn bits(&self) -> (bits: u32)
        ensures
            bits == self@.bits,
    {
        self.bits
    }

    /// The decimal literal of the number.
    pub fn literal(&self) -> (literal: &String)
        ensures
            literal@ == self@.literal,
    {
        &self.literal
    }
}

/// An 8-byte floating-point number: its IEEE 754 bits and its decimal literal.
#[derive(Debug, PartialEq, Eq)]
pub struct Float64 {
    bits: u64,
    literal: String,
}

/// What an 8-byte floating-point number holds.
pub ghost struct Float64View {
    pub bits: u64,
    pub literal: Seq<char>,
}

impl View for Float64 {
    type V = Float64View;

    closed spec fn view(&self) -> Float64View {
        Float64View { bits: self.bits, literal: self.literal@ }
    }
}

impl Float64 {
    /// The number with the given bits, which is written as `literal`.
    pub fn new(bits: u64, literal: String) -> (number: Float64)
        ensures
            number@ == (Float64View { bits, literal: literal@ }),
    {
        Float64 { bits, literal }
    }

    /// The IEEE 754 bits of the number.
    pub fn bits(&self) -> (bits: u64)
        ensures
            bits == self@.bits,
    {
        self.bits
    }

    /// The decimal literal of the number.
    pub fn literal(&self) -> (literal: &String)
        ensures
            literal@ == self@.literal,
    {
        &self.literal
    }
}

} // verus!
