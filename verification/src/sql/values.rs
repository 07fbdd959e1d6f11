//! The values that a database cell can hold, and the text by which a value
//! enters a SQL statement.

use vstd::prelude::*;
use crate::sql::floats::Float32;
use crate::sql::floats::Float32View;
use crate::sql::floats::Float64;
use crate::sql::floats::Float64View;
use crate::text::collect_chars;
use crate::text::decimal_text;
use crate::text::push_char;
use crate::text::signed_decimal;
use crate::text::unsigned_decimal;

verus! {

/// A raw SQL value.
#[derive(Debug, PartialEq, Eq)]
pub enum SqlValue {
    /// A simple `true` or `false` value.
    Boolean(bool),
    /// A 4-byte numeric value with a 'floating' decimal value.
    Float32(Float32),
    /// An 8-byte numeric value with a 'floating' decimal value.
    Float64(Float64),
    /// A non-existent value.
    Null,
    /// An unbounded sequence of text characters.
    String(String),
    /// A 1-byte whole number that can be negative or positive.
    Signed8(i8),
    /// A 2-byte whole number that can be negative or positive.
    Signed16(i16),
    /// A 4-byte whole number that can be negative or positive.
    Signed32(i32),
    /// An 8-byte whole number that can be negative or positive.
    Signed64(i64),
    /// A 16-byte whole number that can be negative or positive.
    Signed128(i128),
    /// A 1-byte whole number that cannot be negative.
    Unsigned8(u8),
    /// A 2-byte whole number that cannot be negative.
    Unsigned16(u16),
    /// A 4-byte whole number that cannot be negative.
    Unsigned32(u32),
    /// An 8-byte whole number that cannot be negative.
    Unsigned64(u64),
    /// A 16-byte whole number that cannot be negative.
    Unsigned128(u128),
}

/// What a SQL value holds, variant by variant, with text as a sequence.
pub ghost enum SqlValueView {
    Boolean(bool),
    Float32(Float32View),
    Float64(Float64View),
    Null,
    String(Seq<char>),
    Signed8(i8),
    Signed16(i16),
    Signed32(i32),
    Signed64(i64),
    Signed128(i128),
    Unsigned8(u8),
    Unsigned16(u16),
    Unsigned32(u32),
    Unsigned64(u64),
    Unsigned128(u128),
}

/// The families of SQL values. A native type converts from the values of
/// one family only.
#[derive(Debug, Clone, Copy, PartialEq, Eq, Structural)]
pub enum ValueFamily {
    Boolean,
    Float32,
    Float64,
    Null,
    Text,
    Integer,
}

/// The character that opens and closes a text literal.
pub const QUOTE: char = '\'';

/// A text with each of its quotes doubled, as it stands inside a text
/// literal.
pub open spec fn doubled_quotes(text: Seq<char>) -> Seq<char>
    decreases text.len(),
{
    if text.len() == 0 {
        Seq::empty()
    } else if text.last() == QUOTE {
        doubled_quotes(text.drop_last()).push(QUOTE).push(QUOTE)
    } else {
        doubled_quotes(text.drop_last()).push(text.last())
    }
}

/// Appends a text to `literal`, with each quote of the text doubled.
pub fn push_doubled_quotes(literal: &mut String, text: &str)
    ensures
        final(literal)@ == old(literal)@.add(doubled_quotes(text@)),
{
    let chars = collect_chars(text);
    let mut k: usize = 0;
    while k < chars.len()
        invariant
            k <= chars.len(),
            chars@ == text@,
            literal@ == old(literal)@.add(doubled_quotes(text@.take(k as int))),
        decreases chars.len() - k,
    {
        let c = chars[k];
        proof {
            assert(text@.take(k + 1).drop_last() =~= text@.take(k as int));
            assert(text@.take(k + 1).last() == c);
        }
        if c == QUOTE {
            push_char(literal, QUOTE);
        }
        push_char(literal, c);
        assert(literal@ =~= old(literal)@.add(doubled_quotes(text@.take(k + 1))));
        k = k + 1;
    }
    assert(text@.take(k as int) =~= text@);
}

impl View for SqlValue {
    type V = SqlValueView;

    open spec fn view(&self) -> SqlValueView {
        match *self {
            SqlValue::Boolean(b) => SqlValueView::Boolean(b),
            SqlValue::Float32(f) => SqlValueView::Float32(f@),
            SqlValue::Float64(f) => SqlValueView::Float64(f@),
            SqlValue::Null => SqlValueView::Null,
            SqlValue::String(s) => SqlValueView::String(s@),
            SqlValue::Signed8(i) => SqlValueView::Signed8(i),
            SqlValue::Signed16(i) => SqlValueView::Signed16(i),
            SqlValue::Signed32(i) => SqlValueView::Signed32(i),
            SqlValue::Signed64(i) => SqlValueView::Signed64(i),
            SqlValue::Signed128(i) => SqlValueView::Signed128(i),
            SqlValue::Unsigned8(u) => SqlValueView::Unsigned8(u),
            SqlValue::Unsigned16(u) => SqlValueView::Unsigned16(u),
            SqlValue::Unsigned32(u) => SqlValueView::Unsigned32(u),
            SqlValue::Unsigned64(u) => SqlValueView::Unsigned64(u),
            SqlValue::Unsigned128(u) => SqlValueView::Unsigned128(u),
        }
    }
}

impl SqlValueView {
    /// The integer that the value carries, whatever the width and the sign
    /// of its variant; nothing for a value that is no integer.
    pub open spec fn integer(self) -> Option<int> {
        match self {
            SqlValueView::Signed8(i) => Some(i as int),
            SqlValueView::Signed16(i) => Some(i as int),
            SqlValueView::Signed32(i) => Some(i as int),
            SqlValueView::Signed64(i) => Some(i as int),
            SqlValueView::Signed128(i) => Some(i as int),
            SqlValueView::Unsigned8(u) => Some(u as int),
            SqlValueView::Unsigned16(u) => Some(u as int),
            SqlValueView::Unsigned32(u) => Some(u as int),
            SqlValueView::Unsigned64(u) => Some(u as int),
            SqlValueView::Unsigned128(u) => Some(u as int),
            _ => None,
        }
    }

    /// The family of the value.
    pub open spec fn family(self) -> ValueFamily {
        match self {
            SqlValueView::Boolean(_) => ValueFamily::Boolean,
            SqlValueView::Float32(_) => ValueFamily::Float32,
            SqlValueView::Float64(_) => ValueFamily::Float64,
            SqlValueView::Null => ValueFamily::Null,
            SqlValueView::String(_) => ValueFamily::Text,
            _ => ValueFamily::Integer,
        }
    }

    /// The text by which the value enters a SQL statement: `true` or
    /// `false`, the decimal form of a number, the text between single
    /// quotes with each quote of its own doubled, `NULL`.
    pub open spec fn literal(self) -> Seq<char> {
        match self {
            SqlValueView::Boolean(b) => if b {
                "true"@
            } else {
                "false"@
            },
            SqlValueView::Float32(f) => f.literal,
            SqlValueView::Float64(f) => f.literal,
            SqlValueView::Null => "NULL"@,
            SqlValueView::String(s) => seq![QUOTE].add(doubled_quotes(s)).push(QUOTE),
            SqlValueView::Signed8(i) => decimal_text(i as int),
            SqlValueView::Signed16(i) => decimal_text(i as int),
            SqlValueView::Signed32(i) => decimal_text(i as int),
            SqlValueView::Signed64(i) => decimal_text(i as int),
            SqlValueView::Signed128(i) => decimal_text(i as int),
            SqlValueView::Unsigned8(u) => decimal_text(u as int),
            SqlValueView::Unsigned16(u) => decimal_text(u as int),
            SqlValueView::Unsigned32(u) => decimal_text(u as int),
            SqlValueView::Unsigned64(u) => decimal_text(u as int),
            SqlValueView::Unsigned128(u) => decimal_text(u as int),
        }
    }
}

impl SqlValue {
    /// The text by which the value enters a SQL statement.
    pub fn to_string(&self) -> (text: String)
        ensures
            text@ == self@.literal(),
    {
        match self {
            SqlValue::Boolean(b) => if *b {
                "true".to_owned()
            } else {
                "false".to_owned()
            },
            SqlValue::Float32(f) => f.literal().clone(),
            SqlValue::Float64(f) => f.literal().clone(),
            SqlValue::Null => "NULL".to_owned(),
            SqlValue::String(s) => {
                let mut text = String::new();
                push_char(&mut text, QUOTE);
                push_doubled_quotes(&mut text, s.as_str());
                push_char(&mut text, QUOTE);
                text
            },
            SqlValue::Signed8(i) => signed_decimal(*i as i128),
            SqlValue::Signed16(i) => signed_decimal(*i as i128),
            SqlValue::Signed32(i) => signed_decimal(*i as i128),
            SqlValue::Signed64(i) => signed_decimal(*i as i128),
            SqlValue::Signed128(i) => signed_decimal(*i),
            SqlValue::Unsigned8(u) => unsigned_decimal(*u as u128),
            SqlValue::Unsigned16(u) => unsigned_decimal(*u as u128),
            SqlValue::Unsigned32(u) => unsigned_decimal(*u as u128),
            SqlValue::Unsigned64(u) => unsigned_decimal(*u as u128),
            SqlValue::Unsigned128(u) => unsigned_decimal(*u),
        }
    }
}

} // verus!
