//! Writing JSON into a string through `json_writer`'s writer for `String`.

use vstd::prelude::*;

use json_writer::{JSONWriter, JSONWriterValue};

verus! {

/// The JSON text of a string: quoted, with the characters that JSON requires escaped, as
/// `json_writer::write_string` writes it.
pub uninterp spec fn json_quoted(s: Seq<char>) -> Seq<char>;

/// The digit of a number below ten.
pub open spec fn digit(d: nat) -> char {
    (48 + d) as char
}

/// The decimal text of a number, without leading zeros.
pub open spec fn decimal(n: nat) -> Seq<char>
    decreases n,
{
    if n < 10 {
        seq![digit(n)]
    } else {
        decimal(n / 10).push(digit(n % 10))
    }
}

/// A comma before every key or item but the first.
pub open spec fn separator(first: bool) -> Seq<char> {
    if first {
        Seq::empty()
    } else {
        seq![',']
    }
}

/// The key of an object's entry, with the comma before it where it is not the first.
pub open spec fn key(name: Seq<char>, first: bool) -> Seq<char> {
    separator(first) + json_quoted(name) + seq![':']
}

/// `JSONWriter::json_string` of `String`: appends the quoted string.
#[verifier::external_body]
pub(crate) fn push_json_string(buffer: &mut String, value: &str)
    ensures
        final(buffer)@ == old(buffer)@ + json_quoted(value@),
{
    buffer.json_string(value);
}

/// `JSONWriter::json_object_key` of `String`: appends a comma unless the key is the first,
/// the quoted key and a colon.
#[verifier::external_body]
pub(crate) fn push_object_key(buffer: &mut String, name: &str, first: bool)
    ensures
        final(buffer)@ == old(buffer)@ + key(name@, first),
{
    buffer.json_object_key(name, first);
}

/// `JSONWriter::json_begin_array_value` of `String`: appends a comma unless the item is
/// the first.
#[verifier::external_body]
pub(crate) fn push_item_separator(buffer: &mut String, first: bool)
    ensures
        final(buffer)@ == old(buffer)@ + separator(first),
{
    buffer.json_begin_array_value(first);
}

/// `JSONWriter::json_begin_object` of `String`: appends `{`.
#[verifier::external_body]
pub(crate) fn push_begin_object(buffer: &mut String)
    ensures
        final(buffer)@ == old(buffer)@ + seq!['{'],
{
    buffer.json_begin_object();
}

/// `JSONWriter::json_end_object` of `String`: appends `}`.
#[verifier::external_body]
pub(crate) fn push_end_object(buffer: &mut String, empty: bool)
    ensures
        final(buffer)@ == old(buffer)@ + seq!['}'],
{
    buffer.json_end_object(empty);
}

/// `JSONWriter::json_begin_array` of `String`: appends `[`.
#[verifier::external_body]
pub(crate) fn push_begin_array(buffer: &mut String)
    ensures
        final(buffer)@ == old(buffer)@ + seq!['['],
{
    buffer.json_begin_array();
}

/// `JSONWriter::json_end_array` of `String`: appends `]`.
#[verifier::external_body]
pub(crate) fn push_end_array(buffer: &mut String, empty: bool)
    ensures
        final(buffer)@ == old(buffer)@ + seq![']'],
{
    buffer.json_end_array(empty);
}

/// `JSONWriter::json_null` of `String`: appends `null`.
#[verifier::external_body]
pub(crate) fn push_null(buffer: &mut String)
    ensures
        final(buffer)@ == old(buffer)@ + seq!['n', 'u', 'l', 'l'],
{
    buffer.json_null();
}

/// `JSONWriterValue::write_json` of `u32`: appends the number in decimal.
#[verifier::external_body]
pub(crate) fn push_u32(buffer: &mut String, value: u32)
    ensures
        final(buffer)@ == old(buffer)@ + decimal(value as nat),
{
    value.write_json(buffer);
}

} // verus!
