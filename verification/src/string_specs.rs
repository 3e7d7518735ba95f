//! Contracts for the `String` methods the prompt's input line uses and the
//! verifier's library does not describe. They are taken on trust from the
//! standard library's documentation.

use vstd::prelude::*;
use vstd::utf8::encode_utf8;

verus! {

/// `String::len`: the length in bytes, that is, of the UTF-8 encoding of
/// the characters.
pub assume_specification[ String::len ](s: &String) -> (n: usize)
    ensures
        n == encode_utf8(s@).len(),
;

/// `String::push`: appends one character.
pub assume_specification[ String::push ](s: &mut String, ch: char)
    ensures
        final(s)@ == old(s)@.push(ch),
;

/// `String::pop`: removes the last character and returns it, or returns
/// `None` and changes nothing when the string is empty.
pub assume_specification[ String::pop ](s: &mut String) -> (last: Option<char>)
    ensures
        old(s)@.len() == 0 ==> last is None && final(s)@ == old(s)@,
        old(s)@.len() > 0 ==> last == Some(old(s)@.last()) && final(s)@ == old(s)@.drop_last(),
;

/// `String::clear`: removes every character.
pub assume_specification[ String::clear ](s: &mut String)
    ensures
        final(s)@ == Seq::<char>::empty(),
;

} // verus!
