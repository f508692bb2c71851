//! Console output: text becomes one SBI console call per character.

use vstd::prelude::*;

use crate::sbi::{console_putchar, putchar_call, SbiCall};

verus! {

/// The console calls that print `text`: one per character, in order, each
/// carrying the character's code point.
pub open spec fn putchar_calls(text: Seq<char>) -> Seq<SbiCall> {
    Seq::new(text.len(), |i: int| putchar_call(text[i] as usize))
}

/// The console calls of a text are one per character, in order, and the
/// call at each position carries exactly that character's code point.
pub proof fn lemma_putchar_calls_chars(text: Seq<char>)
    ensures
        putchar_calls(text).len() == text.len(),
        forall|i: int|
            0 <= i < text.len() ==> #[trigger] putchar_calls(text)[i] == (SbiCall {
                which: 1,
                arg0: text[i] as usize,
                arg1: 0,
                arg2: 0,
            }),
{
}

/// The kernel's standard output; it holds no state.
pub struct Stdout;

impl Stdout {
    /// The console calls that write `s`.
    pub fn write_str(&self, s: &str) -> (calls: Vec<SbiCall>)
        ensures
            calls@ == putchar_calls(s@),
            calls@.len() == s@.len(),
            forall|i: int|
                0 <= i < s@.len() ==> #[trigger] calls@[i] == (SbiCall {
                    which: 1,
                    arg0: s@[i] as usize,
                    arg1: 0,
                    arg2: 0,
                }),
    {
        proof {
            lemma_putchar_calls_chars(s@);
        }
        let mut calls: Vec<SbiCall> = Vec::new();
        for c in iter: s.chars()
            invariant
                iter.seq() == s@,
                calls@ == putchar_calls(s@.take(iter.index() as int)),
        {
            calls.push(console_putchar(c as usize));
        }
        calls
    }

    /// The console call for the character at position `i` of `s`, or `None`
    /// past its end: the calls of `write_str` one by one, for a caller that
    /// prints without building the whole list.
    pub fn write_char_at(&self, s: &str, i: usize) -> (call: Option<SbiCall>)
        ensures
            i < s@.len() ==> call == Some(putchar_calls(s@)[i as int]),
            i >= s@.len() ==> call is None,
            i < s@.len() ==> call == Some(
                SbiCall { which: 1, arg0: s@[i as int] as usize, arg1: 0, arg2: 0 },
            ),
    {
        proof {
            lemma_putchar_calls_chars(s@);
        }
        if i < s.unicode_len() {
            Some(console_putchar(s.get_char(i) as usize))
        } else {
            None
        }
    }
}

/// The console calls that print the formatted text `text`.
pub fn print(text: &str) -> (calls: Vec<SbiCall>)
    ensures
        calls@ == putchar_calls(text@),
        calls@.len() == text@.len(),
        forall|i: int|
            0 <= i < text@.len() ==> #[trigger] calls@[i] == (SbiCall {
                which: 1,
                arg0: text@[i] as usize,
                arg1: 0,
                arg2: 0,
            }),
{
    Stdout.write_str(text)
}

} // verus!
