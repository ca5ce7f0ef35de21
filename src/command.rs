//! Splitting a command line into the program and its arguments.

use vstd::prelude::*;
use crate::model::names;

verus! {

/// The white-space separated words of a line, as `str::split_whitespace`
/// yields them.
pub uninterp spec fn words_of(s: Seq<char>) -> Seq<Seq<char>>;

/// Relies on `str::split_whitespace`: the words of `line`, in order, split at
/// runs of Unicode white space; an empty line has none.
#[verifier::external_body]
fn words(line: &str) -> (r: Vec<String>)
    ensures
        names(r@) == words_of(line@),
        line@.len() == 0 ==> r@.len() == 0,
{
    line.split_whitespace().map(|w| w.to_string()).collect()
}

/// The program (first word) and its arguments (the other words); `None`
/// when there is no word.
pub fn command_parts(words: Vec<String>) -> (r: Option<(String, Vec<String>)>)
    ensures
        r is Some <==> words@.len() > 0,
        r matches Some((program, args)) ==> program@ == names(words@)[0] && names(args@)
            == names(words@).drop_first(),
{
    let mut words = words;
    if words.len() == 0 {
        None
    } else {
        let ghost all = words@;
        let program = words.remove(0);
        proof {
            assert(names(words@) =~= names(all).drop_first());
        }
        Some((program, words))
    }
}

/// Splits a command line on white space into the program to start and its
/// arguments; `None` for a line without any word.
pub fn split_command(line: &str) -> (r: Option<(String, Vec<String>)>)
    ensures
        r is Some <==> words_of(line@).len() > 0,
        r matches Some((program, args)) ==> program@ == words_of(line@)[0] && names(args@)
            == words_of(line@).drop_first(),
{
    command_parts(words(line))
}

} // verus!
