//! The greeting that the exported `greet` shows.

use vstd::prelude::*;

verus! {

/// The text that greets `name`.
pub open spec fn greeting(name: Seq<char>) -> Seq<char> {
    "Hello, "@ + name + "!"@
}

/// `String::push_str` of std appends the characters of `tail` to `s` and
/// leaves what `s` held in front of them.
pub assume_specification[ String::push_str ](s: &mut String, tail: &str)
    ensures
        final(s)@ == old(s)@ + tail@,
;

/// The text that greets `name`, for the caller to show.
pub fn greet(name: &str) -> (message: String)
    ensures
        message@ == greeting(name@),
{
    let mut message = String::new();
    message.push_str("Hello, ");
    message.push_str(name);
    message.push_str("!");
    assert(message@ =~= greeting(name@));
    message
}

} // verus!
