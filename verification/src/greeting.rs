//! The greeting command that the front end can call.

use vstd::prelude::*;
use vstd::string::*;

verus! {

/// Text that stands before the name in a greeting.
pub const GREETING_PREFIX: &'static str = "Hello, ";

/// Text that stands after the name in a greeting.
pub const GREETING_SUFFIX: &'static str = "! You've been greeted from Rust!";

/// The greeting for `name`: the prefix, the name as given, the suffix.
pub open spec fn greeting_text(name: Seq<char>) -> Seq<char> {
    GREETING_PREFIX@ + name + GREETING_SUFFIX@
}

/// Greets `name`.
///
/// The name is taken as it is: nothing is trimmed, escaped or rejected, and
/// the empty name is greeted like any other.
pub fn greet(name: &str) -> (greeting: String)
    ensures
        greeting@ == greeting_text(name@),
{
    let mut greeting = String::from_str(GREETING_PREFIX);
    greeting.append(name);
    greeting.append(GREETING_SUFFIX);
    greeting
}

/// A greeting is as long as the name and the fixed text around it, and the
/// name stands in it unchanged, right after the prefix.
pub proof fn lemma_greeting_holds_name(name: Seq<char>)
    ensures
        greeting_text(name).len() == GREETING_PREFIX@.len() + name.len() + GREETING_SUFFIX@.len(),
        greeting_text(name).subrange(
            GREETING_PREFIX@.len() as int,
            (GREETING_PREFIX@.len() + name.len()) as int,
        ) == name,
{
    let start = GREETING_PREFIX@.len() as int;
    assert(greeting_text(name).subrange(start, start + name.len()) =~= name);
}

} // verus!
