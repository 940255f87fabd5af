//! The greeting offered to the front end.

use vstd::prelude::*;
use vstd::string::*;

verus! {

/// What stands before the name in a greeting.
pub open spec fn greeting_prefix() -> Seq<char> {
    "Hello, "@
}

/// What stands after the name in a greeting.
pub open spec fn greeting_suffix() -> Seq<char> {
    "! You've been greeted!"@
}

/// The greeting for `name`: the prefix, the name as it was given, the suffix.
pub open spec fn greeting(name: Seq<char>) -> Seq<char> {
    greeting_prefix() + name + greeting_suffix()
}

/// Greets `name`. Every string is accepted and taken over unchanged.
pub fn greet(name: &str) -> (text: String)
    ensures
        text@ == greeting(name@),
{
    let mut text = String::from_str("Hello, ");
    text.append(name);
    text.append("! You've been greeted!");
    text
}

/// A greeting holds the whole name, untouched, between the prefix and the
/// suffix: nothing of it is cut off, whatever characters it is made of.
pub proof fn lemma_greeting_keeps_name(name: Seq<char>)
    ensures
        greeting(name).len() == greeting_prefix().len() + name.len() + greeting_suffix().len(),
        greeting(name).subrange(0, greeting_prefix().len() as int) == greeting_prefix(),
        greeting(name).subrange(
            greeting_prefix().len() as int,
            (greeting_prefix().len() + name.len()) as int,
        ) == name,
        greeting(name).subrange(
            (greeting_prefix().len() + name.len()) as int,
            greeting(name).len() as int,
        ) == greeting_suffix(),
{
    let text = greeting(name);
    let start = greeting_prefix().len() as int;
    assert(text.subrange(0, start) =~= greeting_prefix());
    assert(text.subrange(start, start + name.len()) =~= name);
    assert(text.subrange(start + name.len(), text.len() as int) =~= greeting_suffix());
}

/// Two names that are greeted alike are the same name.
pub proof fn lemma_greeting_tells_names_apart(first: Seq<char>, second: Seq<char>)
    requires
        greeting(first) == greeting(second),
    ensures
        first == second,
{
    lemma_greeting_keeps_name(first);
    lemma_greeting_keeps_name(second);
}

} // verus!
