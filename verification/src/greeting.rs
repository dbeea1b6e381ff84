//! The one exported function: greet the caller by splicing the input into a
//! fixed template.

use vstd::prelude::*;
use vstd::string::*;

verus! {

/// The text returned for a given input: the fixed template with the input
/// spliced in verbatim between the prefix and the closing `!`.
pub open spec fn greeting_of(name: Seq<char>) -> Seq<char> {
    "From my custom extension: "@ + name + "!"@
}

/// Returns the greeting for `name`: the template
/// `From my custom extension: {name}!` with `name` substituted verbatim.
pub fn my_custom_extension(name: &str) -> (r: String)
    ensures
        r@ == greeting_of(name@),
{
    let mut r = String::from_str("From my custom extension: ");
    r.append(name);
    r.append("!");
    r
}

/// The function is deterministic: its contract pins the result down, so any
/// two results returned for the same input are equal.
pub proof fn lemma_greeting_deterministic(name: Seq<char>, r1: Seq<char>, r2: Seq<char>)
    requires
        r1 == greeting_of(name),
        r2 == greeting_of(name),
    ensures
        r1 == r2,
{
}

/// The input passes through unmodified: every greeting starts with the
/// 26-character prefix, carries the input verbatim right after it, and ends
/// with `!`.
pub proof fn lemma_input_embedded(name: Seq<char>)
    ensures
        greeting_of(name).len() == name.len() + 27,
        greeting_of(name).subrange(0, 26) == "From my custom extension: "@,
        greeting_of(name).subrange(26, 26 + name.len() as int) == name,
        greeting_of(name)[26 + name.len() as int] == '!',
{
    reveal_strlit("From my custom extension: ");
    reveal_strlit("!");
    assert(greeting_of(name).subrange(0, 26) =~= "From my custom extension: "@);
    assert(greeting_of(name).subrange(26, 26 + name.len() as int) =~= name);
}

} // verus!
