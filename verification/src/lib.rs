//! A greeting formatter: one pure function from a name to the greeting text
//! built around it. The text is fixed; there is no locale and no state.

use vstd::prelude::*;
use vstd::string::*;

verus! {

/// The greeting for `name`: the fixed opening, the name exactly as given, and
/// the closing exclamation mark.
pub open spec fn greeting(name: Seq<char>) -> Seq<char> {
    "Hola, "@ + name + "!"@
}

/// The greeting spelled out character by character: six opening characters,
/// then the name untouched, then the exclamation mark.
pub proof fn lemma_greeting_layout(name: Seq<char>)
    ensures
        greeting(name).len() == name.len() + 7,
        greeting(name).subrange(0, 6) == seq!['H', 'o', 'l', 'a', ',', ' '],
        greeting(name).subrange(6, greeting(name).len() - 1) == name,
        greeting(name).last() == '!',
{
    reveal_strlit("Hola, ");
    reveal_strlit("!");
}

/// A greeting depends on the name alone: whenever two names are equal, the
/// greetings built for them are equal too.
pub proof fn lemma_greeting_deterministic(
    first_name: Seq<char>,
    second_name: Seq<char>,
    first_out: Seq<char>,
    second_out: Seq<char>,
)
    requires
        first_name == second_name,
        first_out == greeting(first_name),
        second_out == greeting(second_name),
    ensures
        first_out == second_out,
{
}

/// Builds the greeting for `name`.
///
/// Every name is accepted, the empty one included, and nothing of it is
/// altered: the result is `greeting` of the name, seven characters longer
/// than the name and so never empty.
pub fn greet(name: &str) -> (out: String)
    ensures
        out@ == greeting(name@),
        out@.len() == name@.len() + 7,
{
    let mut out = String::from_str("Hola, ");
    out.append(name);
    out.append("!");
    proof {
        lemma_greeting_layout(name@);
    }
    out
}

} // verus!
