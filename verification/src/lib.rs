use vstd::prelude::*;
use vstd::string::StringExecFns;

verus! {

/// The literal placed before the name in every greeting.
pub open spec fn greeting_prefix() -> Seq<char> {
    "Hello, "@
}

/// The literal placed after the name in every greeting.
pub open spec fn greeting_suffix() -> Seq<char> {
    "! This is Rust speaking!"@
}

/// The greeting for a given name: the prefix, the name unchanged, the suffix.
pub open spec fn greeting(name: Seq<char>) -> Seq<char> {
    greeting_prefix() + name + greeting_suffix()
}

/// Builds the greeting for `name`: `"Hello, "`, then `name` unchanged, then
/// `"! This is Rust speaking!"`. The result is exactly `greeting(name@)`.
pub fn greet(name: &str) -> (r: String)
    ensures
        r@ == greeting(name@),
{
    let mut out = String::from_str("Hello, ");
    out.append(name);
    out.append("! This is Rust speaking!");
    out
}

/// The greeting embeds the name unchanged: it starts with the prefix, the
/// name follows the prefix as a contiguous subrange, and the suffix closes it.
pub proof fn lemma_greeting_embeds_name(name: Seq<char>)
    ensures
        greeting(name).subrange(0, greeting_prefix().len() as int) == greeting_prefix(),
        greeting(name).subrange(
            greeting_prefix().len() as int,
            greeting_prefix().len() + name.len() as int,
        ) == name,
        greeting(name).subrange(
            greeting_prefix().len() + name.len() as int,
            greeting(name).len() as int,
        ) == greeting_suffix(),
{
    assert(greeting(name).subrange(0, greeting_prefix().len() as int) =~= greeting_prefix());
    assert(greeting(name).subrange(
        greeting_prefix().len() as int,
        greeting_prefix().len() + name.len() as int,
    ) =~= name);
    assert(greeting(name).subrange(
        greeting_prefix().len() + name.len() as int,
        greeting(name).len() as int,
    ) =~= greeting_suffix());
}

/// The greeting is a function of the name alone: equal names give equal
/// greetings, so repeated calls of `greet` on one input return one output.
pub proof fn lemma_greeting_deterministic(a: Seq<char>, b: Seq<char>)
    requires
        a == b,
    ensures
        greeting(a) == greeting(b),
{
}

/// The greeting's length is exactly the prefix's, the name's and the
/// suffix's lengths added.
pub proof fn lemma_greeting_len(name: Seq<char>)
    ensures
        greeting(name).len() == greeting_prefix().len() + name.len()
            + greeting_suffix().len(),
{
}

} // verus!
