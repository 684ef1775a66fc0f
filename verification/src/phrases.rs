//! The fixed phrase lists shown around the REPL (parting words on exit and
//! the "thinking" verbs shown while a model call is in flight), with a
//! random pick that is proved to stay within the list.

use vstd::prelude::*;

verus! {

/// Relies on rand::random_range: a random number drawn from `0..n`, which
/// is always strictly below `n`. The range must be non-empty.
#[verifier::external_body]
fn random_below(n: usize) -> (r: usize)
    requires
        n > 0,
    ensures
        r < n,
{
    rand::random_range(0..n)
}

/// The parting phrases, in their fixed order.
pub open spec fn spec_goodbyes() -> Seq<Seq<char>> {
    seq![
        "Catch you on the flip side!"@,
        "Keep it 100!"@,
        "Stay classy!"@,
        "Later, alligator!"@,
        "See ya!"@,
        "Cheers!"@,
        "Bye!"@,
        "Until next time!"@,
    ]
}

/// The parting phrase at index `i`.
pub fn goodbye_phrase(i: usize) -> (r: &'static str)
    requires
        i < spec_goodbyes().len(),
    ensures
        r@ == spec_goodbyes()[i as int],
{
    if i == 0 {
        "Catch you on the flip side!"
    } else if i == 1 {
        "Keep it 100!"
    } else if i == 2 {
        "Stay classy!"
    } else if i == 3 {
        "Later, alligator!"
    } else if i == 4 {
        "See ya!"
    } else if i == 5 {
        "Cheers!"
    } else if i == 6 {
        "Bye!"
    } else {
        "Until next time!"
    }
}

/// A randomly chosen parting phrase; always one of the fixed list.
pub fn random_goodbye() -> (r: &'static str)
    ensures
        exists|i: int| 0 <= i < spec_goodbyes().len() && r@ == spec_goodbyes()[i],
{
    let i = random_below(8);
    let r = goodbye_phrase(i);
    proof {
        assert(r@ == spec_goodbyes()[i as int]);
    }
    r
}

/// The "thinking" verbs, in their fixed order.
pub open spec fn spec_thinking_words() -> Seq<Seq<char>> {
    seq![
        "Simmering"@,
        "Sparkling"@,
        "Zesting"@,
        "Julienning"@,
        "Marinating"@,
        "Cerebrating"@,
        "Cogitating"@,
        "Ruminating"@,
        "Pondering"@,
        "Clauding"@,
        "Razzmatazzing"@,
    ]
}

/// The "thinking" verb at index `i`.
pub fn thinking_word(i: usize) -> (r: &'static str)
    requires
        i < spec_thinking_words().len(),
    ensures
        r@ == spec_thinking_words()[i as int],
{
    if i == 0 {
        "Simmering"
    } else if i == 1 {
        "Sparkling"
    } else if i == 2 {
        "Zesting"
    } else if i == 3 {
        "Julienning"
    } else if i == 4 {
        "Marinating"
    } else if i == 5 {
        "Cerebrating"
    } else if i == 6 {
        "Cogitating"
    } else if i == 7 {
        "Ruminating"
    } else if i == 8 {
        "Pondering"
    } else if i == 9 {
        "Clauding"
    } else {
        "Razzmatazzing"
    }
}

/// A randomly chosen "thinking" verb; always one of the fixed list.
pub fn random_thinking_word() -> (r: &'static str)
    ensures
        exists|i: int| 0 <= i < spec_thinking_words().len() && r@ == spec_thinking_words()[i],
{
    let i = random_below(11);
    let r = thinking_word(i);
    proof {
        assert(r@ == spec_thinking_words()[i as int]);
    }
    r
}

} // verus!
