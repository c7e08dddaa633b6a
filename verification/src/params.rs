//! Looking a parameter up in a decoded query string or form body.

use vstd::prelude::*;
use crate::web::pairs_view;

verus! {

/// The value of the first pair of `pairs` that is named `name`.
pub open spec fn first_value(pairs: Seq<(Seq<char>, Seq<char>)>, name: Seq<char>) -> Option<
    Seq<char>,
>
    decreases pairs.len(),
{
    if pairs.len() == 0 {
        None
    } else if pairs[0].0 == name {
        Some(pairs[0].1)
    } else {
        first_value(pairs.drop_first(), name)
    }
}

/// A pair that is not named `name` does not change what is found behind it.
pub proof fn lemma_first_value_skip(pairs: Seq<(Seq<char>, Seq<char>)>, name: Seq<char>, i: int)
    requires
        0 <= i < pairs.len(),
        pairs[i].0 != name,
    ensures
        first_value(pairs.skip(i), name) == first_value(pairs.skip(i + 1), name),
{
    assert(pairs.skip(i).drop_first() =~= pairs.skip(i + 1));
}

/// A parameter that is found is the value of one of the pairs, and no pair
/// before that one carries the name.
pub proof fn lemma_first_value_is_first(pairs: Seq<(Seq<char>, Seq<char>)>, name: Seq<char>)
    ensures
        first_value(pairs, name) is Some <==> exists|i: int|
            0 <= i < pairs.len() && #[trigger] pairs[i].0 == name,
        first_value(pairs, name) is Some ==> exists|i: int|
            0 <= i < pairs.len() && #[trigger] pairs[i] == (name, first_value(pairs, name)->0)
                && forall|j: int| 0 <= j < i ==> (#[trigger] pairs[j]).0 != name,
    decreases pairs.len(),
{
    if pairs.len() == 0 {
    } else if pairs[0].0 == name {
        assert(pairs[0] == (name, first_value(pairs, name)->0));
    } else {
        let rest = pairs.drop_first();
        lemma_first_value_is_first(rest, name);
        if first_value(rest, name) is Some {
            let k = choose|i: int|
                0 <= i < rest.len() && #[trigger] rest[i] == (name, first_value(rest, name)->0)
                    && forall|j: int| 0 <= j < i ==> (#[trigger] rest[j]).0 != name;
            assert(pairs[k + 1] == rest[k]);
            assert forall|j: int| 0 <= j < k + 1 implies (#[trigger] pairs[j]).0 != name by {
                if j > 0 {
                    assert(pairs[j] == rest[j - 1]);
                }
            }
        }
        if exists|i: int| 0 <= i < pairs.len() && #[trigger] pairs[i].0 == name {
            let k = choose|i: int| 0 <= i < pairs.len() && #[trigger] pairs[i].0 == name;
            assert(rest[k - 1] == pairs[k]);
        }
    }
}

/// Finds the value of the first parameter named `name`.
pub fn find_param(pairs: &Vec<(String, String)>, name: &str) -> (r: Option<String>)
    ensures
        crate::token_info::opt_view(r) == first_value(pairs_view(pairs@), name@),
{
    let ghost all = pairs_view(pairs@);
    let wanted = name.to_owned();
    let mut i: usize = 0;
    proof {
        assert(all.skip(0) =~= all);
    }
    while i < pairs.len()
        invariant
            i <= pairs.len(),
            all == pairs_view(pairs@),
            wanted@ == name@,
            first_value(all, name@) == first_value(all.skip(i as int), name@),
        decreases pairs.len() - i,
    {
        if pairs[i].0 == wanted {
            proof {
                assert(all.skip(i as int)[0] == all[i as int]);
            }
            return Some(pairs[i].1.clone());
        }
        proof {
            lemma_first_value_skip(all, name@, i as int);
        }
        i += 1;
    }
    None
}

} // verus!
