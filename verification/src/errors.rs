//! Flattening a worker error and its cause chain into the one display string
//! shown in the dismissible banner.

use vstd::prelude::*;
use vstd::string::StringExecFns;

verus! {

/// The separator between an error and its cause in the banner text.
pub open spec fn separator() -> Seq<char> {
    ": "@
}

/// The banner text of the first `i` links of a cause chain: each link
/// appended in order, separated by `separator()`.
pub open spec fn flat_prefix(cs: Seq<Seq<char>>, i: int) -> Seq<char>
    decreases i,
{
    if i <= 0 {
        Seq::empty()
    } else if i == 1 {
        cs[0]
    } else {
        flat_prefix(cs, i - 1) + separator() + cs[i - 1]
    }
}

/// The banner text of a whole cause chain.
pub open spec fn flattened(cs: Seq<Seq<char>>) -> Seq<char> {
    flat_prefix(cs, cs.len() as int)
}

/// Joins an error's cause chain, most general first, into one display
/// string, each cause appended after a separator.
pub fn flatten_error_chain(chain: &Vec<String>) -> (r: String)
    ensures
        r@ == flattened(chain@.map_values(|s: String| s@)),
{
    let ghost cs = chain@.map_values(|s: String| s@);
    let mut acc = String::new();
    if chain.len() == 0 {
        return acc;
    }
    acc.append(chain[0].as_str());
    let mut i: usize = 1;
    while i < chain.len()
        invariant
            1 <= i <= chain.len(),
            cs == chain@.map_values(|s: String| s@),
            cs.len() == chain@.len(),
            acc@ == flat_prefix(cs, i as int),
        decreases chain.len() - i,
    {
        acc.append(": ");
        acc.append(chain[i].as_str());
        proof {
            assert(cs[i as int] == chain@[i as int]@);
        }
        i = i + 1;
    }
    acc
}

} // verus!
