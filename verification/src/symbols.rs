//! Symbol lookup over exchange information: the search that picks, from the
//! listed symbol names, the one a caller asked for in any letter case.

use vstd::prelude::*;

verus! {

/// The uppercase form of a string. The mapping depends on the characters
/// alone; its value is stated nowhere in this crate, only the trusted
/// wrapper below ties it to the outside computation.
pub uninterp spec fn upper_of(s: Seq<char>) -> Seq<char>;

/// Relies on str::to_uppercase: the result depends on the characters alone,
/// with no locale in play.
#[verifier::external_body]
fn to_uppercase(s: &str) -> (r: String)
    ensures
        r@ == upper_of(s@),
{
    s.to_uppercase()
}

/// The position of the first listed name that equals the uppercase form of
/// the queried symbol, or nothing where no name does.
pub fn find_symbol(names: &Vec<String>, symbol: &str) -> (r: Option<usize>)
    ensures
        match r {
            Some(i) => i < names@.len() && names@[i as int]@ == upper_of(symbol@) && forall|j: int|
                0 <= j < i ==> names@[j]@ != upper_of(symbol@),
            None => forall|j: int| 0 <= j < names@.len() ==> names@[j]@ != upper_of(symbol@),
        },
{
    let upper = to_uppercase(symbol);
    let n = names.len();
    let mut i: usize = 0;
    while i < n
        invariant
            n == names@.len(),
            0 <= i <= n,
            upper@ == upper_of(symbol@),
            forall|j: int| 0 <= j < i ==> names@[j]@ != upper_of(symbol@),
        decreases n - i,
    {
        if names[i].eq(&upper) {
            return Some(i);
        }
        i += 1;
    }
    None
}

} // verus!
