//! Keys of the stored routes and configuration checks.

use crate::error::ContractError;
use crate::types::Config;
use vstd::prelude::*;

verus! {

/// Lexicographic order of texts by code point, the order of `str`'s `<`.
pub open spec fn text_lt(a: Seq<char>, b: Seq<char>) -> bool
    decreases a.len(),
{
    if a.len() == 0 {
        b.len() > 0
    } else if b.len() == 0 {
        false
    } else if a[0] != b[0] {
        (a[0] as int) < (b[0] as int)
    } else {
        text_lt(a.drop_first(), b.drop_first())
    }
}

/// `<` on `str` (`PartialOrd::lt`): lexicographic by byte, which for UTF-8 text is
/// lexicographic by code point.
#[verifier::external_body]
fn str_lt(a: &str, b: &str) -> (r: bool)
    ensures
        r == text_lt(a@, b@),
{
    a < b
}

/// The text order is a strict total order: irreflexive, asymmetric, and any two
/// different texts are ordered one way.
pub proof fn lemma_text_lt_total(a: Seq<char>, b: Seq<char>)
    ensures
        !text_lt(a, a),
        text_lt(a, b) ==> !text_lt(b, a),
        a != b ==> text_lt(a, b) || text_lt(b, a),
    decreases a.len(),
{
    if a.len() > 0 && b.len() > 0 {
        lemma_text_lt_total(a.drop_first(), b.drop_first());
        lemma_text_lt_total(a.drop_first(), a.drop_first());
        if a[0] != b[0] {
            assert((a[0] as int) != (b[0] as int));
        }
        if a[0] == b[0] && a.drop_first() == b.drop_first() {
            assert(a =~= b) by {
                assert forall|i: int| 0 <= i < a.len() implies a[i] == b[i] by {
                    if i > 0 {
                        assert(a[i] == a.drop_first()[i - 1]);
                        assert(b[i] == b.drop_first()[i - 1]);
                    }
                }
            }
        }
    } else if a.len() > 0 {
        lemma_text_lt_total(a.drop_first(), a.drop_first());
    } else if b.len() == 0 {
        assert(a =~= b);
    }
}

/// The storage key of the route between two denominations: the pair in text order.
pub open spec fn route_key_spec(source_denom: Seq<char>, target_denom: Seq<char>) -> (
    Seq<char>,
    Seq<char>,
) {
    if text_lt(source_denom, target_denom) {
        (source_denom, target_denom)
    } else {
        (target_denom, source_denom)
    }
}

/// The key under which the route between the two denominations is stored.
pub fn route_key(source_denom: &str, target_denom: &str) -> (r: (String, String))
    ensures
        (r.0@, r.1@) == route_key_spec(source_denom@, target_denom@),
{
    if str_lt(source_denom, target_denom) {
        (source_denom.to_owned(), target_denom.to_owned())
    } else {
        (target_denom.to_owned(), source_denom.to_owned())
    }
}

/// A route is stored under the same key whichever of its denominations is named
/// first, so it is found from either end.
pub proof fn law_route_key_symmetric(a: Seq<char>, b: Seq<char>)
    ensures
        route_key_spec(a, b) == route_key_spec(b, a),
{
    lemma_text_lt_total(a, b);
    lemma_text_lt_total(a, a);
}

/// Routes between different pairs of denominations get different keys.
pub proof fn law_route_key_distinguishes_pairs(a: Seq<char>, b: Seq<char>, c: Seq<char>, d: Seq<char>)
    requires
        route_key_spec(a, b) == route_key_spec(c, d),
    ensures
        (a == c && b == d) || (a == d && b == c),
{
}

impl Config {
    /// Checks the configuration; every configuration is accepted.
    pub fn validate(self) -> (r: Result<(), ContractError>)
        ensures
            r is Ok,
    {
        Ok(())
    }
}

} // verus!
