//! Parsing and ordering of dotted version strings.

use std::cmp::Ordering;
use vstd::prelude::*;
use crate::numeric::{parsed_version, version_order, split_on, parse_parts, compare_parts, padded};
use crate::numeric::{
    lemma_version_order_equal, lemma_version_order_first_difference,
    lemma_version_order_antisymmetric, lemma_version_order_reflexive, lemma_version_order_transitive,
};
use crate::text::chars_of;

verus! {

/// The ordering that a comparison code of -1, 0 or 1 stands for.
pub open spec fn ordering_of(code: int) -> Ordering {
    if code < 0 {
        Ordering::Less
    } else if code == 0 {
        Ordering::Equal
    } else {
        Ordering::Greater
    }
}

/// The opposite of an ordering.
pub open spec fn reversed(o: Ordering) -> Ordering {
    match o {
        Ordering::Less => Ordering::Greater,
        Ordering::Equal => Ordering::Equal,
        Ordering::Greater => Ordering::Less,
    }
}

/// How the version `left` compares with the version `right`, if both parse.
pub open spec fn version_comparison(left: Seq<char>, right: Seq<char>) -> Option<Ordering> {
    match (parsed_version(left), parsed_version(right)) {
        (Some(l), Some(r)) => Some(ordering_of(version_order(l, r))),
        _ => None,
    }
}

/// Splits `version` at dots and reads each piece as a `u32`; `None` when
/// some piece is not a `u32` numeral (so `""`, `"1."` and `"1.x"` give `None`).
pub fn parse_version(version: &str) -> (r: Option<Vec<u32>>)
    ensures
        match r {
            Some(v) => parsed_version(version@) == Some(v@),
            None => parsed_version(version@) is None,
        },
{
    let cs = chars_of(version);
    let parts = split_on(&cs, '.');
    proof {
        let ghost views = parts@.map_values(|p: Vec<char>| p@);
        assert(views =~= crate::numeric::split_parts(version@, '.'));
    }
    parse_parts(&parts)
}

/// Compares two dotted versions component by component, the shorter one
/// padded with zeros; `None` when either does not parse.
pub fn compare_versions(left: &str, right: &str) -> (r: Option<Ordering>)
    ensures
        r == version_comparison(left@, right@),
{
    let l = match parse_version(left) {
        Some(v) => v,
        None => {
            return None;
        },
    };
    let r = match parse_version(right) {
        Some(v) => v,
        None => {
            return None;
        },
    };
    let c = compare_parts(&l, &r);
    if c < 0 {
        Some(Ordering::Less)
    } else if c == 0 {
        Some(Ordering::Equal)
    } else {
        Some(Ordering::Greater)
    }
}

/// Comparing two versions the other way round gives the opposite ordering.
pub proof fn lemma_compare_versions_antisymmetric(a: Seq<char>, b: Seq<char>)
    ensures
        match (version_comparison(a, b), version_comparison(b, a)) {
            (Some(x), Some(y)) => x == reversed(y),
            (None, None) => true,
            _ => false,
        },
{
    if let (Some(l), Some(r)) = (parsed_version(a), parsed_version(b)) {
        lemma_version_order_antisymmetric(l, r);
    }
}

/// Two versions that parse compare equal exactly when they agree in every
/// component (missing ones counting as zero); otherwise their first
/// differing component decides: older when it is smaller, newer when larger.
pub proof fn lemma_compare_versions_by_components(a: Seq<char>, b: Seq<char>, i: int)
    requires
        parsed_version(a) is Some,
        parsed_version(b) is Some,
        0 <= i,
    ensures
        ({
            let l = parsed_version(a)->0;
            let r = parsed_version(b)->0;
            &&& version_comparison(a, b) == Some(Ordering::Equal) <==> forall|j: int|
                0 <= j ==> #[trigger] padded(l, j) == padded(r, j)
            &&& (forall|j: int| 0 <= j < i ==> padded(l, j) == padded(r, j)) && padded(l, i) < padded(
                r,
                i,
            ) ==> version_comparison(a, b) == Some(Ordering::Less)
            &&& (forall|j: int| 0 <= j < i ==> padded(l, j) == padded(r, j)) && padded(l, i) > padded(
                r,
                i,
            ) ==> version_comparison(a, b) == Some(Ordering::Greater)
        }),
{
    let l = parsed_version(a)->0;
    let r = parsed_version(b)->0;
    lemma_version_order_equal(l, r);
    if (forall|j: int| 0 <= j < i ==> padded(l, j) == padded(r, j)) && padded(l, i) != padded(r, i) {
        lemma_version_order_first_difference(l, r, i);
    }
}

/// A version that parses is equal to itself.
pub proof fn lemma_compare_versions_reflexive(a: Seq<char>)
    requires
        parsed_version(a) is Some,
    ensures
        version_comparison(a, a) == Some(Ordering::Equal),
{
    lemma_version_order_reflexive(parsed_version(a)->0);
}

/// Whether an ordering says "not greater".
pub open spec fn at_most(o: Ordering) -> bool {
    o == Ordering::Less || o == Ordering::Equal
}

/// Version comparison is transitive: if `a` is not newer than `b` and `b` is
/// not newer than `c`, then `a` is not newer than `c`, and older when either
/// comparison says older.
pub proof fn lemma_compare_versions_transitive(a: Seq<char>, b: Seq<char>, c: Seq<char>)
    requires
        version_comparison(a, b) matches Some(x) && at_most(x),
        version_comparison(b, c) matches Some(y) && at_most(y),
    ensures
        version_comparison(a, c) matches Some(z) && at_most(z),
        (version_comparison(a, b) == Some(Ordering::Less) || version_comparison(b, c) == Some(
            Ordering::Less,
        )) ==> version_comparison(a, c) == Some(Ordering::Less),
{
    lemma_version_order_transitive(
        parsed_version(a)->0,
        parsed_version(b)->0,
        parsed_version(c)->0,
    );
}

} // verus!
