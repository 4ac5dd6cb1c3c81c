//! Evaluates the comparison and hashing traits of any type through plain
//! functions. Handy where a container and its payload are to be put through
//! the same trait, to see that both answer alike.

use crate::ref_or_owned::forward::hash_payload;
use crate::ref_or_owned::forward::hashed_into;
use std::cmp::Ordering;
use std::collections::hash_map::DefaultHasher;
use std::hash::Hash;
use std::hash::Hasher;
use vstd::prelude::*;
use vstd::std_specs::cmp::OrdSpec;
use vstd::std_specs::cmp::PartialEqSpec;
use vstd::std_specs::cmp::PartialOrdSpec;
use vstd::std_specs::hash::DefaultHasherAdditionalSpecFns;

verus! {

/// Whether `param1 == param2`, by `PartialEq`.
pub fn eval_partial_eq<P: PartialEq<P>>(param1: &P, param2: &P) -> (equal: bool)
    ensures
        call_ensures(P::eq, (param1, param2), equal),
        P::obeys_eq_spec() ==> equal == param1.eq_spec(param2),
{
    param1.eq(param2)
}

/// Whether `param1 == param2`, for a type whose equality is total.
pub fn eval_eq<P: Eq>(param1: &P, param2: &P) -> (equal: bool)
    ensures
        call_ensures(P::eq, (param1, param2), equal),
        P::obeys_eq_spec() ==> equal == param1.eq_spec(param2),
{
    param1.eq(param2)
}

/// How `PartialOrd` orders `param1` and `param2`, which must be ordered:
/// whatever `partial_cmp` may return for them is `Some`.
pub fn eval_partial_ord<P: PartialOrd<P>>(param1: &P, param2: &P) -> (ordering: Ordering)
    requires
        forall|outcome: Option<Ordering>| #[trigger]
            call_ensures(P::partial_cmp, (param1, param2), outcome) ==> outcome is Some,
    ensures
        call_ensures(P::partial_cmp, (param1, param2), Some(ordering)),
        P::obeys_partial_cmp_spec() ==> Some(ordering) == param1.partial_cmp_spec(param2),
{
    let ordering = param1.partial_cmp(param2);
    ordering.expect("No ordering defined")
}

/// How `Ord` orders `param1` and `param2`.
pub fn eval_ord<P: Ord>(param1: &P, param2: &P) -> (ordering: Ordering)
    ensures
        call_ensures(P::cmp, (param1, param2), ordering),
        P::obeys_cmp_spec() ==> ordering == param1.cmp_spec(param2),
{
    param1.cmp(param2)
}

/// The digest of `param`: what a fresh `DefaultHasher` gives after `param`
/// was fed into it, once.
pub fn eval_hash<H: Hash>(param: &H) -> (digest: u64)
    ensures
        exists|sink: &mut DefaultHasher|
            {
                &&& sink@ == Seq::<Seq<u8>>::empty()
                &&& #[trigger] hashed_into(param, sink)
                &&& digest == DefaultHasher::spec_finish(final(sink)@)
            },
{
    let mut hasher = DefaultHasher::new();
    hash_payload(param, &mut hasher);
    hasher.finish()
}

} // verus!
