//! The host environment: its clock and the sequences of numbers it carries
//! between contracts.
//!
//! What is stated here of the host is taken on trust from `soroban_sdk`; the
//! rest of the library is proved from it. The host ends an invocation that
//! exhausts its resource budget, whatever it was doing; that stands outside
//! these statements, as running out of memory does elsewhere.

use vstd::prelude::*;

verus! {

/// `soroban_sdk::Env`, the handle on the host that runs the contract.
#[verifier::external_type_specification]
#[verifier::external_body]
pub struct ExEnv(soroban_sdk::Env);

/// `soroban_sdk::Vec`, a sequence of values kept by the host.
#[verifier::external_type_specification]
#[verifier::external_body]
#[verifier::reject_recursive_types(T)]
pub struct ExHostVec<T>(soroban_sdk::Vec<T>);

/// `soroban_sdk::Error`, the reason a host value could not be read as the
/// type asked for.
#[verifier::external_type_specification]
#[verifier::external_body]
pub struct ExHostError(soroban_sdk::Error);

/// What a host sequence of numbers holds, in order. An entry is `None` where
/// the host keeps a value there that is not a 128-bit signed integer.
pub uninterp spec fn host_items(v: soroban_sdk::Vec<i128>) -> Seq<Option<i128>>;

/// `soroban_sdk::ledger::Ledger::timestamp`, reached through
/// `soroban_sdk::Env::ledger`: the close time of the current ledger in
/// seconds since the Unix epoch. Nothing is claimed of the value.
#[verifier::external_body]
pub(crate) fn ledger_timestamp(env: &soroban_sdk::Env) -> (now: u64) {
    env.ledger().timestamp()
}

/// `soroban_sdk::Vec::new`: a fresh sequence that holds nothing.
#[verifier::external_body]
pub(crate) fn host_vec_new(env: &soroban_sdk::Env) -> (v: soroban_sdk::Vec<i128>)
    ensures
        host_items(v) == Seq::<Option<i128>>::empty(),
{
    soroban_sdk::Vec::new(env)
}

/// `soroban_sdk::Vec::push_back`: the sequence grows by one entry at its
/// end, which is the number given; the entries before it stay.
#[verifier::external_body]
pub(crate) fn host_vec_push_back(v: &mut soroban_sdk::Vec<i128>, x: i128)
    ensures
        host_items(*final(v)) == host_items(*old(v)).push(Some(x)),
{
    v.push_back(x)
}

/// `soroban_sdk::Vec::try_get`: `Ok(None)` past the end, `Ok(Some(x))` where
/// the entry at `i` is the number `x`, and an error where the entry is not a
/// number.
#[verifier::external_body]
pub(crate) fn host_vec_try_get(v: &soroban_sdk::Vec<i128>, i: u32) -> (r: Result<Option<i128>, soroban_sdk::Error>)
    ensures
        i >= host_items(*v).len() ==> r is Ok && r->Ok_0 is None,
        i < host_items(*v).len() && host_items(*v)[i as int] is Some ==> r is Ok && r->Ok_0
            == host_items(*v)[i as int],
        i < host_items(*v).len() && host_items(*v)[i as int] is None ==> r is Err,
{
    v.try_get(i)
}

} // verus!
