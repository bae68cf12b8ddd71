//! Properties that tie the engine's operations together.

use crate::call::{call_payload, TrustedCall, TrustedCallSigned};
use crate::dispatch::{call_outcome, phase_allows, phase_reason, same_account};
use crate::error::Failure;
use crate::getter::{
    getter_result, registry_entries, registry_slot, signed_getter_result,
    trusted_result, Getter, TrustedGetterSigned,
};
use crate::state::{account_in, StfState};
use crate::storage_proof::entry_check;
use crate::types::{AccountId, Balance, CommunityCeremony, Index, KeyPair, ShardIdentifier};
use vstd::prelude::*;

verus! {

/// A call signed with the key of its own sender verifies for the same nonce,
/// enclave and shard.
pub proof fn lemma_signature_round_trip(
    call: TrustedCall,
    pair: KeyPair,
    nonce: Index,
    mrenclave: Seq<u8>,
    shard: Seq<u8>,
    signed: TrustedCallSigned,
)
    requires
        signed.call.bytes() == call.bytes(),
        signed.call.sender() == call.sender(),
        signed.nonce == nonce,
        signed.signature.valid_for(call_payload(call, nonce, mrenclave, shard), pair.public_bytes()),
        pair.public_bytes() == call.sender().view_bytes(),
    ensures
        signed.signature_valid(mrenclave, shard),
{
}

/// A getter signed with the key of its own signer verifies.
pub proof fn lemma_getter_signature_round_trip(pair: KeyPair, signed: TrustedGetterSigned)
    requires
        signed.signature.valid_for(signed.getter.bytes(), pair.public_bytes()),
        pair.public_bytes() == signed.getter.sender().view_bytes(),
    ensures
        signed.signature_valid(),
{
}

/// After a call succeeds, its sender's nonce is one more than the call's, and
/// submitting the same signed call again fails with that nonce as the one expected.
pub proof fn lemma_replay_rejected(
    before: StfState,
    after: StfState,
    signed: TrustedCallSigned,
    first: Result<(), String>,
    again: Result<(), String>,
)
    requires
        before.account(signed.call.sender()).nonce < u32::MAX,
        call_outcome(before, signed, first) is Ok,
        after.accounts_view() == call_outcome(before, signed, first)->Ok_0,
        after.same_but_accounts(&before),
    ensures
        after.account(signed.call.sender()).nonce == signed.nonce + 1,
        call_outcome(after, signed, again) == Err::<Map<Seq<u8>, crate::state::AccountInfo>, Failure>(
            Failure::InvalidNonce((signed.nonce + 1) as u32),
        ),
{
}

/// A confidential getter signed by anyone but the ceremony master reads
/// nothing; signed validly by the master it reads the ledger.
pub proof fn lemma_confidential_getters(state: StfState, g: TrustedGetterSigned)
    requires
        g.getter.is_confidential(),
    ensures
        !same_account(g.getter.sender(), state.ceremony_master) ==> signed_getter_result(state, g) is None,
        same_account(g.getter.sender(), state.ceremony_master) && g.signature_valid() ==> signed_getter_result(state, g)
            == trusted_result(state, g.getter),
{
}

/// Once a proof confirms a value, any other claimed value for the same key and
/// proof is refused as wrong.
pub proof fn lemma_tampered_value_rejected(
    root: Seq<u8>,
    key: Seq<u8>,
    value: Option<Seq<u8>>,
    other: Option<Seq<u8>>,
    nodes: Seq<Seq<u8>>,
)
    requires
        entry_check(root, key, value, Some(nodes)) is Ok,
        other != value,
    ensures
        entry_check(root, key, other, Some(nodes)) == Err::<(), crate::storage_proof::ProofError>(
            crate::storage_proof::ProofError::WrongValue,
        ),
{
}

proof fn lemma_registry_entries_same(s1: StfState, s2: StfState, item: &str, cc: CommunityCeremony, n: nat)
    requires
        s1.storage_view() == s2.storage_view(),
    ensures
        registry_entries(s1, item, cc, n) == registry_entries(s2, item, cc, n),
    decreases n,
{
    if n > 0 {
        lemma_registry_entries_same(s1, s2, item, cc, (n - 1) as nat);
        assert(registry_slot(s1, item, cc, n) == registry_slot(s2, item, cc, n));
    }
}

/// A getter reads the same bytes from two states that hold the same accounts,
/// pallet values and ceremony master; in particular it reads the same bytes
/// each time it runs on an unchanged state (and running it changes nothing,
/// as it only borrows the state).
pub proof fn lemma_getter_idempotent(s1: StfState, s2: StfState, g: Getter)
    requires
        s1.accounts_view() == s2.accounts_view(),
        s1.storage_view() == s2.storage_view(),
        s1.ceremony_master == s2.ceremony_master,
    ensures
        getter_result(s1, g) == getter_result(s2, g),
{
    assert forall|item: &str, cc: CommunityCeremony, n: nat| registry_entries(s1, item, cc, n) == registry_entries(s2, item, cc, n) by {
        lemma_registry_entries_same(s1, s2, item, cc, n);
    }
}

/// A call submitted with the right nonce outside the phases it is allowed in
/// fails with its phase reason, whatever the runtime would answer.
pub proof fn lemma_out_of_phase_rejected(state: StfState, signed: TrustedCallSigned, runtime: Result<(), String>)
    requires
        signed.nonce == state.account(signed.call.sender()).nonce,
        !phase_allows(signed.call, state.phase),
    ensures
        call_outcome(state, signed, runtime) == Err::<Map<Seq<u8>, crate::state::AccountInfo>, Failure>(
            Failure::Dispatch(phase_reason(signed.call)),
        ),
{
}

/// Unshielding more than the free balance fails with missing funds;
/// unshielding exactly the free balance succeeds and leaves it at zero.
pub proof fn lemma_unshield_guard(
    state: StfState,
    signed: TrustedCallSigned,
    who: AccountId,
    beneficiary: AccountId,
    value: Balance,
    shard: ShardIdentifier,
    runtime: Result<(), String>,
)
    requires
        signed.call == TrustedCall::balance_unshield(who, beneficiary, value, shard),
        signed.nonce == state.account(who).nonce,
        state.account(who).nonce < u32::MAX,
    ensures
        value > state.account(who).free ==> call_outcome(state, signed, runtime)
            == Err::<Map<Seq<u8>, crate::state::AccountInfo>, Failure>(Failure::MissingFunds),
        value == state.account(who).free ==> call_outcome(state, signed, runtime) is Ok
            && account_in(call_outcome(state, signed, runtime)->Ok_0, who).free == 0,
{
}

} // verus!
