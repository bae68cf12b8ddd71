//! A fresh ledger on which a participant registers.

use crate::call::TrustedCall;
use crate::dispatch::OpaqueCall;
use crate::error::StfError;
use crate::state::StfState;
use crate::types::{CeremonyPhaseType, CommunityIdentifier, KeyPair, ShardIdentifier};
use vstd::prelude::*;

verus! {

/// Registers `sender` as a bootstrapper of `cid` on a fresh ledger in the
/// registering phase, with `sender` as ceremony master and enclave account.
/// The call is signed for nonce zero; the runtime's answer is `runtime_result`.
/// Returns the ledger afterwards and the outcome, which is success exactly when
/// the runtime accepted the registration, and then the sender's nonce is one.
pub fn test_register_bootstrapper(
    sender: &KeyPair,
    cid: CommunityIdentifier,
    mrenclave: &[u8; 32],
    shard: &ShardIdentifier,
    runtime_result: Result<(), String>,
) -> (r: (StfState, Result<(), StfError>))
    ensures
        r.0.wf(),
        r.1 is Ok <==> runtime_result is Ok,
        r.1 is Ok ==> r.0.account(sender.account()).nonce == 1,
        r.1 is Err ==> r.0.account(sender.account()).nonce == 0,
{
    let who = sender.public();
    let mut state = StfState::new(CeremonyPhaseType::Registering, None, who, who);
    let mut calls: Vec<OpaqueCall> = Vec::new();
    let signed = TrustedCall::ceremonies_register_participant(who, cid, None).sign(sender, 0, mrenclave, shard);
    let result = signed.execute(&mut state, &mut calls, [0u8, 0u8], runtime_result);
    (state, result)
}

} // verus!
