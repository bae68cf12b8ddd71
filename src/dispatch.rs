//! The call dispatch engine: the replay guard, the phase and privilege gates,
//! and the application of an admitted call to the ledger state.

use crate::call::{TrustedCall, TrustedCallSigned};
use crate::codec::{push_u128, u128_bytes};
use crate::crypto::{blake2_256, blake2_256_of};
use crate::error::{outcome_view, Failure, StfError};
use crate::state::{account_in, AccountInfo, StfState};
use crate::types::{AccountId, Balance, CeremonyPhaseType};
use vstd::prelude::*;
use vstd::string::StringExecFns;

verus! {

/// An encoded call for the public chain, queued by the enclave.
#[derive(Clone, Debug)]
pub struct OpaqueCall(pub Vec<u8>);

/// Two accounts with the same identity bytes.
pub open spec fn same_account(a: AccountId, b: AccountId) -> bool {
    a.view_bytes() == b.view_bytes()
}

/// The ceremony phases in which a call may be made.
pub open spec fn phase_allows(call: TrustedCall, phase: CeremonyPhaseType) -> bool {
    match call {
        TrustedCall::ceremonies_register_participant(..) => phase != CeremonyPhaseType::Assigning,
        TrustedCall::ceremonies_upgrade_registration(..) => phase != CeremonyPhaseType::Assigning,
        TrustedCall::ceremonies_unregister_participant(..) => phase != CeremonyPhaseType::Assigning,
        TrustedCall::ceremonies_claim_rewards(..) => phase != CeremonyPhaseType::Assigning,
        TrustedCall::ceremonies_attest_attendees(..) => phase == CeremonyPhaseType::Attesting,
        TrustedCall::ceremonies_attest_claims(..) => phase == CeremonyPhaseType::Attesting,
        TrustedCall::ceremonies_set_meetup_time_offset(..) => phase != CeremonyPhaseType::Registering,
        _ => true,
    }
}

/// Why a call is refused out of its phases.
pub open spec fn phase_reason(call: TrustedCall) -> Seq<char> {
    match call {
        TrustedCall::ceremonies_register_participant(..) =>
            "registering participants can only be done during registering or attesting phase"@,
        TrustedCall::ceremonies_upgrade_registration(..) =>
            "upgrading registration can only be done during registering or attesting phase"@,
        TrustedCall::ceremonies_unregister_participant(..) =>
            "unregistering participant can only be done during registering or attesting phase"@,
        TrustedCall::ceremonies_claim_rewards(..) =>
            "claiming rewards can not be done during assigning phase"@,
        TrustedCall::ceremonies_attest_attendees(..) =>
            "attendees attestation can only be done during attesting phase"@,
        TrustedCall::ceremonies_attest_claims(..) =>
            "claims attestation can only be done during attesting phase"@,
        TrustedCall::ceremonies_set_meetup_time_offset(..) =>
            "setting meetup time offset can not be done during registering phase"@,
        _ => Seq::empty(),
    }
}

/// The administrative calls, which only the ceremony master may make.
pub open spec fn needs_master(call: TrustedCall) -> bool {
    match call {
        TrustedCall::ceremonies_set_inactivity_timeout(..) => true,
        TrustedCall::ceremonies_set_endorsement_tickets_per_bootstrapper(..) => true,
        TrustedCall::ceremonies_set_endorsement_tickets_per_reputable(..) => true,
        TrustedCall::ceremonies_set_reputation_lifetime(..) => true,
        TrustedCall::ceremonies_set_meetup_time_offset(..) => true,
        TrustedCall::ceremonies_set_time_tolerance(..) => true,
        TrustedCall::ceremonies_set_location_tolerance(..) => true,
        TrustedCall::ceremonies_purge_community_ceremony(..) => true,
        TrustedCall::ceremonies_migrate_to_private_community(..) => true,
        _ => false,
    }
}

/// The calls on native balances, which this engine applies itself; the others
/// are carried out by the ledger runtime.
pub open spec fn runs_locally(call: TrustedCall) -> bool {
    match call {
        TrustedCall::balance_set_balance(..) => true,
        TrustedCall::balance_transfer(..) => true,
        TrustedCall::balance_unshield(..) => true,
        TrustedCall::balance_shield(..) => true,
        _ => false,
    }
}

/// The gates a signed call must pass before it touches the ledger, in order:
/// the nonce, the phase, then the privileges of the sender.
pub open spec fn admission(state: StfState, signed: TrustedCallSigned) -> Result<(), Failure> {
    let call = signed.call;
    let sender = call.sender();
    let expected = state.account(sender).nonce;
    if signed.nonce != expected {
        Err(Failure::InvalidNonce(expected))
    } else if !phase_allows(call, state.phase) {
        Err(Failure::Dispatch(phase_reason(call)))
    } else {
        match call {
            TrustedCall::balance_set_balance(root, ..) => match state.sudo_key {
                Some(k) if same_account(k, root) => Ok(()),
                _ => Err(Failure::MissingPrivileges(root)),
            },
            TrustedCall::balance_shield(enclave, ..) => if same_account(enclave, state.enclave_signer) {
                Ok(())
            } else {
                Err(Failure::RequireEnclaveSignerAccount)
            },
            _ => if needs_master(call) && !same_account(sender, state.ceremony_master) {
                Err(Failure::MissingPrivileges(sender))
            } else {
                Ok(())
            },
        }
    }
}

pub open spec fn with_free(info: AccountInfo, free: Balance) -> AccountInfo {
    AccountInfo { free, ..info }
}

/// What a call on native balances does to the accounts, or why it fails.
pub open spec fn local_effect(accounts: Map<Seq<u8>, AccountInfo>, call: TrustedCall) -> Result<Map<Seq<u8>, AccountInfo>, Failure> {
    match call {
        TrustedCall::balance_set_balance(_, who, free, reserved) => Ok(
            accounts.insert(who.view_bytes(), AccountInfo { free, reserved, ..account_in(accounts, who) }),
        ),
        TrustedCall::balance_transfer(from, to, value) => {
            let a = account_in(accounts, from);
            let b = account_in(accounts, to);
            if a.free < value {
                Err(Failure::Dispatch("Balance Transfer error: InsufficientBalance"@))
            } else if same_account(from, to) {
                Ok(accounts)
            } else if b.free + value > u128::MAX {
                Err(Failure::Dispatch("Balance Transfer error: Overflow"@))
            } else {
                Ok(accounts.insert(from.view_bytes(), with_free(a, (a.free - value) as u128)).insert(
                    to.view_bytes(),
                    with_free(b, (b.free + value) as u128),
                ))
            }
        },
        TrustedCall::balance_unshield(who, _, value, _) => {
            let a = account_in(accounts, who);
            if a.free < value {
                Err(Failure::MissingFunds)
            } else {
                Ok(accounts.insert(who.view_bytes(), with_free(a, (a.free - value) as u128)))
            }
        },
        TrustedCall::balance_shield(_, who, value) => {
            let a = account_in(accounts, who);
            if a.free + value > u128::MAX {
                Err(Failure::Dispatch("Shield funds error: Overflow"@))
            } else {
                Ok(accounts.insert(who.view_bytes(), with_free(a, (a.free + value) as u128)))
            }
        },
        _ => Ok(accounts),
    }
}

/// How the ledger runtime's refusal of a call is reported.
pub open spec fn runtime_prefix(call: TrustedCall) -> Seq<char> {
    match call {
        TrustedCall::encointer_balance_transfer(..) => "Encointer Balance Transfer error: "@,
        TrustedCall::encointer_set_fee_conversion_factor(..) => "Encointer Balance set fee conversion error: "@,
        TrustedCall::encointer_transfer_all(..) => "Encointer Balance transfer all error: "@,
        TrustedCall::ceremonies_register_participant(..) => "Ceremonies register participant error: "@,
        TrustedCall::ceremonies_upgrade_registration(..) => "Ceremonies upgrade registration error: "@,
        TrustedCall::ceremonies_unregister_participant(..) => "Ceremonies unregister participant error: "@,
        TrustedCall::ceremonies_attest_attendees(..) => "Ceremonies attendees attestation error: "@,
        TrustedCall::ceremonies_attest_claims(..) => "Ceremonies claims attestation error: "@,
        TrustedCall::ceremonies_endorse_newcomer(..) => "Ceremonies endorse newcomer error: "@,
        TrustedCall::ceremonies_claim_rewards(..) => "Ceremonies claim rewards error: "@,
        TrustedCall::ceremonies_set_inactivity_timeout(..) => "Ceremonies set inactivity timeout error: "@,
        TrustedCall::ceremonies_set_endorsement_tickets_per_bootstrapper(..) =>
            "Ceremonies set endorsement ticket per bootstrapper error: "@,
        TrustedCall::ceremonies_set_endorsement_tickets_per_reputable(..) =>
            "Ceremonies set endorsement ticket per reputable error: "@,
        TrustedCall::ceremonies_set_reputation_lifetime(..) => "Ceremonies set reputation lifetime error: "@,
        TrustedCall::ceremonies_set_meetup_time_offset(..) => "Ceremonies set meetup time offset error: "@,
        TrustedCall::ceremonies_set_time_tolerance(..) => "Ceremonies set time tolerance error: "@,
        TrustedCall::ceremonies_set_location_tolerance(..) => "Ceremonies set location tolerance error: "@,
        TrustedCall::ceremonies_purge_community_ceremony(..) => "Ceremonies purge community ceremony error: "@,
        TrustedCall::ceremonies_migrate_to_private_community(..) => "Ceremonies migrate to private community error: "@,
        _ => ""@,
    }
}

/// The accounts with the nonce of `who` advanced by one.
pub open spec fn bump_nonce(accounts: Map<Seq<u8>, AccountInfo>, who: AccountId) -> Map<Seq<u8>, AccountInfo> {
    let a = account_in(accounts, who);
    accounts.insert(who.view_bytes(), AccountInfo { nonce: (a.nonce + 1) as u32, ..a })
}

/// The accounts after a signed call, or why it failed; `runtime` is what the
/// ledger runtime answered for a call that it carries out.
pub open spec fn call_outcome(state: StfState, signed: TrustedCallSigned, runtime: Result<(), String>) -> Result<Map<Seq<u8>, AccountInfo>, Failure> {
    let call = signed.call;
    match admission(state, signed) {
        Err(f) => Err(f),
        Ok(()) => if runs_locally(call) {
            match local_effect(state.accounts_view(), call) {
                Err(f) => Err(f),
                Ok(m) => Ok(bump_nonce(m, call.sender())),
            }
        } else {
            match runtime {
                Err(cause) => Err(Failure::Dispatch(runtime_prefix(call) + cause@)),
                Ok(()) => Ok(bump_nonce(state.accounts_view(), call.sender())),
            }
        },
    }
}

/// The encoded instruction, for the public chain, to pay out an unshielded amount.
pub open spec fn unshield_call_bytes(
    unshield_funds_fn: Seq<u8>,
    beneficiary: AccountId,
    value: Balance,
    shard: Seq<u8>,
    call_hash: Seq<u8>,
) -> Seq<u8> {
    unshield_funds_fn + beneficiary.view_bytes() + u128_bytes(value) + shard + call_hash
}

/// The calls queued for the public chain by a successful call.
pub open spec fn queued_calls(signed: TrustedCallSigned, unshield_funds_fn: Seq<u8>) -> Seq<Seq<u8>> {
    match signed.call {
        TrustedCall::balance_unshield(_, beneficiary, value, shard) => seq![
            unshield_call_bytes(unshield_funds_fn, beneficiary, value, shard@, blake2_256_of(signed.call.bytes())),
        ],
        _ => Seq::empty(),
    }
}

pub open spec fn calls_bytes(calls: Seq<OpaqueCall>) -> Seq<Seq<u8>> {
    calls.map_values(|c: OpaqueCall| c.0@)
}

fn dispatch_error(reason: &str) -> (r: StfError)
    ensures
        r.view() == Failure::Dispatch(reason@),
{
    StfError::Dispatch(reason.to_owned())
}

fn runtime_error(prefix: &str, cause: String) -> (r: StfError)
    ensures
        r.view() == Failure::Dispatch(prefix@ + cause@),
{
    let mut m = prefix.to_owned();
    m.append(cause.as_str());
    StfError::Dispatch(m)
}

fn phase_gate(call: &TrustedCall, phase: CeremonyPhaseType) -> (r: Result<(), StfError>)
    ensures
        phase_allows(*call, phase) ==> r is Ok,
        !phase_allows(*call, phase) ==> r is Err && r->Err_0.view() == Failure::Dispatch(phase_reason(*call)),
{
    match call {
        TrustedCall::ceremonies_register_participant(..) => if phase == CeremonyPhaseType::Assigning {
            return Err(dispatch_error("registering participants can only be done during registering or attesting phase"));
        },
        TrustedCall::ceremonies_upgrade_registration(..) => if phase == CeremonyPhaseType::Assigning {
            return Err(dispatch_error("upgrading registration can only be done during registering or attesting phase"));
        },
        TrustedCall::ceremonies_unregister_participant(..) => if phase == CeremonyPhaseType::Assigning {
            return Err(dispatch_error("unregistering participant can only be done during registering or attesting phase"));
        },
        TrustedCall::ceremonies_claim_rewards(..) => if phase == CeremonyPhaseType::Assigning {
            return Err(dispatch_error("claiming rewards can not be done during assigning phase"));
        },
        TrustedCall::ceremonies_attest_attendees(..) => if phase != CeremonyPhaseType::Attesting {
            return Err(dispatch_error("attendees attestation can only be done during attesting phase"));
        },
        TrustedCall::ceremonies_attest_claims(..) => if phase != CeremonyPhaseType::Attesting {
            return Err(dispatch_error("claims attestation can only be done during attesting phase"));
        },
        TrustedCall::ceremonies_set_meetup_time_offset(..) => if phase == CeremonyPhaseType::Registering {
            return Err(dispatch_error("setting meetup time offset can not be done during registering phase"));
        },
        _ => {},
    }
    Ok(())
}

fn is_master_call(call: &TrustedCall) -> (r: bool)
    ensures
        r == needs_master(*call),
{
    match call {
        TrustedCall::ceremonies_set_inactivity_timeout(..) => true,
        TrustedCall::ceremonies_set_endorsement_tickets_per_bootstrapper(..) => true,
        TrustedCall::ceremonies_set_endorsement_tickets_per_reputable(..) => true,
        TrustedCall::ceremonies_set_reputation_lifetime(..) => true,
        TrustedCall::ceremonies_set_meetup_time_offset(..) => true,
        TrustedCall::ceremonies_set_time_tolerance(..) => true,
        TrustedCall::ceremonies_set_location_tolerance(..) => true,
        TrustedCall::ceremonies_purge_community_ceremony(..) => true,
        TrustedCall::ceremonies_migrate_to_private_community(..) => true,
        _ => false,
    }
}

/// Whether `who` is the superuser of the ledger.
pub fn is_root(state: &StfState, who: &AccountId) -> (r: bool)
    ensures
        r == (state.sudo_key matches Some(k) && same_account(k, *who)),
{
    match &state.sudo_key {
        Some(k) => k.same(who),
        None => false,
    }
}

/// Whether `who` is the enclave's own account.
pub fn ensure_enclave_signer_account(state: &StfState, who: &AccountId) -> (r: Result<(), StfError>)
    ensures
        same_account(*who, state.enclave_signer) ==> r is Ok,
        !same_account(*who, state.enclave_signer) ==> r is Err && r->Err_0.view() == Failure::RequireEnclaveSignerAccount,
{
    if who.same(&state.enclave_signer) {
        Ok(())
    } else {
        Err(StfError::RequireEnclaveSignerAccount)
    }
}

impl TrustedCallSigned {
    /// Runs the gates of `admission` against the current state, without changing it.
    pub fn check_admission(&self, state: &StfState) -> (r: Result<(), StfError>)
        requires
            state.wf(),
        ensures
            outcome_view(r) == admission(*state, *self),
    {
        let sender = self.call.sender_account();
        let expected = state.account_nonce(sender);
        if self.nonce != expected {
            return Err(StfError::InvalidNonce(expected));
        }
        match phase_gate(&self.call, state.phase) {
            Err(e) => {
                return Err(e);
            },
            Ok(()) => {},
        }
        match &self.call {
            TrustedCall::balance_set_balance(root, ..) => {
                if !is_root(state, root) {
                    return Err(StfError::MissingPrivileges(*root));
                }
            },
            TrustedCall::balance_shield(enclave, ..) => {
                return ensure_enclave_signer_account(state, enclave);
            },
            _ => {
                if is_master_call(&self.call) && !sender.same(&state.ceremony_master) {
                    return Err(StfError::MissingPrivileges(*sender));
                }
            },
        }
        Ok(())
    }
}

fn runtime_prefix_of(call: &TrustedCall) -> (r: &'static str)
    ensures
        r@ == runtime_prefix(*call),
{
    match call {
        TrustedCall::encointer_balance_transfer(..) => "Encointer Balance Transfer error: ",
        TrustedCall::encointer_set_fee_conversion_factor(..) => "Encointer Balance set fee conversion error: ",
        TrustedCall::encointer_transfer_all(..) => "Encointer Balance transfer all error: ",
        TrustedCall::ceremonies_register_participant(..) => "Ceremonies register participant error: ",
        TrustedCall::ceremonies_upgrade_registration(..) => "Ceremonies upgrade registration error: ",
        TrustedCall::ceremonies_unregister_participant(..) => "Ceremonies unregister participant error: ",
        TrustedCall::ceremonies_attest_attendees(..) => "Ceremonies attendees attestation error: ",
        TrustedCall::ceremonies_attest_claims(..) => "Ceremonies claims attestation error: ",
        TrustedCall::ceremonies_endorse_newcomer(..) => "Ceremonies endorse newcomer error: ",
        TrustedCall::ceremonies_claim_rewards(..) => "Ceremonies claim rewards error: ",
        TrustedCall::ceremonies_set_inactivity_timeout(..) => "Ceremonies set inactivity timeout error: ",
        TrustedCall::ceremonies_set_endorsement_tickets_per_bootstrapper(..) =>
            "Ceremonies set endorsement ticket per bootstrapper error: ",
        TrustedCall::ceremonies_set_endorsement_tickets_per_reputable(..) =>
            "Ceremonies set endorsement ticket per reputable error: ",
        TrustedCall::ceremonies_set_reputation_lifetime(..) => "Ceremonies set reputation lifetime error: ",
        TrustedCall::ceremonies_set_meetup_time_offset(..) => "Ceremonies set meetup time offset error: ",
        TrustedCall::ceremonies_set_time_tolerance(..) => "Ceremonies set time tolerance error: ",
        TrustedCall::ceremonies_set_location_tolerance(..) => "Ceremonies set location tolerance error: ",
        TrustedCall::ceremonies_purge_community_ceremony(..) => "Ceremonies purge community ceremony error: ",
        TrustedCall::ceremonies_migrate_to_private_community(..) => "Ceremonies migrate to private community error: ",
        _ => "",
    }
}

/// Takes `amount` from the free balance of `account`, if it covers it.
fn unshield_funds(state: &mut StfState, account: &AccountId, amount: Balance) -> (r: Result<(), StfError>)
    requires
        old(state).wf(),
    ensures
        final(state).wf(),
        final(state).same_but_accounts(old(state)),
        old(state).account(*account).free < amount ==> r is Err && r->Err_0.view() == Failure::MissingFunds
            && final(state).accounts_view() == old(state).accounts_view(),
        old(state).account(*account).free >= amount ==> r is Ok && final(state).accounts_view()
            == old(state).accounts_view().insert(
            account.view_bytes(),
            with_free(old(state).account(*account), (old(state).account(*account).free - amount) as u128),
        ),
{
    let info = state.account_info(account);
    if info.free < amount {
        return Err(StfError::MissingFunds);
    }
    state.set_account(account, AccountInfo { nonce: info.nonce, free: info.free - amount, reserved: info.reserved });
    Ok(())
}

/// Adds `amount` to the free balance of `account`.
fn shield_funds(state: &mut StfState, account: &AccountId, amount: Balance) -> (r: Result<(), StfError>)
    requires
        old(state).wf(),
    ensures
        final(state).wf(),
        final(state).same_but_accounts(old(state)),
        old(state).account(*account).free + amount > u128::MAX ==> r is Err && r->Err_0.view()
            == Failure::Dispatch("Shield funds error: Overflow"@) && final(state).accounts_view()
            == old(state).accounts_view(),
        old(state).account(*account).free + amount <= u128::MAX ==> r is Ok && final(state).accounts_view()
            == old(state).accounts_view().insert(
            account.view_bytes(),
            with_free(old(state).account(*account), (old(state).account(*account).free + amount) as u128),
        ),
{
    let info = state.account_info(account);
    if info.free > u128::MAX - amount {
        return Err(dispatch_error("Shield funds error: Overflow"));
    }
    state.set_account(account, AccountInfo { nonce: info.nonce, free: info.free + amount, reserved: info.reserved });
    Ok(())
}

impl TrustedCallSigned {
    /// Executes the call against `state`: the gates, then the operation, then
    /// the sender's nonce is advanced by one. On any failure neither the
    /// accounts nor `calls` change. Calls on native balances are applied here;
    /// for the others `runtime_result` is what the ledger runtime answered when
    /// the call was dispatched to it, and it is read only for those.
    pub fn execute(
        self,
        state: &mut StfState,
        calls: &mut Vec<OpaqueCall>,
        unshield_funds_fn: [u8; 2],
        runtime_result: Result<(), String>,
    ) -> (r: Result<(), StfError>)
        requires
            old(state).wf(),
            self.call.wf(),
            old(state).account(self.call.sender()).nonce < u32::MAX,
        ensures
            final(state).wf(),
            final(state).same_but_accounts(old(state)),
            match call_outcome(*old(state), self, runtime_result) {
                Err(f) => r is Err && r->Err_0.view() == f && final(state).accounts_view()
                    == old(state).accounts_view() && calls_bytes(final(calls)@) == calls_bytes(old(calls)@),
                Ok(m) => r is Ok && final(state).accounts_view() == m && calls_bytes(final(calls)@)
                    == calls_bytes(old(calls)@) + queued_calls(self, unshield_funds_fn@),
            },
    {
        let sender = *self.call.sender_account();
        let encoded = self.call.encode();
        let call_hash = blake2_256(encoded.as_slice());
        match self.check_admission(state) {
            Err(e) => {
                return Err(e);
            },
            Ok(()) => {},
        }
        let ghost before = state.accounts_view();
        match &self.call {
            TrustedCall::balance_set_balance(_, who, free, reserved) => {
                let info = state.account_info(who);
                state.set_account(who, AccountInfo { nonce: info.nonce, free: *free, reserved: *reserved });
            },
            TrustedCall::balance_transfer(from, to, value) => {
                let a = state.account_info(from);
                if a.free < *value {
                    return Err(dispatch_error("Balance Transfer error: InsufficientBalance"));
                }
                if !from.same(to) {
                    let b = state.account_info(to);
                    if b.free > u128::MAX - *value {
                        return Err(dispatch_error("Balance Transfer error: Overflow"));
                    }
                    state.set_account(from, AccountInfo { nonce: a.nonce, free: a.free - *value, reserved: a.reserved });
                    state.set_account(to, AccountInfo { nonce: b.nonce, free: b.free + *value, reserved: b.reserved });
                }
            },
            TrustedCall::balance_unshield(who, beneficiary, value, shard) => {
                match unshield_funds(state, who, *value) {
                    Err(e) => {
                        return Err(e);
                    },
                    Ok(()) => {},
                }
                let mut bytes: Vec<u8> = Vec::new();
                bytes.extend_from_slice(unshield_funds_fn.as_slice());
                beneficiary.encode_to(&mut bytes);
                push_u128(&mut bytes, *value);
                bytes.extend_from_slice(shard.as_slice());
                bytes.extend_from_slice(call_hash.as_slice());
                assert(bytes@ =~= unshield_call_bytes(unshield_funds_fn@, *beneficiary, *value, shard@, blake2_256_of(self.call.bytes())));
                calls.push(OpaqueCall(bytes));
            },
            TrustedCall::balance_shield(_, who, value) => {
                match shield_funds(state, who, *value) {
                    Err(e) => {
                        return Err(e);
                    },
                    Ok(()) => {},
                }
            },
            _ => {
                match runtime_result {
                    Err(cause) => {
                        return Err(runtime_error(runtime_prefix_of(&self.call), cause));
                    },
                    Ok(()) => {},
                }
            },
        }
        assert(state.account(sender).nonce == account_in(before, sender).nonce);
        let info = state.account_info(&sender);
        state.set_account(&sender, AccountInfo { nonce: info.nonce + 1, free: info.free, reserved: info.reserved });
        assert(calls_bytes(calls@) =~= calls_bytes(old(calls)@) + queued_calls(self, unshield_funds_fn@));
        Ok(())
    }
}

} // verus!
