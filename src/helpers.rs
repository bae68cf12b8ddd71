//! Ledger facts that the engine reads from the state: the privileged role and
//! the ceremony phase.

use crate::dispatch::same_account;
use crate::getter::stored;
use crate::state::StfState;
use crate::storage::storage_value_key;
use crate::codec::{decode_fixed_header, fixed_items};
use crate::types::{AccountId, CeremonyPhaseType, CommunityIdentifier};
use crate::updates::{community_identifiers_key, current_phase_key};
use vstd::prelude::*;

verus! {

/// Whether `account_id` holds the ceremony master role, which alone may read
/// confidential ceremony data and set ceremony parameters. Evaluated afresh on
/// every call; it never changes the state.
pub fn is_ceremony_master(state: &StfState, account_id: AccountId) -> (r: bool)
    ensures
        r == same_account(account_id, state.ceremony_master),
{
    account_id.same(&state.ceremony_master)
}

/// The storage key of the identifiers of the communities kept in the confidential state.
pub fn private_community_ids_storage_key() -> (r: Vec<u8>)
    ensures
        r@ == community_identifiers_key(),
{
    storage_value_key("EncointerCommunities", "CommunityIdentifiers")
}

/// The storage key of the current ceremony phase.
pub fn current_ceremony_phase_storage_key() -> (r: Vec<u8>)
    ensures
        r@ == current_phase_key(),
{
    storage_value_key("EncointerScheduler", "CurrentPhase")
}

/// The phase whose encoding is exactly `bytes`, if any.
pub open spec fn phase_of_bytes(bytes: Seq<u8>) -> Option<CeremonyPhaseType> {
    if bytes.len() != 1 {
        None
    } else if bytes[0] == 0 {
        Some(CeremonyPhaseType::Registering)
    } else if bytes[0] == 1 {
        Some(CeremonyPhaseType::Assigning)
    } else if bytes[0] == 2 {
        Some(CeremonyPhaseType::Attesting)
    } else {
        None
    }
}

/// The current ceremony phase as stored in the state, if it is stored and well formed.
pub fn current_ceremony_phase(state: &StfState) -> (r: Option<CeremonyPhaseType>)
    requires
        state.wf(),
    ensures
        r == match stored(*state, current_phase_key()) {
            Some(b) => phase_of_bytes(b),
            None => None,
        },
{
    let key = current_ceremony_phase_storage_key();
    match state.storage_get(key.as_slice()) {
        Some(v) => {
            if v.len() != 1 {
                None
            } else if v[0] == 0 {
                Some(CeremonyPhaseType::Registering)
            } else if v[0] == 1 {
                Some(CeremonyPhaseType::Assigning)
            } else if v[0] == 2 {
                Some(CeremonyPhaseType::Attesting)
            } else {
                None
            }
        },
        None => None,
    }
}

/// The communities whose identifiers the state lists as kept confidential, as
/// read from their storage value; nothing if it is missing or does not decode.
pub fn private_community_ids(state: &StfState) -> (r: Option<Vec<CommunityIdentifier>>)
    requires
        state.wf(),
    ensures
        match stored(*state, community_identifiers_key()) {
            None => r is None,
            Some(b) => match fixed_items(b, 9) {
                None => r is None,
                Some(items) => r is Some && r->Some_0@.len() == items.len() && forall|i: int|
                    0 <= i < items.len() ==> #[trigger] r->Some_0@[i].bytes() == items[i],
            },
        },
{
    let key = private_community_ids_storage_key();
    let b = match state.storage_get(key.as_slice()) {
        None => {
            return None;
        },
        Some(b) => b,
    };
    let (k, n) = match decode_fixed_header(b.as_slice(), 9) {
        None => {
            return None;
        },
        Some(h) => h,
    };
    let ghost items = fixed_items(b@, 9)->Some_0;
    let len = b.len();
    let mut out: Vec<CommunityIdentifier> = Vec::new();
    let mut i: usize = 0;
    while i < n
        invariant
            i <= n,
            n == items.len(),
            k + 9 * n <= b@.len(),
            b@.len() == len,
            items == Seq::new(n as nat, |x: int| b@.subrange(k + 9 * x, k + 9 * x + 9)),
            out@.len() == i,
            forall|x: int| 0 <= x < i ==> #[trigger] out@[x].bytes() == items[x],
        decreases n - i,
    {
        assert(k + 9 * i + 9 <= k + 9 * n) by (nonlinear_arith)
            requires
                i < n,
        ;
        let off: usize = k + 9 * i;
        let mut geohash = [0u8; 5];
        let mut digest = [0u8; 4];
        let mut j: usize = 0;
        while j < 5
            invariant
                j <= 5,
                off + 9 <= b@.len(),
                b@.len() == len,
                geohash@.len() == 5,
                forall|y: int| 0 <= y < j ==> geohash@[y] == b@[off + y],
            decreases 5 - j,
        {
            geohash.set(j, b[off + j]);
            j = j + 1;
        }
        let mut j: usize = 0;
        while j < 4
            invariant
                j <= 4,
                off + 9 <= b@.len(),
                b@.len() == len,
                digest@.len() == 4,
                forall|y: int| 0 <= y < j ==> digest@[y] == b@[off + 5 + y],
            decreases 4 - j,
        {
            digest.set(j, b[off + 5 + j]);
            j = j + 1;
        }
        let c = CommunityIdentifier { geohash, digest };
        assert(c.bytes() =~= items[i as int]);
        out.push(c);
        i = i + 1;
    }
    Some(out)
}

/// Whether `community_identifier` is among the communities kept confidential.
pub fn is_private_community(state: &StfState, community_identifier: &CommunityIdentifier) -> (r: bool)
    requires
        state.wf(),
    ensures
        r == (match stored(*state, community_identifiers_key()) {
            None => false,
            Some(b) => match fixed_items(b, 9) {
                None => false,
                Some(items) => items.contains(community_identifier.bytes()),
            },
        }),
{
    let ids = match private_community_ids(state) {
        None => {
            return false;
        },
        Some(ids) => ids,
    };
    let ghost items = fixed_items(stored(*state, community_identifiers_key())->Some_0, 9)->Some_0;
    let mut i: usize = 0;
    while i < ids.len()
        invariant
            i <= ids@.len(),
            ids@.len() == items.len(),
            stored(*state, community_identifiers_key()) is Some,
            fixed_items(stored(*state, community_identifiers_key())->Some_0, 9) == Some(items),
            forall|x: int| 0 <= x < ids@.len() ==> #[trigger] ids@[x].bytes() == items[x],
            forall|x: int| 0 <= x < i ==> items[x] != community_identifier.bytes(),
        decreases ids@.len() - i,
    {
        if ids[i].same(community_identifier) {
            assert(items[i as int] == community_identifier.bytes());
            assert(items.contains(community_identifier.bytes()));
            return true;
        }
        i = i + 1;
    }
    assert(!items.contains(community_identifier.bytes()));
    false
}

} // verus!
