//! The client's commands, as the trusted operations they submit.
//!
//! A command names accounts and a community by their textual form; the client
//! resolves those (and looks up keys, nonces and chain values) and hands them
//! over in a [`CommandContext`]. What to submit is decided here.

use crate::codec::{fixed_items, push_u32, u32_bytes};
use crate::codec::decode_fixed_header;
use crate::call::{call_payload, TrustedCall, TrustedCallSigned, TrustedOperation};
use crate::getter::{Getter, PublicGetter, TrustedGetter};
use crate::types::{
    AccountId, CeremonyIndexType, CommunityIdentifier, Index, KeyPair, Location, MeetupIndexType,
    ProofOfAttendance, ShardIdentifier,
};
use vstd::prelude::*;

verus! {

/// Attest the attendees of a meetup.
#[derive(Debug, Clone)]
pub struct AttestAttendeesCommand {
    pub who: String,
    pub community_id: String,
    pub attestations: Vec<String>,
}

/// Claim rewards for one meetup, or for all meetups of the last ceremony.
#[derive(Debug, Clone)]
pub struct ClaimRewardsCommand {
    pub who: String,
    pub community_id: String,
    pub meetup_index: Option<String>,
    pub all: bool,
}

/// Show the public counts of a community's ceremony.
#[derive(Debug, Clone)]
pub struct CommunityInfosCommand {
    pub who: String,
    pub community_id: String,
}

/// List the attestations of a ceremony (ceremony master only).
#[derive(Debug, Clone)]
pub struct ListAttesteesCommand {
    pub who: String,
    pub community_id: String,
}

/// List the meetup assignments of a ceremony (ceremony master only).
#[derive(Debug, Clone)]
pub struct ListMeetupsCommand {
    pub who: String,
    pub community_id: String,
}

/// List the registered participants of a ceremony (ceremony master only).
#[derive(Debug, Clone)]
pub struct ListParticipantsCommand {
    pub who: String,
    pub community_id: String,
}

/// Register for the next ceremony, with a proof of past attendance if reputation is claimed.
#[derive(Debug, Clone)]
pub struct RegisterParticipantCommand {
    pub who: String,
    pub community_id: String,
    pub reputation: Option<String>,
}

/// Upgrade a registration with a proof of past attendance.
#[derive(Debug, Clone)]
pub struct UpgradeRegistrationCommand {
    pub who: String,
    pub community_id: String,
    pub reputation: Option<String>,
}

/// Transfer a whole community balance.
#[derive(Debug, Clone)]
pub struct TransferAllCommand {
    pub from: String,
    pub to: String,
    pub community_id: String,
}

/// Advance the public chain to its next ceremony phase.
#[derive(Debug, Clone)]
pub struct NextPhaseCommand {
    pub from: String,
}

/// Query a confidential balance, native or in a community currency.
#[derive(Debug, Clone)]
pub struct BalanceCommand {
    pub account: String,
    pub community_id: Option<String>,
}

/// Move a community's locations into the confidential state (ceremony master only).
#[derive(Debug, Clone)]
pub struct MakeCommunityPrivateCommand {
    pub who: String,
    pub community_id: String,
}

#[derive(Debug, Clone)]
pub enum CeremoniesCommands {
    AttestAttendees(AttestAttendeesCommand),
    ClaimRewards(ClaimRewardsCommand),
    CommunityInfos(CommunityInfosCommand),
    ListAttestees(ListAttesteesCommand),
    ListMeetups(ListMeetupsCommand),
    ListParticipants(ListParticipantsCommand),
    RegisterParticipant(RegisterParticipantCommand),
    UpgradeRegistration(UpgradeRegistrationCommand),
}

#[derive(Debug, Clone)]
pub enum TrustedEncointerBaseCli {
    MakeCommunityPrivate(MakeCommunityPrivateCommand),
}

/// What the client resolved for a command.
#[derive(Debug, Clone)]
pub struct CommandContext {
    /// The key of the command's signer (`who` or `from`).
    pub signer: KeyPair,
    pub mrenclave: [u8; 32],
    pub shard: ShardIdentifier,
    /// The signer's current nonce in the confidential state.
    pub nonce: Index,
    /// Whether to send the operation directly to the enclave rather than through the chain.
    pub direct: bool,
    /// The community the command names.
    pub community: CommunityIdentifier,
    /// The other accounts the command names, in order.
    pub accounts: Vec<AccountId>,
    /// The ceremony the command is about.
    pub ceremony_index: CeremonyIndexType,
    /// The meetup the command names, if any.
    pub meetup_index: Option<MeetupIndexType>,
    /// How many meetups the ceremony had.
    pub meetup_count: MeetupIndexType,
    /// The proof of attendance for a claimed reputation, if one was made.
    pub proof: Option<ProofOfAttendance>,
    /// The community's locations, as the public chain holds them.
    pub locations: Vec<Location>,
}

/// `op` submits `call` with `nonce`, signed by the context's signer for its enclave and shard.
pub open spec fn submits_call(op: TrustedOperation, call: TrustedCall, nonce: Index, ctx: CommandContext) -> bool {
    let signed_ok = |s: TrustedCallSigned|
        s.call.same_as(call) && s.nonce == nonce && s.signature.valid_for(
            call_payload(call, nonce, ctx.mrenclave@, ctx.shard@),
            ctx.signer.public_bytes(),
        );
    match op {
        TrustedOperation::direct_call(s) => ctx.direct && signed_ok(s),
        TrustedOperation::indirect_call(s) => !ctx.direct && signed_ok(s),
        TrustedOperation::get(_) => false,
    }
}

/// `op` reads `getter`, signed by the context's signer.
pub open spec fn submits_read(op: TrustedOperation, getter: TrustedGetter, ctx: CommandContext) -> bool {
    match op {
        TrustedOperation::get(Getter::trusted(s)) => s.getter == getter && s.signature.valid_for(
            getter.bytes(),
            ctx.signer.public_bytes(),
        ),
        _ => false,
    }
}

pub open spec fn submits_public(op: TrustedOperation, getter: PublicGetter) -> bool {
    match op {
        TrustedOperation::get(Getter::public(g)) => g == getter,
        _ => false,
    }
}

fn call_op(ctx: &CommandContext, call: TrustedCall, nonce: Index) -> (r: TrustedOperation)
    requires
        call.wf(),
    ensures
        submits_call(r, call, nonce, *ctx),
{
    let signed = call.sign(&ctx.signer, nonce, &ctx.mrenclave, &ctx.shard);
    signed.into_trusted_operation(ctx.direct)
}

fn read_op(ctx: &CommandContext, getter: TrustedGetter) -> (r: TrustedOperation)
    ensures
        submits_read(r, getter, *ctx),
{
    TrustedOperation::get(Getter::trusted(getter.sign(&ctx.signer)))
}

impl CeremoniesCommands {
    /// The operations the command submits, in order.
    pub fn run(&self, ctx: &CommandContext) -> (r: Vec<TrustedOperation>)
        requires
            ctx.accounts@.len() < u32::MAX,
            self matches CeremoniesCommands::UpgradeRegistration(_) ==> ctx.proof is Some,
            self matches CeremoniesCommands::ClaimRewards(c) && c.all ==> ctx.nonce + ctx.meetup_count
                <= u32::MAX,
        ensures
            ({
                let who = ctx.signer.account();
                let cc = ctx.community;
                let ci = ctx.ceremony_index;
                match *self {
                    CeremoniesCommands::AttestAttendees(_) => r@.len() == 1 && submits_call(
                        r@[0],
                        TrustedCall::ceremonies_attest_attendees(who, cc, (ctx.accounts@.len() + 1) as u32, ctx.accounts),
                        ctx.nonce,
                        *ctx,
                    ),
                    CeremoniesCommands::ClaimRewards(c) => if c.all {
                        r@.len() == ctx.meetup_count && forall|i: int| 0 <= i < r@.len() ==> submits_call(
                            #[trigger] r@[i],
                            TrustedCall::ceremonies_claim_rewards(who, cc, Some((i + 1) as u64)),
                            (ctx.nonce + i) as u32,
                            *ctx,
                        )
                    } else {
                        r@.len() == 1 && submits_call(
                            r@[0],
                            TrustedCall::ceremonies_claim_rewards(who, cc, ctx.meetup_index),
                            ctx.nonce,
                            *ctx,
                        )
                    },
                    CeremoniesCommands::CommunityInfos(_) => r@.len() == 3
                        && submits_public(r@[0], PublicGetter::ceremonies_registered_bootstrappers_count(cc, ci))
                        && submits_public(r@[1], PublicGetter::ceremonies_meetup_count(cc, ci))
                        && submits_public(r@[2], PublicGetter::ceremonies_assignment_counts(cc, ci)),
                    CeremoniesCommands::ListAttestees(_) => r@.len() == 1 + ctx.accounts@.len()
                        && submits_public(r@[0], PublicGetter::ceremonies_attestation_count(cc, ci))
                        && forall|i: int| 0 <= i < ctx.accounts@.len() ==> submits_read(
                            #[trigger] r@[i + 1],
                            TrustedGetter::ceremonies_participant_attestation_index(who, cc, ci, ctx.accounts@[i]),
                            *ctx,
                        ),
                    CeremoniesCommands::ListMeetups(_) => r@.len() == 2
                        && submits_public(r@[0], PublicGetter::ceremonies_meetup_count(cc, ci))
                        && submits_read(r@[1], TrustedGetter::ceremonies_assignments(who, cc, ci), *ctx),
                    CeremoniesCommands::ListParticipants(_) => r@.len() == 4
                        && submits_read(r@[0], TrustedGetter::ceremonies_registered_bootstrappers(who, cc, ci), *ctx)
                        && submits_read(r@[1], TrustedGetter::ceremonies_registered_reputables(who, cc, ci), *ctx)
                        && submits_read(r@[2], TrustedGetter::ceremonies_registered_endorsees(who, cc, ci), *ctx)
                        && submits_read(r@[3], TrustedGetter::ceremonies_registered_newbies(who, cc, ci), *ctx),
                    CeremoniesCommands::RegisterParticipant(_) => r@.len() == 1 && submits_call(
                        r@[0],
                        TrustedCall::ceremonies_register_participant(who, cc, ctx.proof),
                        ctx.nonce,
                        *ctx,
                    ),
                    CeremoniesCommands::UpgradeRegistration(_) => r@.len() == 1 && submits_call(
                        r@[0],
                        TrustedCall::ceremonies_upgrade_registration(who, cc, ctx.proof->Some_0),
                        ctx.nonce,
                        *ctx,
                    ),
                }
            }),
    {
        let who = ctx.signer.public();
        let cc = ctx.community;
        let ci = ctx.ceremony_index;
        let mut ops: Vec<TrustedOperation> = Vec::new();
        match self {
            CeremoniesCommands::AttestAttendees(_) => {
                let attestations = crate::call::copy_vec(&ctx.accounts);
                let n = (ctx.accounts.len() + 1) as u32;
                ops.push(call_op(ctx, TrustedCall::ceremonies_attest_attendees(who, cc, n, attestations), ctx.nonce));
            },
            CeremoniesCommands::ClaimRewards(c) => {
                if c.all {
                    let mut i: u64 = 0;
                    while i < ctx.meetup_count
                        invariant
                            i <= ctx.meetup_count,
                            ctx.nonce + ctx.meetup_count <= u32::MAX,
                            ops@.len() == i,
                            who == ctx.signer.account(),
                            forall|j: int| 0 <= j < i ==> submits_call(
                                #[trigger] ops@[j],
                                TrustedCall::ceremonies_claim_rewards(ctx.signer.account(), cc, Some((j + 1) as u64)),
                                (ctx.nonce + j) as u32,
                                *ctx,
                            ),
                        decreases ctx.meetup_count - i,
                    {
                        let nonce = ctx.nonce + i as u32;
                        ops.push(call_op(ctx, TrustedCall::ceremonies_claim_rewards(who, cc, Some(i + 1)), nonce));
                        i = i + 1;
                    }
                } else {
                    ops.push(call_op(ctx, TrustedCall::ceremonies_claim_rewards(who, cc, ctx.meetup_index), ctx.nonce));
                }
            },
            CeremoniesCommands::CommunityInfos(_) => {
                ops.push(TrustedOperation::get(Getter::public(PublicGetter::ceremonies_registered_bootstrappers_count(cc, ci))));
                ops.push(TrustedOperation::get(Getter::public(PublicGetter::ceremonies_meetup_count(cc, ci))));
                ops.push(TrustedOperation::get(Getter::public(PublicGetter::ceremonies_assignment_counts(cc, ci))));
            },
            CeremoniesCommands::ListAttestees(_) => {
                ops.push(TrustedOperation::get(Getter::public(PublicGetter::ceremonies_attestation_count(cc, ci))));
                let mut i: usize = 0;
                while i < ctx.accounts.len()
                    invariant
                        i <= ctx.accounts@.len(),
                        ops@.len() == i + 1,
                        submits_public(ops@[0], PublicGetter::ceremonies_attestation_count(cc, ci)),
                        who == ctx.signer.account(),
                        forall|j: int| 0 <= j < i ==> submits_read(
                            #[trigger] ops@[j + 1],
                            TrustedGetter::ceremonies_participant_attestation_index(ctx.signer.account(), cc, ci, ctx.accounts@[j]),
                            *ctx,
                        ),
                    decreases ctx.accounts@.len() - i,
                {
                    ops.push(read_op(ctx, TrustedGetter::ceremonies_participant_attestation_index(who, cc, ci, ctx.accounts[i])));
                    i = i + 1;
                }
            },
            CeremoniesCommands::ListMeetups(_) => {
                ops.push(TrustedOperation::get(Getter::public(PublicGetter::ceremonies_meetup_count(cc, ci))));
                ops.push(read_op(ctx, TrustedGetter::ceremonies_assignments(who, cc, ci)));
            },
            CeremoniesCommands::ListParticipants(_) => {
                ops.push(read_op(ctx, TrustedGetter::ceremonies_registered_bootstrappers(who, cc, ci)));
                ops.push(read_op(ctx, TrustedGetter::ceremonies_registered_reputables(who, cc, ci)));
                ops.push(read_op(ctx, TrustedGetter::ceremonies_registered_endorsees(who, cc, ci)));
                ops.push(read_op(ctx, TrustedGetter::ceremonies_registered_newbies(who, cc, ci)));
            },
            CeremoniesCommands::RegisterParticipant(_) => {
                ops.push(call_op(ctx, TrustedCall::ceremonies_register_participant(who, cc, ctx.proof), ctx.nonce));
            },
            CeremoniesCommands::UpgradeRegistration(_) => {
                if let Some(attendance) = ctx.proof {
                    ops.push(call_op(ctx, TrustedCall::ceremonies_upgrade_registration(who, cc, attendance), ctx.nonce));
                }
            },
        }
        ops
    }
}

impl TrustedEncointerBaseCli {
    /// The operations the command submits, in order.
    pub fn run(&self, ctx: &CommandContext) -> (r: Vec<TrustedOperation>)
        requires
            ctx.locations@.len() <= u32::MAX,
        ensures
            match *self {
                TrustedEncointerBaseCli::MakeCommunityPrivate(_) => r@.len() == 1 && submits_call(
                    r@[0],
                    TrustedCall::ceremonies_migrate_to_private_community(
                        ctx.signer.account(),
                        ctx.community,
                        ctx.locations,
                    ),
                    ctx.nonce,
                    *ctx,
                ),
            },
    {
        let who = ctx.signer.public();
        let mut ops: Vec<TrustedOperation> = Vec::new();
        match self {
            TrustedEncointerBaseCli::MakeCommunityPrivate(_) => {
                let locations = crate::call::copy_vec(&ctx.locations);
                ops.push(call_op(
                    ctx,
                    TrustedCall::ceremonies_migrate_to_private_community(who, ctx.community, locations),
                    ctx.nonce,
                ));
            },
        }
        ops
    }
}

impl TransferAllCommand {
    /// Transfers the signer's whole balance in the community to the first named account.
    pub fn run(&self, ctx: &CommandContext) -> (r: TrustedOperation)
        requires
            ctx.accounts@.len() >= 1,
        ensures
            submits_call(
                r,
                TrustedCall::encointer_transfer_all(ctx.signer.account(), ctx.accounts@[0], ctx.community),
                ctx.nonce,
                *ctx,
            ),
    {
        let from = ctx.signer.public();
        call_op(ctx, TrustedCall::encointer_transfer_all(from, ctx.accounts[0], ctx.community), ctx.nonce)
    }
}

impl BalanceCommand {
    /// Reads the signer's native free balance, or its balance in the community if one is named.
    pub fn run(&self, ctx: &CommandContext) -> (r: TrustedOperation)
        ensures
            self.community_id is Some ==> submits_read(
                r,
                TrustedGetter::encointer_balance(ctx.signer.account(), ctx.community),
                *ctx,
            ),
            self.community_id is None ==> submits_read(r, TrustedGetter::free_balance(ctx.signer.account()), *ctx),
    {
        let who = ctx.signer.public();
        match &self.community_id {
            Some(_) => read_op(ctx, TrustedGetter::encointer_balance(who, ctx.community)),
            None => read_op(ctx, TrustedGetter::free_balance(who)),
        }
    }
}

/// The accounts that a getter's encoded list holds; nothing if there is no
/// list or it does not decode.
pub fn decode_participants(encoded_participants: Option<Vec<u8>>) -> (r: Option<Vec<AccountId>>)
    ensures
        match encoded_participants {
            None => r is None,
            Some(b) => match fixed_items(b@, 32) {
                None => r is None,
                Some(items) => r is Some && r->Some_0@.len() == items.len() && forall|i: int|
                    0 <= i < items.len() ==> #[trigger] r->Some_0@[i].view_bytes() == items[i],
            },
        },
{
    let b = match encoded_participants {
        None => {
            return None;
        },
        Some(b) => b,
    };
    let (k, n) = match decode_fixed_header(b.as_slice(), 32) {
        None => {
            return None;
        },
        Some(h) => h,
    };
    let ghost items = fixed_items(b@, 32)->Some_0;
    let len = b.len();
    let mut out: Vec<AccountId> = Vec::new();
    let mut i: usize = 0;
    while i < n
        invariant
            i <= n,
            n == items.len(),
            k + 32 * n <= b@.len(),
            b@.len() == len,
            items == Seq::new(n as nat, |x: int| b@.subrange(k + 32 * x, k + 32 * x + 32)),
            out@.len() == i,
            forall|x: int| 0 <= x < i ==> #[trigger] out@[x].view_bytes() == items[x],
        decreases n - i,
    {
        assert(k + 32 * i + 32 <= k + 32 * n) by (nonlinear_arith)
            requires
                i < n,
        ;
        assert(b@.len() <= usize::MAX);
        let off: usize = k + 32 * i;
        let mut a = [0u8; 32];
        let mut j: usize = 0;
        while j < 32
            invariant
                j <= 32,
                off + 32 <= b@.len(),
                b@.len() == len,
                a@.len() == 32,
                forall|y: int| 0 <= y < j ==> a@[y] == b@[off + y],
            decreases 32 - j,
        {
            a.set(j, b[off + j]);
            j = j + 1;
        }
        assert(a@ =~= items[i as int]);
        out.push(AccountId(a));
        i = i + 1;
    }
    Some(out)
}

/// A proof, signed by `attendee`, that it attended ceremony `cindex` of `cid`
/// together with `prover`: the signature covers the prover and the ceremony index.
pub fn prove_attendance(prover: &AccountId, cid: CommunityIdentifier, cindex: CeremonyIndexType, attendee: &KeyPair) -> (r: ProofOfAttendance)
    ensures
        r.prover_public == *prover,
        r.community_identifier == cid,
        r.ceremony_index == cindex,
        r.attendee_public == attendee.account(),
        r.attendee_signature.valid_for(prover.view_bytes() + u32_bytes(cindex), attendee.public_bytes()),
{
    let mut msg: Vec<u8> = Vec::new();
    prover.encode_to(&mut msg);
    push_u32(&mut msg, cindex);
    assert(msg@ =~= prover.view_bytes() + u32_bytes(cindex));
    ProofOfAttendance {
        prover_public: *prover,
        ceremony_index: cindex,
        community_identifier: cid,
        attendee_public: attendee.public(),
        attendee_signature: attendee.sign(msg.as_slice()),
    }
}

} // verus!
