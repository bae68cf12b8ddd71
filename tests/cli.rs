use ita_stf::call::{TrustedCall, TrustedOperation};
use ita_stf::cli::{
    BalanceCommand, TransferAllCommand,
    CeremoniesCommands, ClaimRewardsCommand, CommandContext, ListParticipantsCommand,
    MakeCommunityPrivateCommand, RegisterParticipantCommand, TrustedEncointerBaseCli,
};
use ita_stf::getter::{Getter, TrustedGetter};
use ita_stf::setup::test_register_bootstrapper;
use ita_stf::types::{AccountId, CommunityIdentifier, KeyPair, Location, I64F64};

fn context(nonce: u32, direct: bool) -> CommandContext {
    CommandContext {
        signer: KeyPair::Ed25519([3; 32]),
        mrenclave: [1; 32],
        shard: [2; 32],
        nonce,
        direct,
        community: CommunityIdentifier { geohash: *b"u0qj9", digest: [1, 2, 3, 4] },
        accounts: vec![],
        ceremony_index: 4,
        meetup_index: None,
        meetup_count: 3,
        proof: None,
        locations: vec![Location { lat: I64F64 { bits: 1 << 64 }, lon: I64F64 { bits: -(1 << 63) } }],
    }
}

#[test]
fn register_participant_submits_one_signed_call() {
    let ctx = context(7, true);
    let cmd = CeremoniesCommands::RegisterParticipant(RegisterParticipantCommand {
        who: "alice".to_string(),
        community_id: "u0qj9".to_string(),
        reputation: None,
    });
    let ops = cmd.run(&ctx);
    assert_eq!(ops.len(), 1);
    match &ops[0] {
        TrustedOperation::direct_call(s) => {
            assert_eq!(s.nonce, 7);
            assert!(matches!(s.call, TrustedCall::ceremonies_register_participant(w, _, None) if w.0 == ctx.signer.public().0));
            assert!(s.verify_signature(&ctx.mrenclave, &ctx.shard));
        },
        other => panic!("unexpected {:?}", other),
    }
}

#[test]
fn claim_all_rewards_uses_consecutive_nonces() {
    let ctx = context(5, false);
    let cmd = CeremoniesCommands::ClaimRewards(ClaimRewardsCommand {
        who: "alice".to_string(),
        community_id: "u0qj9".to_string(),
        meetup_index: None,
        all: true,
    });
    let ops = cmd.run(&ctx);
    assert_eq!(ops.len(), 3);
    for (i, op) in ops.iter().enumerate() {
        match op {
            TrustedOperation::indirect_call(s) => {
                assert_eq!(s.nonce, 5 + i as u32);
                assert!(matches!(s.call, TrustedCall::ceremonies_claim_rewards(_, _, Some(m)) if m == i as u64 + 1));
            },
            other => panic!("unexpected {:?}", other),
        }
    }
}

#[test]
fn list_participants_reads_four_registries() {
    let ctx = context(0, true);
    let cmd = CeremoniesCommands::ListParticipants(ListParticipantsCommand {
        who: "master".to_string(),
        community_id: "u0qj9".to_string(),
    });
    let ops = cmd.run(&ctx);
    assert_eq!(ops.len(), 4);
    match &ops[3] {
        TrustedOperation::get(Getter::trusted(g)) => {
            assert!(matches!(g.getter, TrustedGetter::ceremonies_registered_newbies(_, _, 4)));
            assert!(g.verify_signature());
        },
        other => panic!("unexpected {:?}", other),
    }
}

#[test]
fn make_community_private_submits_migration() {
    let ctx = context(2, true);
    let cmd = TrustedEncointerBaseCli::MakeCommunityPrivate(MakeCommunityPrivateCommand {
        who: "master".to_string(),
        community_id: "u0qj9".to_string(),
    });
    let ops = cmd.run(&ctx);
    assert_eq!(ops.len(), 1);
    match &ops[0] {
        TrustedOperation::direct_call(s) => {
            assert!(matches!(&s.call, TrustedCall::ceremonies_migrate_to_private_community(_, _, l) if l.len() == 1));
        },
        other => panic!("unexpected {:?}", other),
    }
}

#[test]
fn register_bootstrapper_on_fresh_ledger() {
    let sender = KeyPair::Sr25519([6; 32]);
    let cid = CommunityIdentifier { geohash: *b"u0qj9", digest: [1, 2, 3, 4] };
    let (state, result) = test_register_bootstrapper(&sender, cid, &[0; 32], &[0; 32], Ok(()));
    assert!(result.is_ok());
    assert_eq!(state.account_nonce(&sender.public()), 1);
    let (state, result) = test_register_bootstrapper(&sender, cid, &[0; 32], &[0; 32], Err("closed".to_string()));
    assert!(result.is_err());
    assert_eq!(state.account_nonce(&sender.public()), 0);
}

#[test]
fn transfer_all_and_balance_commands() {
    let mut ctx = context(1, false);
    ctx.accounts = vec![AccountId([8; 32])];
    let t = TransferAllCommand { from: "a".to_string(), to: "b".to_string(), community_id: "u0qj9".to_string() };
    match t.run(&ctx) {
        TrustedOperation::indirect_call(s) => {
            assert!(matches!(s.call, TrustedCall::encointer_transfer_all(_, to, _) if to.0 == [8; 32]));
            assert!(s.verify_signature(&ctx.mrenclave, &ctx.shard));
        },
        other => panic!("unexpected {:?}", other),
    }
    let b = BalanceCommand { account: "a".to_string(), community_id: None };
    assert!(matches!(b.run(&ctx), TrustedOperation::get(Getter::trusted(g)) if matches!(g.getter, TrustedGetter::free_balance(_))));
}
