use vrf_game::vrf::init_vrf;
use vrf_game::vrf_client::{init_client, request_randomness};
use vrf_game::{
    GameError, GameState, InitClient, InitClientParams, InitVrf, InitVrfParams, LedgerError,
    OracleUnavailable, Pubkey, RandomnessRequested, RequestRandomness,
    RequestRandomnessParams, TokenAccount, VRFKey,
    VrfAccount, VrfClientCreated, VrfClientErrorCode, VrfClientState, MAX_RESULT,
};

fn id(tag: u8) -> Pubkey {
    Pubkey::new([tag; 32])
}

fn fresh(balance: u64) -> InitClient {
    InitClient {
        game: GameState {
            owner: Pubkey::default(),
            owner_choice: 0,
            joinee: None,
            winner: None,
            bet_amount: 0,
            result: None,
            room_creation_time: 0,
            payout_disbursed: false,
        },
        escrow_token_account: TokenAccount { amount: 0 },
        user_token_account: TokenAccount { amount: balance },
        state: VrfClientState::default(),
        state_key: id(3),
        state_bump: 251,
        vrf: VrfAccount { key: id(4), authority: id(3), result_buffer: [0u8; 32] },
        payer: id(1),
    }
}

fn params(max_result: u64, choice: u64, bet_amount: u64) -> InitClientParams {
    InitClientParams { max_result, game_id: String::from("table-7"), choice, bet_amount }
}

fn join_of(create: &InitClient, balance: u64) -> RequestRandomness {
    RequestRandomness {
        state: create.state,
        state_key: id(3),
        game: create.game,
        vrf: VrfAccount { key: id(4), authority: id(3), result_buffer: [0u8; 32] },
        escrow_token_account: create.escrow_token_account,
        user_token_account: TokenAccount { amount: balance },
        joinee: id(2),
    }
}

fn join_params() -> RequestRandomnessParams {
    RequestRandomnessParams {
        permission_bump: 1,
        switchboard_state_bump: 2,
        game_id: String::from("table-7"),
    }
}

#[test]
fn creation_sets_up_match_state_and_escrow() {
    let mut ctx = fresh(1000);
    let out = init_client(&mut ctx, params(10, 1, 100), 1234);
    assert_eq!(out, Ok(VrfClientCreated { vrf_client: id(3), max_result: 10, timestamp: 1234 }));
    assert_eq!(
        ctx.game,
        GameState {
            owner: id(1),
            owner_choice: 1,
            joinee: None,
            winner: None,
            bet_amount: 100,
            result: None,
            room_creation_time: 1234,
            payout_disbursed: false,
        }
    );
    assert_eq!(
        ctx.state,
        VrfClientState {
            bump: 251,
            max_result: 10,
            result_buffer: [0u8; 32],
            result: 0,
            timestamp: 0,
            vrf: id(4),
        }
    );
    assert_eq!(ctx.escrow_token_account.amount, 100);
    assert_eq!(ctx.user_token_account.amount, 900);
    // the game that pays on a claim creates the same match
    let mut other = fresh(1000);
    assert_eq!(vrf_game::vrf::init_client(&mut other, params(10, 1, 100), 1234), out);
    assert_eq!(other, ctx);
}

#[test]
fn every_bound_up_to_the_cap_is_accepted() {
    for max_result in 1..=1337u64 {
        let mut ctx = fresh(1000);
        assert_eq!(ctx.validate(&params(max_result, 0, 100)), Ok(()));
        let out = InitClient::actuate(&mut ctx, &params(max_result, 0, 100), 5);
        assert_eq!(out, Ok(VrfClientCreated { vrf_client: id(3), max_result, timestamp: 5 }));
        assert_eq!(ctx.state.max_result, max_result);
    }
}

#[test]
fn bound_above_the_cap_is_refused() {
    assert_eq!(MAX_RESULT, 1337);
    for max_result in [1338u64, 5000, u64::MAX] {
        let mut ctx = fresh(1000);
        let before = ctx;
        assert_eq!(
            ctx.validate(&params(max_result, 0, 100)),
            Err(VrfClientErrorCode::MaxResultExceedsMaximum)
        );
        let out = init_client(&mut ctx, params(max_result, 0, 100), 5);
        assert_eq!(out, Err(GameError::Client(VrfClientErrorCode::MaxResultExceedsMaximum)));
        assert_eq!(ctx, before);
        let out = InitClient::actuate(&mut ctx, &params(max_result, 0, 100), 5);
        assert_eq!(out, Err(GameError::Client(VrfClientErrorCode::MaxResultExceedsMaximum)));
        assert_eq!(ctx, before);
    }
}

#[test]
fn zero_bound_means_the_cap() {
    let mut zero = fresh(1000);
    let mut cap = fresh(1000);
    let a = init_client(&mut zero, params(0, 1, 100), 77);
    let b = init_client(&mut cap, params(1337, 1, 100), 77);
    assert_eq!(a, b);
    assert_eq!(a, Ok(VrfClientCreated { vrf_client: id(3), max_result: 1337, timestamp: 77 }));
    assert_eq!(zero, cap);
    assert_eq!(zero.state.max_result, 1337);
}

#[test]
fn creation_needs_the_oracle_authority_to_be_the_client_state() {
    let mut ctx = fresh(1000);
    ctx.vrf.authority = id(8);
    let before = ctx;
    assert_eq!(
        ctx.validate(&params(10, 0, 100)),
        Err(VrfClientErrorCode::InvalidVrfAuthorityError)
    );
    // the authority is looked at before the bound
    let out = init_client(&mut ctx, params(2000, 0, 100), 5);
    assert_eq!(out, Err(GameError::Client(VrfClientErrorCode::InvalidVrfAuthorityError)));
    assert_eq!(ctx, before);
}

#[test]
fn creation_fails_whole_when_the_owner_is_short() {
    let mut ctx = fresh(99);
    let before = ctx;
    let out = init_client(&mut ctx, params(10, 0, 100), 5);
    assert_eq!(out, Err(GameError::Ledger(LedgerError::InsufficientFunds)));
    assert_eq!(ctx, before);
}

#[test]
fn creation_fails_whole_when_escrow_would_overflow() {
    let mut ctx = fresh(1000);
    ctx.escrow_token_account.amount = u64::MAX - 99;
    let before = ctx;
    let out = init_client(&mut ctx, params(10, 0, 100), 5);
    assert_eq!(out, Err(GameError::Ledger(LedgerError::Overflow)));
    assert_eq!(ctx, before);
}

#[test]
fn set_up_records_the_oracle_account() {
    let blank = VrfClientState::default();
    let mut ctx = InitVrf {
        state: VRFKey { key: Pubkey::default() },
        vrf_state: blank,
        vrf: id(4),
        payer: id(1),
    };
    assert_eq!(ctx.validate(&InitVrfParams {}), Ok(()));
    assert_eq!(init_vrf(&mut ctx, InitVrfParams {}), Ok(()));
    assert_eq!(
        ctx,
        InitVrf { state: VRFKey { key: id(4) }, vrf_state: blank, vrf: id(4), payer: id(1) }
    );
    let kept = VrfClientState { max_result: 9, result: 3, ..blank };
    let mut again =
        InitVrf { state: VRFKey { key: id(7) }, vrf_state: kept, vrf: id(5), payer: id(1) };
    assert_eq!(InitVrf::actuate(&mut again, &InitVrfParams {}), Ok(()));
    assert_eq!(again.state.key, id(5));
    assert_eq!(again.vrf_state, kept);
}

#[test]
fn join_puts_the_second_stake_into_escrow() {
    let mut create = fresh(1000);
    init_client(&mut create, params(10, 0, 100), 5).unwrap();
    let mut join = join_of(&create, 400);
    join.state.result = 9;
    assert_eq!(join.validate(&join_params()), Ok(()));
    let out = request_randomness(&mut join, join_params(), Ok(()), 6);
    assert_eq!(out, Ok(RandomnessRequested { vrf_client: id(3), max_result: 10, timestamp: 6 }));
    assert_eq!(join.game.joinee, Some(id(2)));
    assert_eq!(join.game.owner, id(1));
    assert_eq!(join.game.winner, None);
    assert_eq!(join.game.result, None);
    assert_eq!(join.game.bet_amount, 100);
    assert_eq!(join.state.result, 0);
    assert_eq!(join.state.max_result, 10);
    assert_eq!(join.escrow_token_account.amount, 200);
    assert_eq!(join.user_token_account.amount, 300);
    assert!(!join.game.payout_disbursed);
    // the game that pays on a claim joins the same way
    let mut other = join_of(&create, 400);
    other.state.result = 9;
    assert_eq!(vrf_game::vrf::request_randomness(&mut other, join_params(), Ok(()), 6), out);
    assert_eq!(other, join);
}

#[test]
fn join_is_refused_once_somebody_joined() {
    let mut create = fresh(1000);
    init_client(&mut create, params(10, 0, 100), 5).unwrap();
    let mut join = join_of(&create, 400);
    request_randomness(&mut join, join_params(), Ok(()), 6).unwrap();
    let mut late = RequestRandomness { joinee: id(6), ..join };
    let before = late;
    assert_eq!(late.validate(&join_params()), Err(VrfClientErrorCode::GameNotOpen));
    let out = request_randomness(&mut late, join_params(), Ok(()), 7);
    assert_eq!(out, Err(GameError::Client(VrfClientErrorCode::GameNotOpen)));
    assert_eq!(late, before);
}

#[test]
fn join_is_refused_once_there_is_a_result() {
    let mut create = fresh(1000);
    init_client(&mut create, params(10, 0, 100), 5).unwrap();
    let mut join = join_of(&create, 400);
    join.game.result = Some(1);
    let before = join;
    let out = RequestRandomness::actuate(&mut join, &join_params(), Ok(()), 7);
    assert_eq!(out, Err(GameError::Client(VrfClientErrorCode::GameNotOpen)));
    assert_eq!(join, before);
}

#[test]
fn join_refuses_another_oracle_account() {
    let mut create = fresh(1000);
    init_client(&mut create, params(10, 0, 100), 5).unwrap();
    let mut join = join_of(&create, 400);
    join.vrf.key = id(9);
    let before = join;
    assert_eq!(join.validate(&join_params()), Err(VrfClientErrorCode::InvalidVrfAccount));
    let out = request_randomness(&mut join, join_params(), Ok(()), 7);
    assert_eq!(out, Err(GameError::Client(VrfClientErrorCode::InvalidVrfAccount)));
    assert_eq!(join, before);
}

#[test]
fn join_does_nothing_when_the_oracle_is_unavailable() {
    let mut create = fresh(1000);
    init_client(&mut create, params(10, 0, 100), 5).unwrap();
    let mut join = join_of(&create, 400);
    let before = join;
    let out = request_randomness(&mut join, join_params(), Err(OracleUnavailable), 7);
    assert_eq!(out, Err(GameError::OracleUnavailable));
    assert_eq!(join, before);
}

#[test]
fn join_fails_whole_when_the_joinee_is_short() {
    let mut create = fresh(1000);
    init_client(&mut create, params(10, 0, 100), 5).unwrap();
    let mut join = join_of(&create, 99);
    let before = join;
    let out = request_randomness(&mut join, join_params(), Ok(()), 7);
    assert_eq!(out, Err(GameError::Ledger(LedgerError::InsufficientFunds)));
    assert_eq!(join, before);
}

#[test]
fn join_fails_whole_when_escrow_would_overflow() {
    let mut create = fresh(1000);
    init_client(&mut create, params(10, 0, 100), 5).unwrap();
    let mut join = join_of(&create, 400);
    join.escrow_token_account.amount = u64::MAX - 50;
    let before = join;
    let out = request_randomness(&mut join, join_params(), Ok(()), 7);
    assert_eq!(out, Err(GameError::Ledger(LedgerError::Overflow)));
    assert_eq!(join, before);
}

#[test]
fn refusals_have_their_sentences() {
    assert_eq!(
        VrfClientErrorCode::InvalidVrfAuthorityError.message(),
        "Switchboard VRF Account's authority should be set to the client's state pubkey"
    );
    assert_eq!(
        VrfClientErrorCode::MaxResultExceedsMaximum.message(),
        "The max result must not exceed u64"
    );
    assert_eq!(VrfClientErrorCode::InvalidVrfAccount.message(), "Invalid VRF account provided.");
    assert_eq!(
        VrfClientErrorCode::InvalidSwitchboardAccount.message(),
        "Not a valid Switchboard account"
    );
    assert_eq!(
        VrfClientErrorCode::GameNotOpen.message(),
        "The game already has a second participant or a result"
    );
}

#[test]
fn parameters_can_be_copied() {
    let create = params(10, 1, 100);
    assert_eq!(create.clone(), create);
    let join = join_params();
    assert_eq!(join.clone(), join);
    assert_eq!(join.clone().game_id, "table-7");
}
