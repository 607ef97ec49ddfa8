use vrf_game::bytes::{bytes_equal, is_zeroed};
use vrf_game::draw::{draw, number_from_word, parity};
use vrf_game::ledger::transfer;
use vrf_game::seeds::{
    escrow_seeds, game_seeds, signer_seeds, state_seeds, vrf_seeds, ESCROW_SEED, GAME_SEED,
    STATE_SEED, VRF_SEED,
};
use vrf_game::{GameState, LedgerError, Pubkey, TokenAccount, VrfClientState};

#[test]
fn draw_reads_the_leading_bytes_least_significant_first() {
    let mut buffer = [0u8; 32];
    buffer[0] = 1;
    assert_eq!(draw(&buffer, 1337), 2);
    buffer[0] = 0;
    buffer[1] = 1;
    // 256 mod 1337 + 1
    assert_eq!(draw(&buffer, 1337), 257);
    buffer[1] = 0;
    buffer[2] = 1;
    // 65536 mod 1337 + 1 = 23 + 1
    assert_eq!(draw(&buffer, 1337), 24);
    buffer[2] = 0;
    buffer[15] = 0x80;
    // 2^127 mod 1000 + 1 = 728 + 1
    assert_eq!(draw(&buffer, 1000), 729);
}

#[test]
fn draw_ignores_the_trailing_bytes() {
    let mut buffer = [0u8; 32];
    buffer[0] = 41;
    let alone = draw(&buffer, 100);
    for i in 16..32 {
        buffer[i] = 0xff;
    }
    assert_eq!(alone, 42);
    assert_eq!(draw(&buffer, 100), 42);
}

#[test]
fn draw_of_the_largest_word() {
    let mut buffer = [0u8; 32];
    for i in 0..16 {
        buffer[i] = 0xff;
    }
    // (2^128 - 1) mod 1337 + 1
    assert_eq!(draw(&buffer, 1337), u128::MAX % 1337 + 1);
    assert_eq!(draw(&buffer, 1), 1);
    assert_eq!(draw(&buffer, u64::MAX), u128::MAX % (u64::MAX as u128) + 1);
}

#[test]
fn draw_matches_the_word_for_many_buffers() {
    let mut word: u128 = 0x0123_4567_89ab_cdef_0011_2233_4455_6677;
    for round in 0..200u64 {
        let mut buffer = [0u8; 32];
        buffer[..16].copy_from_slice(&word.to_le_bytes());
        buffer[16..].copy_from_slice(&(!word).to_le_bytes());
        let bound = round * 7 + 1;
        assert_eq!(draw(&buffer, bound), word % (bound as u128) + 1);
        word = word.wrapping_mul(6364136223846793005).wrapping_add(1442695040888963407);
    }
}

#[test]
fn number_lies_between_one_and_the_bound() {
    assert_eq!(number_from_word(0, 10), 1);
    assert_eq!(number_from_word(9, 10), 10);
    assert_eq!(number_from_word(10, 10), 1);
    assert_eq!(number_from_word(3, 10), 4);
    assert_eq!(number_from_word(6, 10), 7);
    assert_eq!(number_from_word(u128::MAX, 1), 1);
    assert_eq!(number_from_word(1336, 1337), 1337);
    assert_eq!(number_from_word(1337, 1337), 1);
}

#[test]
fn parity_is_the_last_bit() {
    assert_eq!(parity(4), 0);
    assert_eq!(parity(7), 1);
    assert_eq!(parity(1), 1);
    assert_eq!(parity(1336), 0);
    assert_eq!(parity(u128::MAX), 1);
}

#[test]
fn zero_and_equal_buffers_are_told_apart() {
    let zero = [0u8; 32];
    let mut last = [0u8; 32];
    last[31] = 1;
    let mut first = [0u8; 32];
    first[0] = 1;
    assert!(is_zeroed(&zero));
    assert!(!is_zeroed(&last));
    assert!(!is_zeroed(&first));
    assert!(bytes_equal(&zero, &[0u8; 32]));
    assert!(!bytes_equal(&zero, &last));
    assert!(!bytes_equal(&first, &last));
    assert!(bytes_equal(&last, &last.clone()));
}

#[test]
fn keys_compare_by_their_bytes() {
    let a = Pubkey::new([5; 32]);
    let mut bytes = [5u8; 32];
    assert_eq!(a, Pubkey::new(bytes));
    assert_eq!(a.to_bytes(), bytes);
    bytes[31] = 6;
    assert_ne!(a, Pubkey::new(bytes));
    assert_eq!(Pubkey::default(), Pubkey::new([0; 32]));
}

#[test]
fn default_client_state_is_all_zero() {
    let client = VrfClientState::default();
    assert_eq!(client.bump, 0);
    assert_eq!(client.max_result, 0);
    assert_eq!(client.result_buffer, [0u8; 32]);
    assert_eq!(client.result, 0);
    assert_eq!(client.timestamp, 0);
    assert_eq!(client.vrf, Pubkey::new([0; 32]));
}

#[test]
fn transfer_moves_the_amount_or_nothing() {
    let mut from = TokenAccount { amount: 100 };
    let mut to = TokenAccount { amount: 5 };
    assert_eq!(transfer(&mut from, &mut to, 60), Ok(()));
    assert_eq!((from.amount, to.amount), (40, 65));
    assert_eq!(transfer(&mut from, &mut to, 41), Err(LedgerError::InsufficientFunds));
    assert_eq!((from.amount, to.amount), (40, 65));
    assert_eq!(transfer(&mut from, &mut to, 40), Ok(()));
    assert_eq!((from.amount, to.amount), (0, 105));
    assert_eq!(transfer(&mut from, &mut to, 0), Ok(()));
    assert_eq!((from.amount, to.amount), (0, 105));
    let mut full = TokenAccount { amount: u64::MAX - 1 };
    assert_eq!(transfer(&mut to, &mut full, 2), Err(LedgerError::Overflow));
    assert_eq!((to.amount, full.amount), (105, u64::MAX - 1));
    assert_eq!(transfer(&mut to, &mut full, 1), Ok(()));
    assert_eq!((to.amount, full.amount), (104, u64::MAX));
}

#[test]
fn seeds_name_each_record() {
    assert_eq!(&STATE_SEED[..], b"CLIENTSEED");
    assert_eq!(&VRF_SEED[..], b"VRF");
    assert_eq!(&GAME_SEED[..], b"GAME");
    assert_eq!(&ESCROW_SEED[..], b"ESCROW");
    let owner = Pubkey::new([1; 32]);
    let vrf = Pubkey::new([4; 32]);
    assert_eq!(game_seeds("10", &owner), vec![b"GAME".to_vec(), b"10".to_vec(), vec![1u8; 32]]);
    assert_eq!(
        escrow_seeds("table-7", &owner),
        vec![b"ESCROW".to_vec(), b"table-7".to_vec(), vec![1u8; 32]]
    );
    assert_eq!(game_seeds("", &owner), vec![b"GAME".to_vec(), Vec::new(), vec![1u8; 32]]);
    assert_eq!(state_seeds(&vrf), vec![b"CLIENTSEED".to_vec(), vec![4u8; 32]]);
    assert_eq!(vrf_seeds(&owner), vec![b"VRF".to_vec(), vec![1u8; 32]]);
    assert_eq!(
        signer_seeds(state_seeds(&vrf), 254),
        vec![b"CLIENTSEED".to_vec(), vec![4u8; 32], vec![254u8]]
    );
    assert_eq!(signer_seeds(Vec::new(), 0), vec![vec![0u8]]);
}

#[test]
fn pot_is_twice_the_stake() {
    let mut game = GameState {
        owner: Pubkey::new([1; 32]),
        owner_choice: 0,
        joinee: None,
        winner: None,
        bet_amount: 100,
        result: None,
        room_creation_time: 0,
        payout_disbursed: false,
    };
    assert_eq!(game.stakes(), Some(200));
    game.bet_amount = 0;
    assert_eq!(game.stakes(), Some(0));
    game.bet_amount = u64::MAX / 2;
    assert_eq!(game.stakes(), Some(u64::MAX - 1));
    game.bet_amount = u64::MAX / 2 + 1;
    assert_eq!(game.stakes(), None);
}
