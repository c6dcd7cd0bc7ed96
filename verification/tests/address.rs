use anchor_lang::solana_program::pubkey::Pubkey;
use treasure_chest_program::account::ChestAccount;
use treasure_chest_program::account::UserAccount;
use treasure_chest_program::address::chest_address_matches;
use treasure_chest_program::address::derive_address;
use treasure_chest_program::address::user_address_matches;

const PROGRAM_ID: [u8; 32] = [11u8; 32];

#[test]
fn derivation_is_deterministic() {
    let seeds = vec![vec![1u8, 2, 3, 4, 5, 6, 7, 8]];
    let first = derive_address(&seeds, &PROGRAM_ID);
    let second = derive_address(&seeds, &PROGRAM_ID);
    assert!(first.is_some());
    assert_eq!(first, second);
}

#[test]
fn derivation_agrees_with_ledger_primitive() {
    let seed: [u8; 8] = [1, 2, 3, 4, 5, 6, 7, 8];
    let (addr, bump) = derive_address(&vec![seed.to_vec()], &PROGRAM_ID).unwrap();
    let pid = Pubkey::new_from_array(PROGRAM_ID);
    let (expected, expected_bump) = Pubkey::find_program_address(&[&seed], &pid);
    assert_eq!(bump, expected_bump);
    assert_eq!(addr, expected.to_bytes());
}

#[test]
fn derivation_of_two_component_seeds_agrees_with_ledger_primitive() {
    let s0 = [4u8; 32];
    let s1 = [5u8; 32];
    let (addr, bump) = derive_address(&vec![s0.to_vec(), s1.to_vec()], &PROGRAM_ID).unwrap();
    let pid = Pubkey::new_from_array(PROGRAM_ID);
    let (expected, expected_bump) = Pubkey::find_program_address(&[&s0, &s1], &pid);
    assert_eq!(bump, expected_bump);
    assert_eq!(addr, expected.to_bytes());
}

#[test]
fn oversized_seed_material_is_rejected() {
    let seeds = vec![vec![0u8; 33]];
    assert_eq!(derive_address(&seeds, &PROGRAM_ID), None);
}

#[test]
fn chest_record_self_certifies() {
    let seed: [u8; 8] = [1, 2, 3, 4, 5, 6, 7, 8];
    let (addr, bump) = derive_address(&vec![seed.to_vec()], &PROGRAM_ID).unwrap();
    let chest = ChestAccount {
        bump,
        seed,
        authority: [9u8; 32],
    };
    assert!(chest_address_matches(&chest, &addr, &PROGRAM_ID));
    let mut other = addr;
    other[0] ^= 1;
    assert!(!chest_address_matches(&chest, &other, &PROGRAM_ID));
}

#[test]
fn user_record_self_certifies() {
    let s0 = [4u8; 32];
    let s1 = [5u8; 32];
    let (addr, bump) = derive_address(&vec![s0.to_vec(), s1.to_vec()], &PROGRAM_ID).unwrap();
    let user = UserAccount {
        bump,
        seed: [s0, s1],
        visited_chest: false,
    };
    assert!(user_address_matches(&user, &addr, &PROGRAM_ID));
    let mut other = addr;
    other[31] ^= 1;
    assert!(!user_address_matches(&user, &other, &PROGRAM_ID));
}
