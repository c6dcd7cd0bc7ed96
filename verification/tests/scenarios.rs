use treasure_chest_program::account::ChestAccount;
use treasure_chest_program::account::ErrorType;
use treasure_chest_program::account::InitializeChestDTO;
use treasure_chest_program::account::InitializeUserAccountDTO;
use treasure_chest_program::account::TransferDTO;
use treasure_chest_program::account::UserAccount;
use treasure_chest_program::ops::initialize_chest;
use treasure_chest_program::ops::initialize_user_account;
use treasure_chest_program::ops::transfer;
use treasure_chest_program::ops::InitializeChest;
use treasure_chest_program::ops::InitializeUserAccount;
use treasure_chest_program::ops::Transfer;

fn claimed_setup() -> Transfer {
    // A chest created with 1000 units and a fresh claimant, after one
    // successful claim of 300 to a destination that held 50.
    let authority = [9u8; 32];
    let mut init_ctx = InitializeChest {
        chest_account: None,
        chest_lamports: 0,
        authority,
        authority_lamports: 5000,
    };
    let dto = InitializeChestDTO {
        bump: 254,
        seed: [1, 2, 3, 4, 5, 6, 7, 8],
        initial_lamports: 1000,
    };
    assert!(initialize_chest(&mut init_ctx, &dto).is_ok());
    let chest = init_ctx.chest_account.unwrap();

    let mut user_ctx = InitializeUserAccount { user_account: None };
    let udto = InitializeUserAccountDTO {
        bump: 253,
        seed: [[4u8; 32], [5u8; 32]],
    };
    assert!(initialize_user_account(&mut user_ctx, &udto).is_ok());
    let user = user_ctx.user_account.unwrap();

    let mut t = Transfer {
        from: chest,
        from_lamports: init_ctx.chest_lamports,
        to: user,
        to_deposit_lamports: 50,
        signer: authority,
    };
    assert!(transfer(&mut t, &TransferDTO { lamports: 300 }).is_ok());
    t
}

#[test]
fn scenario_claim_moves_funds_and_sets_flag() {
    let authority = [9u8; 32];
    let mut init_ctx = InitializeChest {
        chest_account: None,
        chest_lamports: 0,
        authority,
        authority_lamports: 5000,
    };
    let dto = InitializeChestDTO {
        bump: 254,
        seed: [1, 2, 3, 4, 5, 6, 7, 8],
        initial_lamports: 1000,
    };
    assert_eq!(initialize_chest(&mut init_ctx, &dto), Ok(()));
    assert_eq!(init_ctx.chest_lamports, 1000);
    assert_eq!(init_ctx.authority_lamports, 4000);
    let chest = init_ctx.chest_account.unwrap();
    assert_eq!(chest.bump, 254);
    assert_eq!(chest.seed, [1, 2, 3, 4, 5, 6, 7, 8]);
    assert_eq!(chest.authority, authority);

    let mut user_ctx = InitializeUserAccount { user_account: None };
    let udto = InitializeUserAccountDTO {
        bump: 253,
        seed: [[4u8; 32], [5u8; 32]],
    };
    assert_eq!(initialize_user_account(&mut user_ctx, &udto), Ok(()));
    let user = user_ctx.user_account.unwrap();
    assert!(!user.visited_chest);

    let mut t = Transfer {
        from: chest,
        from_lamports: init_ctx.chest_lamports,
        to: user,
        to_deposit_lamports: 50,
        signer: authority,
    };
    assert_eq!(transfer(&mut t, &TransferDTO { lamports: 300 }), Ok(()));
    assert_eq!(t.from_lamports, 700);
    assert_eq!(t.to_deposit_lamports, 350);
    assert!(t.to.visited_chest);
}

#[test]
fn scenario_second_claim_is_rejected() {
    let mut t = claimed_setup();
    assert_eq!(t.from_lamports, 700);
    let r = transfer(&mut t, &TransferDTO { lamports: 300 });
    assert_eq!(r, Err(ErrorType::AlreadyFound));
    assert_eq!(t.from_lamports, 700);
    assert_eq!(t.to_deposit_lamports, 350);
}

#[test]
fn scenario_insufficient_chest_balance() {
    let authority = [9u8; 32];
    let chest = ChestAccount {
        bump: 254,
        seed: [1, 2, 3, 4, 5, 6, 7, 8],
        authority,
    };
    let user = UserAccount {
        bump: 253,
        seed: [[4u8; 32], [5u8; 32]],
        visited_chest: false,
    };
    let mut t = Transfer {
        from: chest,
        from_lamports: 700,
        to: user,
        to_deposit_lamports: 0,
        signer: authority,
    };
    let r = transfer(&mut t, &TransferDTO { lamports: 800 });
    assert_eq!(r, Err(ErrorType::InsufficientFunds));
    assert_eq!(t.from_lamports, 700);
    assert_eq!(t.to_deposit_lamports, 0);
    assert!(!t.to.visited_chest);
}

#[test]
fn scenario_foreign_signer_is_rejected() {
    let authority = [9u8; 32];
    let chest = ChestAccount {
        bump: 254,
        seed: [1, 2, 3, 4, 5, 6, 7, 8],
        authority,
    };
    let user = UserAccount {
        bump: 253,
        seed: [[4u8; 32], [5u8; 32]],
        visited_chest: false,
    };
    let mut t = Transfer {
        from: chest,
        from_lamports: 700,
        to: user,
        to_deposit_lamports: 0,
        signer: [8u8; 32],
    };
    let r = transfer(&mut t, &TransferDTO { lamports: 100 });
    assert_eq!(r, Err(ErrorType::Unauthorized));
    assert_eq!(t.from_lamports, 700);
    assert_eq!(t.to_deposit_lamports, 0);
    assert!(!t.to.visited_chest);
}
