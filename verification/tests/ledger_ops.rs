use token_ledger::account::{Account, Authorization};
use token_ledger::errors::TokenError;
use token_ledger::events::Event;
use token_ledger::ledger::{TokenBDB, TokenTrait};
use token_ledger::storage::{DataKey, TokenMetadata};

fn account(id: u64) -> Account {
    Account::new(id)
}

fn auth(id: u64) -> Authorization {
    Authorization::granted_by(account(id))
}

fn ready() -> TokenBDB {
    let mut ledger = TokenBDB::new();
    ledger
        .initialize(account(1), String::from("Good Day"), String::from("GDY"), 18)
        .unwrap();
    ledger
}

#[test]
fn a_new_ledger_holds_nothing() {
    let ledger = TokenBDB::new();
    assert!(!ledger.is_initialized());
    assert_eq!(ledger.name(), "");
    assert_eq!(ledger.symbol(), "");
    assert_eq!(ledger.decimals(), 0);
    assert_eq!(ledger.total_supply(), 0);
    assert_eq!(ledger.admin(), Err(TokenError::NotInitialized));
    assert_eq!(ledger.balance(account(2)), 0);
    assert_eq!(ledger.allowance(account(2), account(3)), 0);
    assert!(!ledger.has_record(DataKey::Initialized));
    assert!(!ledger.has_record(DataKey::Admin));
    assert!(!ledger.has_record(DataKey::TotalSupply));
    assert!(!ledger.has_record(DataKey::Balance(account(2))));
}

#[test]
fn every_operation_needs_a_ledger_that_is_set_up() {
    let mut ledger = TokenBDB::new();
    assert_eq!(ledger.mint(&auth(1), account(2), 10), Err(TokenError::NotInitialized));
    assert_eq!(ledger.burn(&auth(2), account(2), 10), Err(TokenError::NotInitialized));
    assert_eq!(
        ledger.transfer(&auth(2), account(2), account(3), 10),
        Err(TokenError::NotInitialized)
    );
    assert_eq!(
        ledger.approve(&auth(2), account(2), account(3), 10),
        Err(TokenError::NotInitialized)
    );
    assert_eq!(
        ledger.transfer_from(&auth(3), account(3), account(2), account(4), 10),
        Err(TokenError::NotInitialized)
    );
    assert_eq!(ledger.mint(&auth(1), account(2), -1), Err(TokenError::NotInitialized));
    assert_eq!(
        ledger.transfer(&auth(2), account(2), account(2), 0),
        Err(TokenError::NotInitialized)
    );
    assert!(!ledger.is_initialized());
    assert_eq!(ledger.total_supply(), 0);
}

#[test]
fn the_singleton_keys_exist_once_the_ledger_is_set_up() {
    let ledger = ready();
    assert!(ledger.has_record(DataKey::Initialized));
    assert!(ledger.has_record(DataKey::Admin));
    assert!(ledger.has_record(DataKey::TokenName));
    assert!(ledger.has_record(DataKey::TokenSymbol));
    assert!(ledger.has_record(DataKey::Decimals));
    assert!(ledger.has_record(DataKey::TotalSupply));
    assert!(!ledger.has_record(DataKey::Balance(account(1))));
    assert!(!ledger.has_record(DataKey::Allowance(account(1), account(2))));
}

#[test]
fn initialize_refuses_too_many_decimals() {
    let mut ledger = TokenBDB::new();
    assert_eq!(
        ledger.initialize(account(1), String::from("Token"), String::from("TKN"), 19),
        Err(TokenError::InvalidDecimals)
    );
    assert!(!ledger.is_initialized());
    assert_eq!(ledger.admin(), Err(TokenError::NotInitialized));
    assert_eq!(ledger.name(), "");
    assert_eq!(
        ledger.initialize(account(1), String::from("Token"), String::from("TKN"), 18),
        Ok(Event::Init {
            admin: account(1),
            metadata: TokenMetadata {
                name: String::from("Token"),
                symbol: String::from("TKN"),
                decimals: 18,
            },
        })
    );
    assert_eq!(ledger.decimals(), 18);
}

#[test]
fn initialize_asks_for_the_decimals_before_the_texts() {
    let mut ledger = TokenBDB::new();
    assert_eq!(
        ledger.initialize(account(1), String::new(), String::new(), 19),
        Err(TokenError::InvalidDecimals)
    );
    assert_eq!(
        ledger.initialize(account(1), String::new(), String::new(), 0),
        Err(TokenError::InvalidMetadata)
    );
    let mut set_up = ready();
    assert_eq!(
        set_up.initialize(account(1), String::new(), String::new(), 19),
        Err(TokenError::AlreadyInitialized)
    );
}

#[test]
fn initialize_bounds_the_name() {
    let mut ledger = TokenBDB::new();
    assert_eq!(
        ledger.initialize(account(1), String::new(), String::from("TKN"), 7),
        Err(TokenError::InvalidMetadata)
    );
    assert_eq!(
        ledger.initialize(account(1), "n".repeat(101), String::from("TKN"), 7),
        Err(TokenError::InvalidMetadata)
    );
    assert!(!ledger.is_initialized());
    assert!(ledger.initialize(account(1), "n".repeat(100), String::from("TKN"), 7).is_ok());
    assert_eq!(ledger.name(), "n".repeat(100));

    let mut shortest = TokenBDB::new();
    assert!(shortest.initialize(account(1), String::from("n"), String::from("s"), 0).is_ok());
    assert_eq!(shortest.name(), "n");
    assert_eq!(shortest.symbol(), "s");
    assert_eq!(shortest.decimals(), 0);
}

#[test]
fn initialize_bounds_the_symbol() {
    let mut ledger = TokenBDB::new();
    assert_eq!(
        ledger.initialize(account(1), String::from("Token"), String::new(), 7),
        Err(TokenError::InvalidMetadata)
    );
    assert_eq!(
        ledger.initialize(account(1), String::from("Token"), "s".repeat(33), 7),
        Err(TokenError::InvalidMetadata)
    );
    assert!(!ledger.is_initialized());
    assert!(ledger.initialize(account(1), String::from("Token"), "s".repeat(32), 7).is_ok());
    assert_eq!(ledger.symbol(), "s".repeat(32));
}

#[test]
fn initialize_counts_bytes() {
    // Fifty letters of two bytes each are the longest such name; fifty-one are
    // too long, though they are fewer than a hundred characters.
    let mut ledger = TokenBDB::new();
    assert_eq!(
        ledger.initialize(account(1), "é".repeat(51), String::from("TKN"), 7),
        Err(TokenError::InvalidMetadata)
    );
    assert_eq!(
        ledger.initialize(account(1), String::from("Token"), "é".repeat(17), 7),
        Err(TokenError::InvalidMetadata)
    );
    assert!(ledger.initialize(account(1), "é".repeat(50), "é".repeat(16), 7).is_ok());
    assert_eq!(ledger.name(), "é".repeat(50));
}

#[test]
fn mint_refuses_zero() {
    let mut ledger = ready();
    assert_eq!(ledger.mint(&auth(1), account(2), 0), Err(TokenError::InvalidAmount));
    assert_eq!(ledger.mint(&auth(1), account(2), i128::MIN), Err(TokenError::InvalidAmount));
    assert_eq!(ledger.total_supply(), 0);
    assert!(!ledger.has_record(DataKey::Balance(account(2))));
}

#[test]
fn mint_adds_to_balance_and_supply() {
    let mut ledger = ready();
    ledger.mint(&auth(1), account(2), 40).unwrap();
    assert_eq!(
        ledger.mint(&auth(1), account(3), 2),
        Ok(Event::Mint { to: account(3), amount: 2, new_balance: 2, new_supply: 42 })
    );
    assert_eq!(
        ledger.mint(&auth(1), account(2), 8),
        Ok(Event::Mint { to: account(2), amount: 8, new_balance: 48, new_supply: 50 })
    );
    assert_eq!(ledger.balance(account(2)), 48);
    assert_eq!(ledger.balance(account(3)), 2);
    assert_eq!(ledger.total_supply(), 50);
    assert!(ledger.has_record(DataKey::Balance(account(2))));
}

#[test]
fn the_admin_can_mint_to_itself() {
    let mut ledger = ready();
    assert_eq!(
        ledger.mint(&auth(1), account(1), 5),
        Ok(Event::Mint { to: account(1), amount: 5, new_balance: 5, new_supply: 5 })
    );
    assert_eq!(ledger.balance(account(1)), 5);
}

#[test]
fn burn_takes_from_balance_and_supply() {
    let mut ledger = ready();
    ledger.mint(&auth(1), account(2), 100).unwrap();
    ledger.mint(&auth(1), account(3), 50).unwrap();
    assert_eq!(
        ledger.burn(&auth(2), account(2), 30),
        Ok(Event::Burn { from: account(2), amount: 30, new_balance: 70, new_supply: 120 })
    );
    assert_eq!(ledger.balance(account(2)), 70);
    assert_eq!(ledger.balance(account(3)), 50);
    assert_eq!(ledger.total_supply(), 120);
}

#[test]
fn burn_of_the_whole_balance_leaves_no_record() {
    let mut ledger = ready();
    ledger.mint(&auth(1), account(2), 100).unwrap();
    assert!(ledger.has_record(DataKey::Balance(account(2))));
    assert_eq!(
        ledger.burn(&auth(2), account(2), 100),
        Ok(Event::Burn { from: account(2), amount: 100, new_balance: 0, new_supply: 0 })
    );
    assert!(!ledger.has_record(DataKey::Balance(account(2))));
    assert_eq!(ledger.balance(account(2)), 0);
    assert_eq!(ledger.total_supply(), 0);
}

#[test]
fn burn_refuses_bad_amounts() {
    let mut ledger = ready();
    ledger.mint(&auth(1), account(2), 100).unwrap();
    assert_eq!(ledger.burn(&auth(2), account(2), 0), Err(TokenError::InvalidAmount));
    assert_eq!(ledger.burn(&auth(2), account(2), -7), Err(TokenError::InvalidAmount));
    assert_eq!(ledger.burn(&auth(2), account(2), 101), Err(TokenError::InsufficientBalance));
    assert_eq!(ledger.burn(&auth(3), account(3), 1), Err(TokenError::InsufficientBalance));
    assert_eq!(ledger.balance(account(2)), 100);
    assert_eq!(ledger.total_supply(), 100);
}

#[test]
fn transfer_moves_the_amount() {
    let mut ledger = ready();
    ledger.mint(&auth(1), account(2), 100).unwrap();
    ledger.mint(&auth(1), account(3), 5).unwrap();
    assert_eq!(
        ledger.transfer(&auth(2), account(2), account(3), 60),
        Ok(Event::Transfer {
            from: account(2),
            to: account(3),
            amount: 60,
            new_from_balance: 40,
            new_to_balance: 65,
        })
    );
    assert_eq!(ledger.balance(account(2)), 40);
    assert_eq!(ledger.balance(account(3)), 65);
    assert_eq!(ledger.total_supply(), 105);
}

#[test]
fn transfer_of_the_whole_balance_leaves_no_record() {
    let mut ledger = ready();
    ledger.mint(&auth(1), account(2), 100).unwrap();
    assert_eq!(
        ledger.transfer(&auth(2), account(2), account(3), 100),
        Ok(Event::Transfer {
            from: account(2),
            to: account(3),
            amount: 100,
            new_from_balance: 0,
            new_to_balance: 100,
        })
    );
    assert!(!ledger.has_record(DataKey::Balance(account(2))));
    assert!(ledger.has_record(DataKey::Balance(account(3))));
    assert_eq!(ledger.balance(account(2)), 0);
    assert_eq!(ledger.balance(account(3)), 100);
}

#[test]
fn transfer_asks_for_the_amount_before_the_recipient() {
    let mut ledger = ready();
    ledger.mint(&auth(1), account(2), 100).unwrap();
    assert_eq!(
        ledger.transfer(&auth(2), account(2), account(2), 0),
        Err(TokenError::InvalidAmount)
    );
    assert_eq!(
        ledger.transfer(&auth(2), account(2), account(3), -1),
        Err(TokenError::InvalidAmount)
    );
    assert_eq!(
        ledger.transfer(&auth(2), account(2), account(2), 1000),
        Err(TokenError::InvalidRecipient)
    );
    assert_eq!(ledger.balance(account(2)), 100);
}

#[test]
fn approve_sets_the_allowance_in_place_of_the_old_one() {
    let mut ledger = ready();
    assert_eq!(
        ledger.approve(&auth(2), account(2), account(3), 70),
        Ok(Event::Approve {
            owner: account(2),
            spender: account(3),
            old_allowance: 0,
            new_allowance: 70,
        })
    );
    assert_eq!(
        ledger.approve(&auth(2), account(2), account(3), 20),
        Ok(Event::Approve {
            owner: account(2),
            spender: account(3),
            old_allowance: 70,
            new_allowance: 20,
        })
    );
    assert_eq!(ledger.allowance(account(2), account(3)), 20);
    assert_eq!(ledger.allowance(account(3), account(2)), 0);
    assert_eq!(ledger.balance(account(2)), 0);
    assert_eq!(ledger.total_supply(), 0);
}

#[test]
fn approve_refuses_a_negative_amount() {
    let mut ledger = ready();
    ledger.approve(&auth(2), account(2), account(3), 70).unwrap();
    assert_eq!(
        ledger.approve(&auth(2), account(2), account(3), -1),
        Err(TokenError::InvalidAmount)
    );
    assert_eq!(ledger.allowance(account(2), account(3)), 70);
}

#[test]
fn approve_of_zero_revokes() {
    let mut ledger = ready();
    ledger.approve(&auth(2), account(2), account(3), 70).unwrap();
    assert_eq!(
        ledger.approve(&auth(2), account(2), account(3), 0),
        Ok(Event::Approve {
            owner: account(2),
            spender: account(3),
            old_allowance: 70,
            new_allowance: 0,
        })
    );
    assert_eq!(ledger.allowance(account(2), account(3)), 0);
    assert!(!ledger.has_record(DataKey::Allowance(account(2), account(3))));
}

#[test]
fn an_owner_can_approve_more_than_it_holds() {
    let mut ledger = ready();
    ledger.mint(&auth(1), account(2), 10).unwrap();
    ledger.approve(&auth(2), account(2), account(3), i128::MAX).unwrap();
    assert_eq!(ledger.allowance(account(2), account(3)), i128::MAX);
    assert_eq!(
        ledger.transfer_from(&auth(3), account(3), account(2), account(4), 11),
        Err(TokenError::InsufficientBalance)
    );
    assert_eq!(ledger.allowance(account(2), account(3)), i128::MAX);
    assert_eq!(ledger.balance(account(2)), 10);
}

#[test]
fn transfer_from_spends_part_of_the_allowance() {
    let mut ledger = ready();
    ledger.mint(&auth(1), account(2), 100).unwrap();
    ledger.approve(&auth(2), account(2), account(3), 70).unwrap();
    assert_eq!(
        ledger.transfer_from(&auth(3), account(3), account(2), account(4), 30),
        Ok(Event::TransferFrom {
            spender: account(3),
            from: account(2),
            to: account(4),
            amount: 30,
            new_from_balance: 70,
            new_to_balance: 30,
            new_allowance: 40,
        })
    );
    assert_eq!(ledger.allowance(account(2), account(3)), 40);
    assert!(ledger.has_record(DataKey::Allowance(account(2), account(3))));
    assert_eq!(ledger.balance(account(2)), 70);
    assert_eq!(ledger.balance(account(4)), 30);
    assert_eq!(ledger.balance(account(3)), 0);
    assert_eq!(ledger.total_supply(), 100);
}

#[test]
fn a_spender_can_pay_itself() {
    let mut ledger = ready();
    ledger.mint(&auth(1), account(2), 100).unwrap();
    ledger.approve(&auth(2), account(2), account(3), 70).unwrap();
    assert_eq!(
        ledger.transfer_from(&auth(3), account(3), account(2), account(3), 70),
        Ok(Event::TransferFrom {
            spender: account(3),
            from: account(2),
            to: account(3),
            amount: 70,
            new_from_balance: 30,
            new_to_balance: 70,
            new_allowance: 0,
        })
    );
    assert_eq!(ledger.balance(account(3)), 70);
}

#[test]
fn transfer_from_checks_in_order() {
    let mut ledger = ready();
    ledger.mint(&auth(1), account(2), 10).unwrap();
    ledger.approve(&auth(2), account(2), account(3), 5).unwrap();
    let by_spender = auth(3);
    assert_eq!(
        ledger.transfer_from(&by_spender, account(3), account(2), account(2), 0),
        Err(TokenError::InvalidAmount)
    );
    assert_eq!(
        ledger.transfer_from(&by_spender, account(3), account(2), account(2), 100),
        Err(TokenError::InvalidRecipient)
    );
    // Neither the allowance nor the balance covers 11: the allowance is asked first.
    assert_eq!(
        ledger.transfer_from(&by_spender, account(3), account(2), account(4), 11),
        Err(TokenError::InsufficientAllowance)
    );
    assert_eq!(
        ledger.transfer_from(&by_spender, account(3), account(2), account(4), 6),
        Err(TokenError::InsufficientAllowance)
    );
    ledger.approve(&auth(2), account(2), account(3), 50).unwrap();
    assert_eq!(
        ledger.transfer_from(&by_spender, account(3), account(2), account(4), 11),
        Err(TokenError::InsufficientBalance)
    );
    assert_eq!(ledger.allowance(account(2), account(3)), 50);
    assert_eq!(ledger.balance(account(2)), 10);
    assert_eq!(ledger.balance(account(4)), 0);
}

#[test]
fn an_allowance_is_held_per_owner_and_spender() {
    let mut ledger = ready();
    ledger.approve(&auth(2), account(2), account(3), 7).unwrap();
    ledger.approve(&auth(3), account(3), account(2), 9).unwrap();
    ledger.approve(&auth(2), account(2), account(4), 11).unwrap();
    assert_eq!(ledger.allowance(account(2), account(3)), 7);
    assert_eq!(ledger.allowance(account(3), account(2)), 9);
    assert_eq!(ledger.allowance(account(2), account(4)), 11);
    assert_eq!(ledger.allowance(account(4), account(2)), 0);
}

#[test]
fn ledgers_live_side_by_side() {
    let mut first = ready();
    let mut second = TokenBDB::new();
    second
        .initialize(account(9), String::from("Second"), String::from("SND"), 2)
        .unwrap();
    first.mint(&auth(1), account(2), 10).unwrap();
    second.mint(&auth(9), account(2), 700).unwrap();
    assert_eq!(first.balance(account(2)), 10);
    assert_eq!(second.balance(account(2)), 700);
    assert_eq!(first.total_supply(), 10);
    assert_eq!(second.total_supply(), 700);
    assert_eq!(first.admin(), Ok(account(1)));
    assert_eq!(second.admin(), Ok(account(9)));
    assert_eq!(first.symbol(), "GDY");
    assert_eq!(second.symbol(), "SND");
}

#[test]
fn an_event_can_be_copied() {
    let mut ledger = TokenBDB::new();
    let event = ledger
        .initialize(account(1), String::from("Token"), String::from("TKN"), 7)
        .unwrap();
    assert_eq!(event.clone(), event);
    let minted = ledger.mint(&auth(1), account(2), 3).unwrap();
    assert_eq!(minted.clone(), minted);
    assert_ne!(minted, event);
    let metadata = TokenMetadata { name: String::from("a"), symbol: String::from("b"), decimals: 3 };
    assert_eq!(metadata.clone(), metadata);
}
