use state_machine::balances;
use state_machine::proof_of_existence;
use state_machine::support::DispatchError;
use state_machine::system;

fn s(x: &str) -> String {
    x.to_string()
}

#[test]
fn basic_proof_of_existence() {
    let mut claims = proof_of_existence::Pallet::new();
    let claim1 = "claim1";
    let claim2 = "claim2";
    let claim3 = "bogus";

    let _res = claims.create_claim(s("alice"), s(claim1));
    let _res = claims.create_claim(s("bob"), s(claim2));
    assert_eq!(
        claims.create_claim(s("bob"), s(claim2)).map_err(|e| e.message()),
        Err("This content is already claimed")
    );

    assert_eq!(claims.get_claim(&s("claim1")), Some(&s("alice")));
    assert_ne!(claims.get_claim(&s("claim2")), Some(&s("alice")));

    assert_eq!(claims.revoke_claim(s("alice"), s(claim1)), Ok(()));
    assert_eq!(
        claims.revoke_claim(s("alice"), s(claim2)).map_err(|e| e.message()),
        Err("The caller does not own this claim")
    );
    assert_eq!(
        claims.revoke_claim(s("alice"), s(claim3)).map_err(|e| e.message()),
        Err("Claim does not exist")
    );
    assert_eq!(
        claims.revoke_claim(s("alice"), s(claim1)).map_err(|e| e.message()),
        Err("Claim does not exist")
    );
}

#[test]
fn init_system() {
    let mut sys = system::Pallet::new();

    sys.inc_block_number();
    sys.inc_nonce(&"Alice".to_string());

    assert_eq!(sys.block_number(), 1);
    assert_eq!(sys.nonce(&s("Alice")), 1);
    assert_eq!(sys.nonce(&s("Bob")), 0);
}

#[test]
fn unset_balance_reads_zero() {
    let mut b = balances::Pallet::new();
    assert_eq!(b.balance(&s("nobody")), 0);
    b.set_balance(&s("alice"), 7);
    assert_eq!(b.balance(&s("alice")), 7);
    assert_eq!(b.balance(&s("bob")), 0);
}

#[test]
fn set_balance_overwrites() {
    let mut b = balances::Pallet::new();
    b.set_balance(&s("alice"), 7);
    b.set_balance(&s("alice"), 3);
    assert_eq!(b.balance(&s("alice")), 3);
}

#[test]
fn transfer_moves_funds() {
    let mut b = balances::Pallet::new();
    b.set_balance(&s("alice"), 100);
    assert_eq!(b.transfer(s("alice"), s("bob"), 30), Ok(()));
    assert_eq!(b.balance(&s("alice")), 70);
    assert_eq!(b.balance(&s("bob")), 30);
}

#[test]
fn transfer_insufficient_funds_changes_nothing() {
    let mut b = balances::Pallet::new();
    b.set_balance(&s("alice"), 10);
    b.set_balance(&s("bob"), 5);
    assert_eq!(
        b.transfer(s("alice"), s("bob"), 11),
        Err(DispatchError::InsufficientFunds)
    );
    assert_eq!(b.balance(&s("alice")), 10);
    assert_eq!(b.balance(&s("bob")), 5);
    assert_eq!(
        b.transfer(s("carol"), s("bob"), 1),
        Err(DispatchError::InsufficientFunds)
    );
}

#[test]
fn transfer_overflow_changes_nothing() {
    let mut b = balances::Pallet::new();
    b.set_balance(&s("alice"), 10);
    b.set_balance(&s("bob"), u128::MAX);
    assert_eq!(b.transfer(s("alice"), s("bob"), 1), Err(DispatchError::Overflow));
    assert_eq!(b.balance(&s("alice")), 10);
    assert_eq!(b.balance(&s("bob")), u128::MAX);
}

#[test]
fn transfer_of_whole_balance() {
    let mut b = balances::Pallet::new();
    b.set_balance(&s("alice"), u128::MAX);
    assert_eq!(b.transfer(s("alice"), s("bob"), u128::MAX), Ok(()));
    assert_eq!(b.balance(&s("alice")), 0);
    assert_eq!(b.balance(&s("bob")), u128::MAX);
}

#[test]
fn transfer_conserves_total() {
    let mut b = balances::Pallet::new();
    b.set_balance(&s("alice"), 40);
    b.set_balance(&s("bob"), 2);
    let before = b.balance(&s("alice")) + b.balance(&s("bob"));
    assert_eq!(b.transfer(s("alice"), s("bob"), 25), Ok(()));
    let after = b.balance(&s("alice")) + b.balance(&s("bob"));
    assert_eq!(before, after);
    assert_eq!(after, 42);
}

#[test]
fn self_transfer_changes_nothing() {
    let mut b = balances::Pallet::new();
    b.set_balance(&s("alice"), 50);
    assert_eq!(b.transfer(s("alice"), s("alice"), 20), Ok(()));
    assert_eq!(b.balance(&s("alice")), 50);
    assert_eq!(
        b.transfer(s("alice"), s("alice"), 51),
        Err(DispatchError::InsufficientFunds)
    );
    assert_eq!(b.balance(&s("alice")), 50);
}

#[test]
fn balances_dispatch_routes_transfer() {
    let mut b = balances::Pallet::new();
    b.set_balance(&s("alice"), 9);
    let call = balances::Call::transfer { to: s("bob"), amount: 4 };
    assert_eq!(b.dispatch(&s("alice"), &call), Ok(()));
    assert_eq!(b.balance(&s("alice")), 5);
    assert_eq!(b.balance(&s("bob")), 4);
}

#[test]
fn nonce_counts_up_by_one() {
    let mut sys = system::Pallet::new();
    assert_eq!(sys.block_number(), 0);
    sys.inc_nonce(&s("alice"));
    sys.inc_nonce(&s("alice"));
    let before = sys.nonce(&s("alice"));
    sys.inc_nonce(&s("alice"));
    assert_eq!(sys.nonce(&s("alice")), before + 1);
    assert_eq!(sys.nonce(&s("alice")), 3);
    assert_eq!(sys.nonce(&s("bob")), 0);
}

#[test]
fn claim_already_claimed_keeps_owner() {
    let mut claims = proof_of_existence::Pallet::new();
    assert_eq!(claims.get_claim(&s("X")), None);
    assert_eq!(claims.create_claim(s("alice"), s("X")), Ok(()));
    assert_eq!(
        claims.create_claim(s("bob"), s("X")),
        Err(DispatchError::AlreadyClaimed)
    );
    assert_eq!(claims.get_claim(&s("X")), Some(&s("alice")));
}

#[test]
fn revoke_claim_outcomes() {
    let mut claims = proof_of_existence::Pallet::new();
    assert_eq!(claims.revoke_claim(s("alice"), s("X")), Err(DispatchError::NotFound));
    assert_eq!(claims.create_claim(s("alice"), s("X")), Ok(()));
    assert_eq!(claims.revoke_claim(s("bob"), s("X")), Err(DispatchError::NotOwner));
    assert_eq!(claims.get_claim(&s("X")), Some(&s("alice")));
    assert_eq!(claims.revoke_claim(s("alice"), s("X")), Ok(()));
    assert_eq!(claims.get_claim(&s("X")), None);
    assert_eq!(claims.create_claim(s("bob"), s("X")), Ok(()));
    assert_eq!(claims.get_claim(&s("X")), Some(&s("bob")));
}

#[test]
fn claim_dispatch_routes_calls() {
    let mut claims = proof_of_existence::Pallet::new();
    let create = proof_of_existence::Call::create_claim { claim: s("doc") };
    let revoke = proof_of_existence::Call::revoke_claim { claim: s("doc") };
    assert_eq!(claims.dispatch(&s("alice"), &create), Ok(()));
    assert_eq!(claims.dispatch(&s("bob"), &create), Err(DispatchError::AlreadyClaimed));
    assert_eq!(claims.dispatch(&s("bob"), &revoke), Err(DispatchError::NotOwner));
    assert_eq!(claims.dispatch(&s("alice"), &revoke), Ok(()));
    assert_eq!(claims.get_claim(&s("doc")), None);
}

#[test]
fn error_messages_are_distinct() {
    let all = [
        DispatchError::InsufficientFunds,
        DispatchError::Overflow,
        DispatchError::AlreadyClaimed,
        DispatchError::NotFound,
        DispatchError::NotOwner,
    ];
    for (i, a) in all.iter().enumerate() {
        for (j, b) in all.iter().enumerate() {
            assert_eq!(i == j, a.message() == b.message());
        }
    }
}
