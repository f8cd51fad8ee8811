use option_escrow::contract::{OptionContract, EUROPEAN, PUT};
use option_escrow::error::EscrowError;
use option_escrow::identity::{Identity, IdentityKind};
use option_escrow::oracle::{Digest, OracleContract, UpdData};
use option_escrow::snapshot::{read_entry, OracleSnapshot};
use soroban_sdk::{Env, Vec};

fn pump() -> Identity {
    Identity { kind: IdentityKind::Account, hi: 5, lo: 5 }
}

fn other() -> Identity {
    Identity { kind: IdentityKind::Account, hi: 5, lo: 6 }
}

#[test]
fn test_test() {
    let mut oracle = OracleContract::new();

    // Test init
    oracle.init().unwrap();

    // Test set_pxpump_user
    let user = pump();
    oracle.set_pxpump_user(user).unwrap();

    // Test set_pxpump_hash
    let hash = Digest { hi: 0x0123, lo: 0x4567 };
    oracle.set_pxpump_hash(hash).unwrap();

    // Test update
    let token: i128 = 0;
    let price: i128 = 0;
    let timestamp: i128 = 0;
    let flags: i128 = 0;
    oracle.update(user, token, price, timestamp, flags, 0).unwrap();

    assert_eq!(oracle.pxpump_user, Some(user));
    assert_eq!(oracle.pxpump_hash, Some(hash));
    assert_eq!(
        oracle.quote,
        Some(UpdData { token: 0, price: 0, timestamp: 0, flags: 0, decimals: 0 })
    );
}

#[test]
fn oracle_initializes_once() {
    let mut oracle = OracleContract::new();
    assert!(!oracle.initialized);
    assert_eq!(oracle.init(), Ok(()));
    assert!(oracle.initialized);
    assert_eq!(oracle.init(), Err(EscrowError::AlreadyInitialized));
    assert!(oracle.initialized);
}

#[test]
fn oracle_needs_initialization() {
    let env = Env::default();
    let mut oracle = OracleContract::new();
    let before = oracle;
    assert_eq!(oracle.set_pxpump_user(pump()), Err(EscrowError::NotInitialized));
    assert_eq!(oracle.set_pxpump_hash(Digest { hi: 1, lo: 2 }), Err(EscrowError::NotInitialized));
    assert_eq!(oracle.update(pump(), 1, 2, 3, 4, 5), Err(EscrowError::NotInitialized));
    assert_eq!(oracle.latest(), Err(EscrowError::NotInitialized));
    assert_eq!(oracle.retrieve(&env), Err(EscrowError::NotInitialized));
    assert_eq!(oracle, before);
}

#[test]
fn only_the_price_pump_updates() {
    let mut oracle = OracleContract::new();
    oracle.init().unwrap();
    assert_eq!(oracle.update(pump(), 1, 2, 3, 4, 5), Err(EscrowError::Unauthorized));
    oracle.set_pxpump_user(pump()).unwrap();
    assert_eq!(oracle.update(other(), 1, 2, 3, 4, 5), Err(EscrowError::Unauthorized));
    assert_eq!(oracle.quote, None);
    assert_eq!(oracle.update(pump(), 1, 2, 3, 4, 5), Ok(()));
    assert_eq!(
        oracle.latest(),
        Ok(UpdData { token: 1, price: 2, timestamp: 3, flags: 4, decimals: 5 })
    );
    assert_eq!(oracle.update(pump(), 6, 7, 8, 9, 10), Ok(()));
    assert_eq!(
        oracle.latest(),
        Ok(UpdData { token: 6, price: 7, timestamp: 8, flags: 9, decimals: 10 })
    );
}

#[test]
fn retrieve_without_a_quote_is_refused() {
    let env = Env::default();
    let mut oracle = OracleContract::new();
    oracle.init().unwrap();
    assert_eq!(oracle.latest(), Err(EscrowError::NoQuote));
    assert_eq!(oracle.retrieve(&env), Err(EscrowError::NoQuote));
}

#[test]
fn retrieve_answers_with_five_numbers() {
    let env = Env::default();
    let mut oracle = OracleContract::new();
    oracle.init().unwrap();
    oracle.set_pxpump_user(pump()).unwrap();
    oracle.update(pump(), 42, 50, 900, 1, 2).unwrap();
    let v = oracle.retrieve(&env).unwrap();
    assert_eq!(v.len(), 5);
    assert_eq!(v.get(0), Some(42));
    assert_eq!(v.get(1), Some(50));
    assert_eq!(v.get(2), Some(900));
    assert_eq!(v.get(3), Some(1));
    assert_eq!(v.get(4), Some(2));
}

#[test]
fn quote_is_written_in_order() {
    let env = Env::default();
    let q = UpdData { token: -1, price: i128::MAX, timestamp: i128::MIN, flags: 0, decimals: u32::MAX };
    let v = q.to_host_vec(&env);
    assert_eq!(v, Vec::from_array(&env, [-1, i128::MAX, i128::MIN, 0, u32::MAX as i128]));
}

#[test]
fn escrow_takes_the_oracle_answer() {
    let env = Env::default();
    let mut oracle = OracleContract::new();
    oracle.init().unwrap();
    oracle.set_pxpump_user(pump()).unwrap();
    oracle.update(pump(), 42, 50, 900, 1, 2).unwrap();

    let mut escrow = OptionContract::new();
    escrow.init();
    escrow.list_at(10, PUT | EUROPEAN, 100, 2, 1_000, other(), other(), pump()).unwrap();
    let snap = escrow.upd_px(&oracle.retrieve(&env).unwrap()).unwrap();
    assert_eq!(snap, OracleSnapshot { symbol: 42, price: 50, timestamp: 900, flags: 1 });
    assert!(snap.is_settlement_price());
}

#[test]
fn snapshot_is_read_entry_by_entry() {
    let env = Env::default();
    let data: Vec<i128> = Vec::from_array(&env, [10, 20, 30, 40]);
    assert_eq!(read_entry(&data, 0), Ok(10));
    assert_eq!(read_entry(&data, 3), Ok(40));
    assert_eq!(read_entry(&data, 4), Err(EscrowError::MalformedOracleData));
    assert_eq!(read_entry(&data, u32::MAX), Err(EscrowError::MalformedOracleData));
    assert_eq!(
        OracleSnapshot::read(&data),
        Ok(OracleSnapshot { symbol: 10, price: 20, timestamp: 30, flags: 40 })
    );
}

#[test]
fn empty_snapshot_has_no_settlement_price() {
    let s = OracleSnapshot::new();
    assert_eq!(s, OracleSnapshot { symbol: 0, price: 0, timestamp: 0, flags: 0 });
    assert!(!s.is_settlement_price());
    assert!(OracleSnapshot { symbol: 0, price: 0, timestamp: 0, flags: 1 }.is_settlement_price());
    assert!(!OracleSnapshot { symbol: 1, price: 1, timestamp: 1, flags: 3 }.is_settlement_price());
}
