use mev_searcher::alloy_db::{block_hash, code_by_hash, AlloyDBError};
use mev_searcher::bundle::{
    signed_delta, single_tx_output, BundleError, BundleResult, BundleRun, ExecutionOutcome, SimOutput, TxError,
};
use mev_searcher::codec::push_address_word;
use mev_searcher::overlay::{Overlay, StateChanges};
use mev_searcher::types::{AccountInfo, Address, Word};

fn addr(n: u32) -> Address {
    Address { hi: 0, lo: n }
}

fn no_changes() -> StateChanges {
    StateChanges { accounts: vec![], storage: vec![] }
}

#[test]
fn memoized_account_is_not_refetched() {
    let mut o = Overlay::new();
    assert!(o.account(addr(1)).is_none());
    o.memoize_account(addr(1), AccountInfo::from_remote(5, 2, vec![]));
    o.memoize_account(addr(1), AccountInfo::from_remote(9, 9, vec![1]));
    let acc = o.account(addr(1)).unwrap();
    assert_eq!(acc.balance, 5);
    assert_eq!(acc.nonce, 2);
    assert!(acc.code.is_none());
}

#[test]
fn remote_code_that_is_empty_means_no_code() {
    let a = AccountInfo::from_remote(1, 1, vec![]);
    assert!(a.code.is_none());
    let b = AccountInfo::from_remote(1, 1, vec![0x60, 0x00]);
    assert_eq!(b.code, Some(vec![0x60, 0x00]));
}

#[test]
fn override_balance_creates_or_overwrites() {
    let mut o = Overlay::new();
    o.override_balance(addr(7), 100);
    let acc = o.account(addr(7)).unwrap();
    assert_eq!((acc.balance, acc.nonce), (100, 0));
    assert!(acc.code.is_none());

    o.memoize_account(addr(8), AccountInfo::from_remote(1, 4, vec![0xfe]));
    o.override_balance(addr(8), 42);
    let acc = o.account(addr(8)).unwrap();
    assert_eq!((acc.balance, acc.nonce), (42, 4));
    assert_eq!(acc.code, Some(vec![0xfe]));
}

#[test]
fn override_code_creates_or_keeps_balance() {
    let mut o = Overlay::new();
    o.override_code(addr(3), vec![1, 2, 3]);
    let acc = o.account(addr(3)).unwrap();
    assert_eq!((acc.balance, acc.nonce), (0, 0));
    assert_eq!(acc.code, Some(vec![1, 2, 3]));

    o.override_balance(addr(4), 77);
    o.override_code(addr(4), vec![9]);
    let acc = o.account(addr(4)).unwrap();
    assert_eq!(acc.balance, 77);
    assert_eq!(acc.code, Some(vec![9]));
}

#[test]
fn clone_isolation() {
    let mut base = Overlay::new();
    base.override_balance(addr(1), 10);
    let mut c1 = base.duplicate();
    let c2 = base.duplicate();
    c1.override_balance(addr(1), 999);
    c1.override_code(addr(2), vec![0xaa]);
    assert_eq!(base.balance_of(addr(1)), Some(10));
    assert_eq!(c2.balance_of(addr(1)), Some(10));
    assert!(base.account(addr(2)).is_none());
    assert!(c2.account(addr(2)).is_none());
    assert_eq!(c1.balance_of(addr(1)), Some(999));
}

#[test]
fn injected_code_persists_across_clones() {
    let mut base = Overlay::new();
    base.override_code(addr(5), vec![0x60, 0x80]);
    for _ in 0..3 {
        let mut trial = base.duplicate();
        trial.override_balance(addr(5), 1_000);
        let acc = trial.account(addr(5)).unwrap();
        assert_eq!(acc.code, Some(vec![0x60, 0x80]));
        assert_eq!(acc.balance, 1_000);
    }
    assert_eq!(base.account(addr(5)).unwrap().balance, 0);
}

#[test]
fn storage_reads_and_writes() {
    let mut o = Overlay::new();
    let k = Word { hi: 0, lo: 1 };
    assert_eq!(o.read_storage(addr(1), k), None);
    o.memoize_storage(addr(1), k, Word { hi: 0, lo: 5 });
    o.memoize_storage(addr(1), k, Word { hi: 0, lo: 6 });
    assert_eq!(o.read_storage(addr(1), k), Some(Word { hi: 0, lo: 5 }));
    o.write_storage(addr(1), k, Word { hi: 1, lo: 0 });
    assert_eq!(o.read_storage(addr(1), k), Some(Word { hi: 1, lo: 0 }));
    assert_eq!(o.read_storage(addr(2), k), None);
}

#[test]
fn commit_shadows_earlier_values() {
    let mut o = Overlay::new();
    o.override_balance(addr(1), 10);
    let changes = StateChanges {
        accounts: vec![(addr(1), AccountInfo { balance: 3, nonce: 1, code: None })],
        storage: vec![(addr(1), Word { hi: 0, lo: 0 }, Word { hi: 0, lo: 9 })],
    };
    o.commit(&changes);
    assert_eq!(o.balance_of(addr(1)), Some(3));
    assert_eq!(o.nonce_of(addr(1)), Some(1));
    assert_eq!(o.read_storage(addr(1), Word { hi: 0, lo: 0 }), Some(Word { hi: 0, lo: 9 }));
}

#[test]
fn empty_bundle_is_refused() {
    let mut o = Overlay::new();
    o.override_balance(addr(1), 1);
    assert!(matches!(BundleRun::start(&o, 0, Some(1), addr(1)), Err(BundleError::EmptyBundle)));
    let empty = Overlay::new();
    assert!(matches!(BundleRun::start(&empty, 0, None, addr(1)), Err(BundleError::EmptyBundle)));
}

#[test]
fn unknown_attacker_is_refused() {
    let o = Overlay::new();
    assert!(matches!(BundleRun::start(&o, 2, Some(1), addr(1)), Err(BundleError::MissingAccount)));
}

#[test]
fn critical_halt_is_flagged_and_gas_still_counted() {
    let mut o = Overlay::new();
    o.override_balance(addr(1), 1_000);
    let mut run = BundleRun::start(&o, 2, Some(1), addr(1)).unwrap();
    let changes = StateChanges {
        accounts: vec![(addr(1), AccountInfo { balance: 900, nonce: 1, code: None })],
        storage: vec![],
    };
    run.step(&mut o, ExecutionOutcome::Success { gas_used: 21_000, output: vec![], created: None, changes });
    run.step(&mut o, ExecutionOutcome::Halt { reason: "OutOfGas".to_string() });
    assert!(run.is_complete());
    let res = run.finish(&o).unwrap();
    assert!(res.critical_failed);
    assert_eq!(res.revert_reason, Some("Halted: OutOfGas".to_string()));
    assert_eq!(res.total_gas, 21_000);
    assert_eq!(res.attacker_delta, -100);
}

#[test]
fn critical_revert_reason_carries_hex_output() {
    let mut o = Overlay::new();
    o.override_balance(addr(1), 5);
    let mut run = BundleRun::start(&o, 3, Some(1), addr(1)).unwrap();
    run.step(&mut o, ExecutionOutcome::Revert { output: vec![0xde, 0xad] });
    assert!(!run.critical_failed);
    run.step(&mut o, ExecutionOutcome::Revert { output: vec![0x0a, 0xff] });
    run.step(&mut o, ExecutionOutcome::Halt { reason: "x".to_string() });
    let res = run.finish(&o).unwrap();
    assert!(res.critical_failed);
    assert_eq!(res.revert_reason, Some("Reverted hex: 0aff".to_string()));
    assert_eq!(res.total_gas, 0);
    assert_eq!(res.attacker_delta, 0);
}

#[test]
fn failed_transaction_commits_nothing() {
    let mut o = Overlay::new();
    o.override_balance(addr(1), 5);
    let mut run = BundleRun::start(&o, 1, None, addr(1)).unwrap();
    run.step(&mut o, ExecutionOutcome::Revert { output: vec![] });
    let res = run.finish(&o).unwrap();
    assert!(!res.critical_failed);
    assert_eq!(res.revert_reason, None);
    assert_eq!(o.balance_of(addr(1)), Some(5));
}

#[test]
fn latest_created_contract_wins() {
    let mut o = Overlay::new();
    o.override_balance(addr(1), 5);
    let mut run = BundleRun::start(&o, 2, None, addr(1)).unwrap();
    run.step(&mut o, ExecutionOutcome::Success { gas_used: 10, output: vec![1], created: Some(addr(50)), changes: no_changes() });
    run.step(&mut o, ExecutionOutcome::Success { gas_used: 20, output: vec![2, 2], created: Some(addr(60)), changes: no_changes() });
    let res = run.finish(&o).unwrap();
    assert_eq!(res.created_address, Some(addr(60)));
    assert_eq!(res.created_code, Some(vec![2, 2]));
    assert_eq!(res.total_gas, 30);
}

#[test]
fn signed_delta_values() {
    assert_eq!(signed_delta(10, 3), 7);
    assert_eq!(signed_delta(3, 10), -7);
    assert_eq!(signed_delta(u128::MAX, 0), i128::MAX);
    assert_eq!(signed_delta(0, u128::MAX), i128::MIN);
    assert_eq!(signed_delta(0, 1u128 << 127), i128::MIN);
}

#[test]
fn address_word_is_left_padded() {
    let mut out = vec![];
    push_address_word(&mut out, Address { hi: 0x0102_0304_0506_0708_090a_0b0c_0d0e_0f10, lo: 0x1112_1314 });
    let mut expected = vec![0u8; 12];
    expected.extend((1u8..=20).collect::<Vec<u8>>());
    assert_eq!(out, expected);
}

#[test]
fn remote_source_error_and_unsupported_queries() {
    let e = AlloyDBError("timeout".to_string());
    assert_eq!(e.describe(), "AlloyDB Error: timeout");
    assert!(code_by_hash(Word { hi: 1, lo: 2 }).is_empty());
    assert_eq!(block_hash(17), Word { hi: 0, lo: 0 });
}

#[test]
fn single_transaction_output() {
    let res = |failed: bool, reason: Option<String>| BundleResult {
        total_gas: 21_000,
        critical_failed: failed,
        revert_reason: reason,
        attacker_delta: -42,
        created_address: None,
        created_code: None,
    };
    assert_eq!(
        single_tx_output(Ok(res(false, None))),
        Ok(SimOutput { gas_used: 21_000, eth_balance_change: -42 })
    );
    assert_eq!(
        single_tx_output(Ok(res(true, Some("Halted: OutOfGas".to_string())))),
        Err(TxError::Failed("Halted: OutOfGas".to_string()))
    );
    assert_eq!(single_tx_output(Err(BundleError::EmptyBundle)), Err(TxError::Bundle(BundleError::EmptyBundle)));
}

#[test]
fn one_transaction_bundle_that_reverts_is_an_error() {
    let mut o = Overlay::new();
    o.override_balance(addr(1), 5);
    let mut run = BundleRun::start(&o, 1, Some(0), addr(1)).unwrap();
    run.step(&mut o, ExecutionOutcome::Revert { output: vec![0x01] });
    let out = single_tx_output(run.finish(&o));
    assert_eq!(out, Err(TxError::Failed("Reverted hex: 01".to_string())));
}

#[test]
fn code_hash_is_keccak_of_code() {
    let none = AccountInfo::from_remote(0, 0, vec![]);
    assert_eq!(
        hex::encode(none.code_hash()),
        "c5d2460186f7233c927e7db2dcc703c0e500b653ca82273b7bfad8045d85a470"
    );
    let some = AccountInfo::from_remote(0, 0, vec![0x60, 0x80]);
    assert_eq!(some.code_hash(), alloy_primitives::keccak256([0x60u8, 0x80]).to_vec());
}
