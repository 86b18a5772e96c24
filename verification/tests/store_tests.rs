use transaction_logger::state::State;
use transaction_logger::state::calculate_actual_icp_to_evm_received;
use transaction_logger::types::{Address, ChainId, Erc20Identifier, EvmToIcpStatus,
    EvmToIcpTx, EvmToIcpTxIdentifier, IcpToEvmIdentifier, IcpToEvmStatus, IcpToEvmTx, Minter,
    MinterKey, Oprator, Principal, RecordError, Transaction, TransactionReceipt,
    TransactionStatus, is_native_token};

const HOUR_NS: u64 = 3_600_000_000_000;

fn native_text() -> String {
    let mut s = String::from("0x");
    for _ in 0..40 {
        s.push('0');
    }
    s
}

fn token_text() -> String {
    let mut s = String::from("0x");
    for _ in 0..39 {
        s.push('0');
    }
    s.push('7');
    s
}

fn addr_text(last: char) -> String {
    let mut s = String::from("0x");
    for _ in 0..38 {
        s.push('a');
    }
    s.push('0');
    s.push(last);
    s
}

fn addr_bytes(last: u8) -> Address {
    let mut b = vec![0xaau8; 19];
    b.push(last);
    Address(b)
}

fn principal(tag: u8) -> Principal {
    Principal(vec![tag, tag, tag])
}

fn evm_id(hash: &str, chain: u64) -> EvmToIcpTxIdentifier {
    EvmToIcpTxIdentifier::new(&hash.to_string(), ChainId(chain))
}

fn record_forward(s: &mut State, hash: &str, from: String, value: u128, erc20: String, time: u64) {
    let id = evm_id(hash, 1);
    s.record_accepted_evm_to_icp(
        id,
        hash.to_string(),
        5,
        from,
        value,
        principal(9),
        erc20,
        None,
        ChainId(1),
        Oprator::AppicMinter,
        time,
    )
    .unwrap();
}

fn sample_unverified_forward(hash: &str, time: u64) -> EvmToIcpTx {
    EvmToIcpTx {
        from_address: addr_bytes(1),
        transaction_hash: hash.to_string(),
        value: 10,
        block_number: None,
        actual_received: None,
        principal: principal(2),
        subaccount: None,
        chain_id: ChainId(1),
        total_gas_spent: None,
        erc20_contract_address: Address(vec![0u8; 20]),
        icrc_ledger_id: None,
        status: EvmToIcpStatus::PendingVerification,
        verified: false,
        time,
        oprator: Oprator::AppicMinter,
    }
}

fn sample_unverified_reverse(burn: u64, time: u64) -> IcpToEvmTx {
    IcpToEvmTx {
        transaction_hash: None,
        native_ledger_burn_index: burn,
        withdrawal_amount: 100,
        actual_received: None,
        destination: addr_bytes(3),
        from: principal(4),
        chain_id: ChainId(1),
        from_subaccount: None,
        time,
        max_transaction_fee: None,
        effective_gas_price: None,
        gas_used: None,
        total_gas_spent: None,
        erc20_ledger_burn_index: None,
        erc20_contract_address: Address(vec![0u8; 20]),
        icrc_ledger_id: None,
        verified: false,
        status: IcpToEvmStatus::PendingVerification,
        oprator: Oprator::AppicMinter,
    }
}

#[test]
fn merge_patch_preserves_time_and_oprator() {
    let mut s = State::init();
    record_forward(&mut s, "0xh1", addr_text('1'), 100, token_text(), 1000);
    // a second observation of the same identifier with new fields
    let id = evm_id("0xh1", 1);
    s.record_accepted_evm_to_icp(
        evm_id("0xh1", 1),
        "0xh1".to_string(),
        6,
        addr_text('2'),
        250,
        principal(8),
        token_text(),
        None,
        ChainId(1),
        Oprator::DfinityCkEthMinter,
        2000,
    )
    .unwrap();
    let tx = s.evm_to_icp_txs.get(&id).unwrap();
    assert_eq!(tx.time, 1000);
    assert_eq!(tx.oprator, Oprator::AppicMinter);
    assert_eq!(tx.value, 250);
    assert_eq!(tx.from_address, addr_bytes(2));
    assert_eq!(tx.block_number, Some(6));
    assert_eq!(tx.status, EvmToIcpStatus::Accepted);
    assert!(tx.verified);
}

#[test]
fn status_ops_on_absent_identifier_are_no_ops() {
    let mut s = State::init();
    let fid = evm_id("0xmissing", 5);
    let rid = IcpToEvmIdentifier::new(77, ChainId(5));
    s.record_minted_evm_to_icp(evm_id("0xmissing", 5), 42);
    s.record_invalid_evm_to_icp(evm_id("0xmissing", 5), "bad".to_string());
    s.record_quarantined_evm_to_icp(evm_id("0xmissing", 5));
    s.record_created_icp_to_evm(rid);
    s.record_signed_icp_to_evm(rid);
    s.record_replaced_icp_to_evm(rid);
    s.record_reimbursed_icp_to_evm(rid);
    s.record_quarantined_reimbursed_icp_to_evm(rid);
    let receipt = TransactionReceipt {
        transaction_hash: "0xr".to_string(),
        gas_used: 1,
        effective_gas_price: 1,
        status: TransactionStatus::Success,
    };
    assert!(s.record_finalized_icp_to_evm(rid, receipt, 1).is_ok());
    assert!(!s.if_evm_to_icp_tx_exists(&fid));
    assert!(!s.if_icp_to_evm_tx_exists(&rid));
    assert_eq!(s.evm_to_icp_txs.len(), 0);
    assert_eq!(s.icp_to_evm_txs.len(), 0);
}

#[test]
fn fee_clamp_forward_native() {
    let mut s = State::init();
    record_forward(&mut s, "0xn", addr_text('1'), 100, native_text(), 10);
    s.record_minted_evm_to_icp(evm_id("0xn", 1), 150);
    let tx = s.evm_to_icp_txs.get(&evm_id("0xn", 1)).unwrap();
    assert_eq!(tx.actual_received, Some(100));
    assert_eq!(tx.status, EvmToIcpStatus::Minted);
}

#[test]
fn fee_deducted_forward_native_when_it_fits() {
    let mut s = State::init();
    record_forward(&mut s, "0xn2", addr_text('1'), 100, native_text(), 10);
    s.record_minted_evm_to_icp(evm_id("0xn2", 1), 30);
    let tx = s.evm_to_icp_txs.get(&evm_id("0xn2", 1)).unwrap();
    assert_eq!(tx.actual_received, Some(70));
}

#[test]
fn fee_passthrough_forward_non_native() {
    let mut s = State::init();
    record_forward(&mut s, "0xt", addr_text('1'), 100, token_text(), 10);
    s.record_minted_evm_to_icp(evm_id("0xt", 1), 250);
    let tx = s.evm_to_icp_txs.get(&evm_id("0xt", 1)).unwrap();
    assert_eq!(tx.actual_received, Some(100));
}

#[test]
fn gas_accounting_reverse_native() {
    let mut s = State::init();
    let id = IcpToEvmIdentifier::new(3, ChainId(1));
    s.record_accepted_icp_to_evm(
        id,
        Some(1000),
        50_000,
        native_text(),
        addr_text('5'),
        3,
        None,
        principal(1),
        None,
        None,
        Oprator::AppicMinter,
        ChainId(1),
        777,
    )
    .unwrap();
    let receipt = TransactionReceipt {
        transaction_hash: "0xdone".to_string(),
        gas_used: 21_000,
        effective_gas_price: 2,
        status: TransactionStatus::Success,
    };
    s.record_finalized_icp_to_evm(id, receipt, 500).unwrap();
    let tx = s.icp_to_evm_txs.get(&id).unwrap();
    assert_eq!(tx.total_gas_spent, Some(42_500));
    assert_eq!(tx.actual_received, Some(7_500));
    assert_eq!(tx.gas_used, Some(21_000));
    assert_eq!(tx.effective_gas_price, Some(2));
    assert_eq!(tx.status, IcpToEvmStatus::Successful);
    assert_eq!(tx.transaction_hash, Some("0xdone".to_string()));
}

#[test]
fn gas_overdraw_reverse_native_yields_absent_amount() {
    let mut s = State::init();
    let id = IcpToEvmIdentifier::new(4, ChainId(1));
    s.record_accepted_icp_to_evm(
        id,
        None,
        100,
        native_text(),
        addr_text('5'),
        4,
        None,
        principal(1),
        None,
        None,
        Oprator::AppicMinter,
        ChainId(1),
        777,
    )
    .unwrap();
    let receipt = TransactionReceipt {
        transaction_hash: "0xfail".to_string(),
        gas_used: 1000,
        effective_gas_price: 1,
        status: TransactionStatus::Failure,
    };
    s.record_finalized_icp_to_evm(id, receipt, 0).unwrap();
    let tx = s.icp_to_evm_txs.get(&id).unwrap();
    assert_eq!(tx.actual_received, None);
    assert_eq!(tx.status, IcpToEvmStatus::Failed);
}

#[test]
fn gas_overflow_is_rejected_and_leaves_record_unchanged() {
    let mut s = State::init();
    let id = IcpToEvmIdentifier::new(5, ChainId(1));
    s.record_accepted_icp_to_evm(
        id,
        None,
        100,
        token_text(),
        addr_text('5'),
        5,
        None,
        principal(1),
        None,
        None,
        Oprator::AppicMinter,
        ChainId(1),
        777,
    )
    .unwrap();
    let receipt = TransactionReceipt {
        transaction_hash: "0xboom".to_string(),
        gas_used: u128::MAX,
        effective_gas_price: 2,
        status: TransactionStatus::Success,
    };
    let r = s.record_finalized_icp_to_evm(id, receipt, 0);
    assert_eq!(r, Err(RecordError::AmountOverflow));
    let tx = s.icp_to_evm_txs.get(&id).unwrap();
    assert_eq!(tx.status, IcpToEvmStatus::Accepted);
    assert_eq!(tx.total_gas_spent, None);
}

#[test]
fn malformed_address_is_rejected() {
    let mut s = State::init();
    let id = evm_id("0xbad", 1);
    let r = s.record_accepted_evm_to_icp(
        evm_id("0xbad", 1),
        "0xbad".to_string(),
        1,
        "not an address".to_string(),
        10,
        principal(1),
        token_text(),
        None,
        ChainId(1),
        Oprator::AppicMinter,
        1,
    );
    assert_eq!(r, Err(RecordError::InvalidAddress));
    assert!(!s.if_evm_to_icp_tx_exists(&id));
}

#[test]
fn eviction_boundary() {
    let now: u64 = 100 * HOUR_NS;
    let mut s = State::init();
    s.record_new_evm_to_icp(evm_id("0xold", 1), sample_unverified_forward("0xold", now - HOUR_NS - 1_000_000_000));
    s.record_new_evm_to_icp(evm_id("0xfresh", 1), sample_unverified_forward("0xfresh", now - HOUR_NS + 1_000_000_000));
    let mut verified_tx = sample_unverified_forward("0xdone", now - 10 * HOUR_NS);
    verified_tx.verified = true;
    s.record_new_evm_to_icp(evm_id("0xdone", 1), verified_tx);
    s.record_new_icp_to_evm(IcpToEvmIdentifier::new(1, ChainId(1)), sample_unverified_reverse(1, now - HOUR_NS - 1));
    s.record_new_icp_to_evm(IcpToEvmIdentifier::new(2, ChainId(1)), sample_unverified_reverse(2, now - HOUR_NS));
    transaction_logger::reaper::remove_unverified_tx(&mut s, now);
    assert!(!s.if_evm_to_icp_tx_exists(&evm_id("0xold", 1)));
    assert!(s.if_evm_to_icp_tx_exists(&evm_id("0xfresh", 1)));
    assert!(s.if_evm_to_icp_tx_exists(&evm_id("0xdone", 1)));
    assert!(!s.if_icp_to_evm_tx_exists(&IcpToEvmIdentifier::new(1, ChainId(1))));
    // created exactly one hour ago: not yet overdue
    assert!(s.if_icp_to_evm_tx_exists(&IcpToEvmIdentifier::new(2, ChainId(1))));
    assert!(!s.remove_unverified_active);
}

#[test]
fn reaper_single_flight() {
    let now: u64 = 100 * HOUR_NS;
    let mut s = State::init();
    s.record_new_evm_to_icp(evm_id("0xstale", 1), sample_unverified_forward("0xstale", 1));
    // a sweep is already in flight: this invocation must abandon with no effect
    s.remove_unverified_active = true;
    transaction_logger::reaper::remove_unverified_tx(&mut s, now);
    assert!(s.if_evm_to_icp_tx_exists(&evm_id("0xstale", 1)));
    assert!(s.remove_unverified_active);
    // once the guard is released, the next sweep deletes the stale record
    s.remove_unverified_active = false;
    transaction_logger::reaper::remove_unverified_tx(&mut s, now);
    assert!(!s.if_evm_to_icp_tx_exists(&evm_id("0xstale", 1)));
    assert!(!s.remove_unverified_active);
}

#[test]
fn reverse_lookup_by_address() {
    let mut s = State::init();
    record_forward(&mut s, "0xa1", addr_text('1'), 10, token_text(), 1);
    record_forward(&mut s, "0xa2", addr_text('2'), 20, token_text(), 2);
    record_forward(&mut s, "0xa3", addr_text('1'), 30, token_text(), 3);
    let id = IcpToEvmIdentifier::new(8, ChainId(1));
    s.record_accepted_icp_to_evm(
        id,
        None,
        40,
        token_text(),
        addr_text('1'),
        8,
        None,
        principal(6),
        None,
        None,
        Oprator::AppicMinter,
        ChainId(1),
        9,
    )
    .unwrap();
    let result = s.get_transaction_for_address(&addr_bytes(1));
    assert_eq!(result.len(), 3);
    let mut values: Vec<u128> = Vec::new();
    for t in &result {
        match t {
            Transaction::EvmToIcp(tx) => values.push(tx.value),
            Transaction::IcpToEvm(tx) => values.push(tx.withdrawal_amount),
        }
    }
    // forward records first (in key order), then reverse records
    assert_eq!(values, vec![10, 30, 40]);
    // an address with no records yields the empty union
    assert_eq!(s.get_transaction_for_address(&addr_bytes(9)).len(), 0);
}

#[test]
fn reverse_lookup_by_principal() {
    let mut s = State::init();
    record_forward(&mut s, "0xp1", addr_text('1'), 11, token_text(), 1);
    let id = IcpToEvmIdentifier::new(9, ChainId(1));
    s.record_accepted_icp_to_evm(
        id,
        None,
        22,
        token_text(),
        addr_text('2'),
        9,
        None,
        principal(9),
        None,
        None,
        Oprator::AppicMinter,
        ChainId(1),
        9,
    )
    .unwrap();
    let result = s.get_transaction_for_principal(&principal(9));
    assert_eq!(result.len(), 2);
}

#[test]
fn minter_registry_updates_are_merge_patches() {
    let mut s = State::init();
    let minter = Minter {
        id: principal(1),
        last_observed_event: 10,
        last_scraped_event: 5,
        oprator: Oprator::DfinityCkEthMinter,
        evm_to_icp_fee: 100,
        icp_to_evm_fee: 200,
        chain_id: ChainId(1),
    };
    s.record_minter(minter);
    let key = MinterKey(ChainId(1), Oprator::DfinityCkEthMinter);
    s.update_minter_fees(&key, 111, 222);
    s.update_last_observed_event(&key, 50);
    s.update_last_scraped_event(&key, 40);
    let m = s.minters.get(&key).unwrap();
    assert_eq!(m.evm_to_icp_fee, 111);
    assert_eq!(m.icp_to_evm_fee, 222);
    assert_eq!(m.last_observed_event, 50);
    assert_eq!(m.last_scraped_event, 40);
    assert_eq!(m.id, principal(1));
    // updates under an unregistered key are silently ignored
    let other = MinterKey(ChainId(2), Oprator::AppicMinter);
    s.update_minter_fees(&other, 1, 1);
    assert_eq!(s.minters.len(), 1);
    assert!(s.if_chain_id_exists(ChainId(1)));
    assert!(!s.if_chain_id_exists(ChainId(2)));
}

#[test]
fn get_minters_is_sorted_by_key() {
    let mut s = State::init();
    let mk = |chain: u64, op: Oprator, fee: u128| Minter {
        id: principal(1),
        last_observed_event: 0,
        last_scraped_event: 0,
        oprator: op,
        evm_to_icp_fee: fee,
        icp_to_evm_fee: 0,
        chain_id: ChainId(chain),
    };
    s.record_minter(mk(7, Oprator::AppicMinter, 1));
    s.record_minter(mk(2, Oprator::DfinityCkEthMinter, 2));
    s.record_minter(mk(7, Oprator::DfinityCkEthMinter, 3));
    let listed = s.get_minters();
    assert_eq!(listed.len(), 3);
    assert_eq!(listed[0].0, MinterKey(ChainId(2), Oprator::DfinityCkEthMinter));
    assert_eq!(listed[1].0, MinterKey(ChainId(7), Oprator::DfinityCkEthMinter));
    assert_eq!(listed[2].0, MinterKey(ChainId(7), Oprator::AppicMinter));
    assert_eq!(listed[2].1.evm_to_icp_fee, 1);
}

#[test]
fn token_registry_partitions_do_not_fall_back() {
    let mut s = State::init();
    let id = Erc20Identifier(addr_bytes(7), ChainId(1));
    s.supported_ckerc20_tokens.insert(Erc20Identifier(addr_bytes(7), ChainId(1)), principal(5));
    assert_eq!(
        s.get_icrc_twin_for_erc20(&id, &Oprator::DfinityCkEthMinter),
        Some(principal(5))
    );
    assert_eq!(s.get_icrc_twin_for_erc20(&id, &Oprator::AppicMinter), None);
}

#[test]
fn supported_pairs_concatenates_both_registries() {
    let mut s = State::init();
    s.supported_ckerc20_tokens.insert(Erc20Identifier(addr_bytes(1), ChainId(1)), principal(1));
    s.supported_twin_appic_tokens.insert(Erc20Identifier(addr_bytes(2), ChainId(2)), principal(2));
    let pairs = s.get_suported_twin_token_pairs();
    assert_eq!(pairs.len(), 2);
    assert_eq!(pairs[0].oprator, Oprator::DfinityCkEthMinter);
    assert_eq!(pairs[0].erc20_address, addr_bytes(1));
    assert_eq!(pairs[0].chain_id, ChainId(1));
    assert_eq!(pairs[1].oprator, Oprator::AppicMinter);
    assert_eq!(pairs[1].ledger_id, principal(2));
}

#[test]
fn twin_ledger_account_resolved_at_creation_only() {
    let mut s = State::init();
    // the token registry knows the twin before the record is created
    let contract = token_text();
    let parsed = {
        let mut b = vec![0u8; 19];
        b.push(7);
        Address(b)
    };
    s.supported_twin_appic_tokens.insert(Erc20Identifier(parsed, ChainId(1)), principal(3));
    record_forward(&mut s, "0xtwin", addr_text('1'), 10, contract, 1);
    let tx = s.evm_to_icp_txs.get(&evm_id("0xtwin", 1)).unwrap();
    assert_eq!(tx.icrc_ledger_id, Some(principal(3)));
}

#[test]
fn unverified_listings_and_native_check() {
    let mut s = State::init();
    s.record_new_evm_to_icp(evm_id("0xu", 1), sample_unverified_forward("0xu", 42));
    record_forward(&mut s, "0xv", addr_text('1'), 10, token_text(), 43);
    let unverified = s.all_unverified_evm_to_icp();
    assert_eq!(unverified.len(), 1);
    assert_eq!(unverified[0].1, 42);
    s.record_new_icp_to_evm(IcpToEvmIdentifier::new(1, ChainId(1)), sample_unverified_reverse(1, 7));
    assert_eq!(s.all_unverified_icp_to_evm(), vec![(IcpToEvmIdentifier::new(1, ChainId(1)), 7)]);
    s.remove_unverified_evm_to_icp(&evm_id("0xu", 1));
    assert!(!s.if_evm_to_icp_tx_exists(&evm_id("0xu", 1)));
    assert!(is_native_token(&Address(vec![0u8; 20])));
    assert!(!is_native_token(&addr_bytes(1)));
    assert!(!is_native_token(&Address(vec![0u8; 19])));
}

#[test]
fn calculate_actual_received_reverse() {
    assert_eq!(calculate_actual_icp_to_evm_received(50_000, 42_500, true), Some(7_500));
    assert_eq!(calculate_actual_icp_to_evm_received(100, 101, true), None);
    assert_eq!(calculate_actual_icp_to_evm_received(100, 101, false), Some(100));
}

#[test]
fn invalid_and_quarantine_statuses() {
    let mut s = State::init();
    record_forward(&mut s, "0xq", addr_text('1'), 10, token_text(), 1);
    s.record_invalid_evm_to_icp(evm_id("0xq", 1), "wrong chain".to_string());
    assert_eq!(
        s.evm_to_icp_txs.get(&evm_id("0xq", 1)).unwrap().status,
        EvmToIcpStatus::Invalid("wrong chain".to_string())
    );
    s.record_quarantined_evm_to_icp(evm_id("0xq", 1));
    assert_eq!(
        s.evm_to_icp_txs.get(&evm_id("0xq", 1)).unwrap().status,
        EvmToIcpStatus::Quarantined
    );
}

#[test]
fn reverse_status_progression() {
    let mut s = State::init();
    let id = IcpToEvmIdentifier::new(11, ChainId(1));
    s.record_accepted_icp_to_evm(
        id,
        None,
        10,
        token_text(),
        addr_text('3'),
        11,
        Some(12),
        principal(2),
        None,
        Some(555),
        Oprator::DfinityCkEthMinter,
        ChainId(1),
        999,
    )
    .unwrap();
    // an externally supplied creation time is preserved verbatim
    assert_eq!(s.icp_to_evm_txs.get(&id).unwrap().time, 555);
    assert_eq!(s.icp_to_evm_txs.get(&id).unwrap().erc20_ledger_burn_index, Some(12));
    s.record_created_icp_to_evm(id);
    assert_eq!(s.icp_to_evm_txs.get(&id).unwrap().status, IcpToEvmStatus::Created);
    s.record_signed_icp_to_evm(id);
    assert_eq!(s.icp_to_evm_txs.get(&id).unwrap().status, IcpToEvmStatus::SignedTransaction);
    s.record_replaced_icp_to_evm(id);
    assert_eq!(s.icp_to_evm_txs.get(&id).unwrap().status, IcpToEvmStatus::ReplacedTransaction);
    s.record_reimbursed_icp_to_evm(id);
    assert_eq!(s.icp_to_evm_txs.get(&id).unwrap().status, IcpToEvmStatus::Reimbursed);
    s.record_quarantined_reimbursed_icp_to_evm(id);
    assert_eq!(
        s.icp_to_evm_txs.get(&id).unwrap().status,
        IcpToEvmStatus::QuarantinedReimbursement
    );
}
