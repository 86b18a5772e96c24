use transaction_logger::codec::{decode_erc20_identifier, decode_evm_to_icp_identifier,
    decode_evm_to_icp_tx, decode_icp_to_evm_identifier, decode_icp_to_evm_tx, decode_minter,
    decode_minter_key, decode_principal, encode_erc20_identifier, encode_evm_to_icp_identifier,
    encode_evm_to_icp_tx, encode_icp_to_evm_identifier, encode_icp_to_evm_tx, encode_minter,
    encode_minter_key, encode_principal};
use transaction_logger::types::{Address, ChainId, Erc20Identifier, EvmToIcpStatus, EvmToIcpTx,
    EvmToIcpTxIdentifier, IcpToEvmIdentifier, IcpToEvmStatus, IcpToEvmTx, Minter, MinterKey,
    Oprator, Principal};

fn full_forward_record() -> EvmToIcpTx {
    EvmToIcpTx {
        from_address: Address(vec![1u8; 20]),
        transaction_hash: "0x00000034125423542452345241254235245".to_string(),
        value: 123_456_789_000_000_000_000,
        block_number: Some(19_000_000),
        actual_received: Some(122_000_000_000_000_000_000),
        principal: Principal(vec![9, 8, 7, 6]),
        subaccount: Some(vec![5u8; 32]),
        chain_id: ChainId(56),
        total_gas_spent: Some(31_000),
        erc20_contract_address: Address(vec![0u8; 20]),
        icrc_ledger_id: Some(Principal(vec![1, 2])),
        status: EvmToIcpStatus::Invalid("unsupported token".to_string()),
        verified: true,
        time: 1_700_000_000_000_000_000,
        oprator: Oprator::DfinityCkEthMinter,
    }
}

fn full_reverse_record() -> IcpToEvmTx {
    IcpToEvmTx {
        transaction_hash: Some("0xdeadbeef".to_string()),
        native_ledger_burn_index: 42,
        withdrawal_amount: u128::MAX,
        actual_received: None,
        destination: Address(vec![2u8; 20]),
        from: Principal(vec![3, 3]),
        chain_id: ChainId(1),
        from_subaccount: Some(vec![0u8; 32]),
        time: 1,
        max_transaction_fee: Some(7),
        effective_gas_price: Some(2),
        gas_used: Some(21_000),
        total_gas_spent: Some(42_500),
        erc20_ledger_burn_index: Some(43),
        erc20_contract_address: Address(vec![4u8; 20]),
        icrc_ledger_id: None,
        verified: false,
        status: IcpToEvmStatus::SignedTransaction,
        oprator: Oprator::AppicMinter,
    }
}

#[test]
fn round_trip_forward_record() {
    let tx = full_forward_record();
    let bytes = encode_evm_to_icp_tx(&tx);
    assert_eq!(decode_evm_to_icp_tx(&bytes), Some(tx));
}

#[test]
fn round_trip_forward_record_with_absent_options() {
    let mut tx = full_forward_record();
    tx.block_number = None;
    tx.actual_received = None;
    tx.subaccount = None;
    tx.total_gas_spent = None;
    tx.icrc_ledger_id = None;
    tx.status = EvmToIcpStatus::PendingVerification;
    tx.verified = false;
    let bytes = encode_evm_to_icp_tx(&tx);
    assert_eq!(decode_evm_to_icp_tx(&bytes), Some(tx));
}

#[test]
fn round_trip_reverse_record() {
    let tx = full_reverse_record();
    let bytes = encode_icp_to_evm_tx(&tx);
    assert_eq!(decode_icp_to_evm_tx(&bytes), Some(tx));
}

#[test]
fn round_trip_minter_and_key() {
    let minter = Minter {
        id: Principal(vec![1, 2, 3]),
        last_observed_event: 10,
        last_scraped_event: 9,
        oprator: Oprator::AppicMinter,
        evm_to_icp_fee: 1_000_000,
        icp_to_evm_fee: 2_000_000,
        chain_id: ChainId(8453),
    };
    let bytes = encode_minter(&minter);
    assert_eq!(decode_minter(&bytes), Some(minter));
    let key = MinterKey(ChainId(8453), Oprator::AppicMinter);
    let kb = encode_minter_key(&key);
    assert_eq!(decode_minter_key(&kb), Some(key));
}

#[test]
fn round_trip_identifiers() {
    let fid = EvmToIcpTxIdentifier::new(
        &"0x00000034125423542452345241254235245".to_string(),
        ChainId(56),
    );
    let fb = encode_evm_to_icp_identifier(&fid);
    assert_eq!(decode_evm_to_icp_identifier(&fb), Some(fid));

    let rid = IcpToEvmIdentifier::new(99, ChainId(56));
    let rb = encode_icp_to_evm_identifier(&rid);
    assert_eq!(decode_icp_to_evm_identifier(&rb), Some(rid));

    let tid = Erc20Identifier(Address(vec![7u8; 20]), ChainId(10));
    let tb = encode_erc20_identifier(&tid);
    assert_eq!(decode_erc20_identifier(&tb), Some(tid));

    let p = Principal(vec![0, 1, 2, 3, 4]);
    let pb = encode_principal(&p);
    assert_eq!(decode_principal(&pb), Some(p));
}

#[test]
fn decode_rejects_truncated_and_padded_bytes() {
    let tx = full_forward_record();
    let mut bytes = encode_evm_to_icp_tx(&tx);
    bytes.pop();
    assert_eq!(decode_evm_to_icp_tx(&bytes), None);
    let mut padded = encode_evm_to_icp_tx(&tx);
    padded.push(0);
    assert_eq!(decode_evm_to_icp_tx(&padded), None);
    let empty: Vec<u8> = Vec::new();
    assert_eq!(decode_minter_key(&empty), None);
}

#[test]
fn key_and_identifier_accessors() {
    let key = MinterKey(ChainId(5), Oprator::AppicMinter);
    assert_eq!(key.oprator(), Oprator::AppicMinter);
    assert_eq!(key.chain_id(), ChainId(5));
    let minter = Minter {
        id: Principal(vec![1]),
        last_observed_event: 0,
        last_scraped_event: 0,
        oprator: Oprator::AppicMinter,
        evm_to_icp_fee: 0,
        icp_to_evm_fee: 0,
        chain_id: ChainId(5),
    };
    assert_eq!(MinterKey::from_minter(&minter), key);
    let tid = Erc20Identifier::new(&Address(vec![7u8; 20]), ChainId(10));
    assert_eq!(tid.erc20_address(), Address(vec![7u8; 20]));
    assert_eq!(tid.chain_id(), ChainId(10));
}

#[test]
fn minter_watermark_setters() {
    let mut minter = Minter {
        id: Principal(vec![1]),
        last_observed_event: 0,
        last_scraped_event: 0,
        oprator: Oprator::AppicMinter,
        evm_to_icp_fee: 0,
        icp_to_evm_fee: 0,
        chain_id: ChainId(5),
    };
    minter.update_last_observed_event(17);
    minter.update_last_scraped_event(16);
    assert_eq!(minter.last_observed_event, 17);
    assert_eq!(minter.last_scraped_event, 16);
}
