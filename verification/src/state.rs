//! The transaction store: five persistent tables behind one owned `State`
//! value, with the full state-machine update surface.
//!
//! Every mutating operation is a merge-patch: it fetches the existing record,
//! builds a new record equal to the old one except for explicitly named
//! fields, and stores it back. A status-advancing operation on an absent
//! identifier is a silent no-op. Contracts pin each operation down over
//! [`StateModel`], the ghost model of the whole store.

use vstd::prelude::*;
use std::str::FromStr;
use crate::types::{Address, ChainId, Erc20Identifier, EvmToIcpStatus, EvmToIcpStatusModel,
    EvmToIcpTx, EvmToIcpTxIdentifier, EvmToIcpTxModel, IcpToEvmIdentifier, IcpToEvmStatus,
    IcpToEvmTx, IcpToEvmTxModel, Minter, MinterKey, MinterModel, Oprator, Principal, RecordError,
    TokenPair, TokenPairModel, Transaction, TransactionHash, TransactionModel, TransactionReceipt,
    TransactionStatus, native_token_address};
use crate::store::{OrderedMap, bytes_eq};

verus! {

broadcast use vstd::prelude::Seq::lemma_filter_push;

/// True iff `c` is an ASCII hexadecimal digit.
pub open spec fn is_hex_digit(c: char) -> bool {
    (48 <= c as u32 && c as u32 <= 57)  // '0' ..= '9'
    || (97 <= c as u32 && c as u32 <= 102)  // 'a' ..= 'f'
    || (65 <= c as u32 && c as u32 <= 70)  // 'A' ..= 'F'
}

/// Numeric value of an ASCII hexadecimal digit.
pub open spec fn hex_digit_value(c: char) -> int {
    if 48 <= c as u32 && c as u32 <= 57 {
        c as u32 - 48
    } else if 97 <= c as u32 && c as u32 <= 102 {
        c as u32 - 87
    } else {
        c as u32 - 55
    }
}

/// True iff `s` is `0x` followed by exactly 40 hexadecimal digits.
pub open spec fn valid_address_text(s: Seq<char>) -> bool {
    s.len() == 42 && s[0] as u32 == 48 && s[1] as u32 == 120  // "0x"
    && forall|i: int| 2 <= i < 42 ==> is_hex_digit(#[trigger] s[i])
}

/// The 20 bytes denoted by a valid address text.
pub open spec fn parsed_address_bytes(s: Seq<char>) -> Seq<u8> {
    Seq::new(20, |i: int| (hex_digit_value(s[2 + 2 * i]) * 16 + hex_digit_value(s[3 + 2 * i])) as u8)
}

/// Relies on `ic_ethereum_types::Address::from_str`: it succeeds exactly on
/// `0x` followed by 40 hexadecimal digits and returns their decoded bytes.
#[verifier::external_body]
fn parse_address(s: &String) -> (r: Option<Address>)
    ensures
        (r is Some) == valid_address_text(s@),
        r matches Some(a) ==> a@ == parsed_address_bytes(s@),
{
    match ic_ethereum_types::Address::from_str(s) {
        Ok(a) => Some(Address(a.into_bytes().to_vec())),
        Err(_) => None,
    }
}

/// Ghost model of the whole store.
pub struct StateModel {
    pub minters: Map<(u64, Oprator), MinterModel>,
    pub evm_to_icp_txs: Map<(Seq<char>, u64), EvmToIcpTxModel>,
    pub icp_to_evm_txs: Map<(u64, u64), IcpToEvmTxModel>,
    pub supported_ckerc20_tokens: Map<(Seq<u8>, u64), Seq<u8>>,
    pub supported_twin_appic_tokens: Map<(Seq<u8>, u64), Seq<u8>>,
    pub remove_unverified_active: bool,
}

/// The store: all transfer bookkeeping state, owned explicitly and passed by
/// reference into every operation.
pub struct State {
    pub minters: OrderedMap<MinterKey, Minter>,
    pub evm_to_icp_txs: OrderedMap<EvmToIcpTxIdentifier, EvmToIcpTx>,
    pub icp_to_evm_txs: OrderedMap<IcpToEvmIdentifier, IcpToEvmTx>,
    pub supported_ckerc20_tokens: OrderedMap<Erc20Identifier, Principal>,
    pub supported_twin_appic_tokens: OrderedMap<Erc20Identifier, Principal>,
    /// Single-flight guard of the unverified-transaction reaper.
    pub remove_unverified_active: bool,
}

impl View for State {
    type V = StateModel;

    open spec fn view(&self) -> StateModel {
        StateModel {
            minters: self.minters@,
            evm_to_icp_txs: self.evm_to_icp_txs@,
            icp_to_evm_txs: self.icp_to_evm_txs@,
            supported_ckerc20_tokens: self.supported_ckerc20_tokens@,
            supported_twin_appic_tokens: self.supported_twin_appic_tokens@,
            remove_unverified_active: self.remove_unverified_active,
        }
    }
}

/// The twin-ledger account registered for a token, in the registry partition
/// selected by the operator; no fallback between partitions.
pub open spec fn twin_model(s: StateModel, id: (Seq<u8>, u64), oprator: Oprator) -> Option<
    Seq<u8>,
> {
    let reg = match oprator {
        Oprator::AppicMinter => s.supported_twin_appic_tokens,
        Oprator::DfinityCkEthMinter => s.supported_ckerc20_tokens,
    };
    if reg.contains_key(id) {
        Some(reg[id])
    } else {
        None
    }
}

/// The key under which a minter record stores itself.
pub open spec fn minter_self_key(m: MinterModel) -> (u64, Oprator) {
    (m.chain_id, m.oprator)
}

/// Merge-patch applied to an existing forward record by `record_accepted_evm_to_icp`.
pub open spec fn accepted_evm_patch(
    tx: EvmToIcpTxModel,
    block_number: u128,
    from_address: Seq<u8>,
    value: u128,
    principal: Seq<u8>,
    erc20_contract_address: Seq<u8>,
    subaccount: Option<Seq<u8>>,
) -> EvmToIcpTxModel {
    EvmToIcpTxModel {
        verified: true,
        block_number: Some(block_number),
        from_address: from_address,
        value: value,
        principal: principal,
        erc20_contract_address: erc20_contract_address,
        subaccount: subaccount,
        status: EvmToIcpStatusModel::Accepted,
        ..tx
    }
}

/// The fresh forward record created by `record_accepted_evm_to_icp`; the
/// twin-ledger account is resolved at creation time only.
pub open spec fn fresh_accepted_evm_tx(
    s: StateModel,
    transaction_hash: Seq<char>,
    block_number: u128,
    from_address: Seq<u8>,
    value: u128,
    principal: Seq<u8>,
    erc20_contract_address: Seq<u8>,
    subaccount: Option<Seq<u8>>,
    chain_id: u64,
    oprator: Oprator,
    timestamp: u64,
) -> EvmToIcpTxModel {
    EvmToIcpTxModel {
        from_address: from_address,
        transaction_hash: transaction_hash,
        value: value,
        block_number: Some(block_number),
        actual_received: None,
        principal: principal,
        subaccount: subaccount,
        chain_id: chain_id,
        total_gas_spent: None,
        erc20_contract_address: erc20_contract_address,
        icrc_ledger_id: twin_model(s, (erc20_contract_address, chain_id), oprator),
        status: EvmToIcpStatusModel::Accepted,
        verified: true,
        time: timestamp,
        oprator: oprator,
    }
}

/// The amount actually received once a forward transfer is minted: for the
/// native asset the fee is deducted, clamped so the result never underflows;
/// a token amount passes through unchanged.
pub open spec fn minted_actual_received(value: u128, erc20: Seq<u8>, fee: u128) -> u128 {
    if erc20 == native_token_address() {
        if fee <= value {
            (value - fee) as u128
        } else {
            value
        }
    } else {
        value
    }
}

/// Merge-patch applied by `record_minted_evm_to_icp`.
pub open spec fn minted_evm_patch(tx: EvmToIcpTxModel, fee: u128) -> EvmToIcpTxModel {
    EvmToIcpTxModel {
        actual_received: Some(minted_actual_received(tx.value, tx.erc20_contract_address, fee)),
        status: EvmToIcpStatusModel::Minted,
        ..tx
    }
}

/// Merge-patch applied to an existing reverse record by `record_accepted_icp_to_evm`.
pub open spec fn accepted_icp_patch(
    tx: IcpToEvmTxModel,
    max_transaction_fee: Option<u128>,
    withdrawal_amount: u128,
    erc20_contract_address: Seq<u8>,
    destination: Seq<u8>,
    native_ledger_burn_index: u64,
    erc20_ledger_burn_index: Option<u64>,
    from: Seq<u8>,
    from_subaccount: Option<Seq<u8>>,
) -> IcpToEvmTxModel {
    IcpToEvmTxModel {
        verified: true,
        max_transaction_fee: max_transaction_fee,
        withdrawal_amount: withdrawal_amount,
        erc20_contract_address: erc20_contract_address,
        destination: destination,
        native_ledger_burn_index: native_ledger_burn_index,
        erc20_ledger_burn_index: erc20_ledger_burn_index,
        from: from,
        from_subaccount: from_subaccount,
        status: IcpToEvmStatus::Accepted,
        ..tx
    }
}

/// The fresh reverse record created by `record_accepted_icp_to_evm`. Its
/// creation time is the supplied `created_at` when present, else `timestamp`.
pub open spec fn fresh_accepted_icp_tx(
    s: StateModel,
    max_transaction_fee: Option<u128>,
    withdrawal_amount: u128,
    erc20_contract_address: Seq<u8>,
    destination: Seq<u8>,
    native_ledger_burn_index: u64,
    erc20_ledger_burn_index: Option<u64>,
    from: Seq<u8>,
    from_subaccount: Option<Seq<u8>>,
    created_at: Option<u64>,
    oprator: Oprator,
    chain_id: u64,
    timestamp: u64,
) -> IcpToEvmTxModel {
    IcpToEvmTxModel {
        transaction_hash: None,
        native_ledger_burn_index: native_ledger_burn_index,
        withdrawal_amount: withdrawal_amount,
        actual_received: None,
        destination: destination,
        from: from,
        chain_id: chain_id,
        from_subaccount: from_subaccount,
        time: if created_at is Some { created_at.unwrap() } else { timestamp },
        max_transaction_fee: max_transaction_fee,
        effective_gas_price: None,
        gas_used: None,
        total_gas_spent: None,
        erc20_ledger_burn_index: erc20_ledger_burn_index,
        erc20_contract_address: erc20_contract_address,
        icrc_ledger_id: twin_model(s, (erc20_contract_address, chain_id), oprator),
        verified: true,
        status: IcpToEvmStatus::Accepted,
        oprator: oprator,
    }
}

/// Total gas spent by a finalized reverse transfer, as an unbounded integer.
pub open spec fn spec_total_gas_spent(gas_used: u128, effective_gas_price: u128, fee: u128) -> int {
    gas_used * effective_gas_price + fee
}

/// The amount actually received by a finalized reverse transfer: for the
/// native asset the total gas is deducted and underflow yields an absent
/// result (not a clamped one); a token amount passes through unchanged.
pub open spec fn finalized_actual_received(
    withdrawal_amount: u128,
    erc20: Seq<u8>,
    total_gas_spent: u128,
) -> Option<u128> {
    if erc20 == native_token_address() {
        if total_gas_spent <= withdrawal_amount {
            Some((withdrawal_amount - total_gas_spent) as u128)
        } else {
            None
        }
    } else {
        Some(withdrawal_amount)
    }
}

/// Merge-patch applied by `record_finalized_icp_to_evm` when the gas
/// arithmetic fits the amount type.
pub open spec fn finalized_icp_patch(
    tx: IcpToEvmTxModel,
    transaction_hash: Seq<char>,
    gas_used: u128,
    effective_gas_price: u128,
    fee: u128,
    outcome: TransactionStatus,
) -> IcpToEvmTxModel {
    let total = (gas_used * effective_gas_price + fee) as u128;
    IcpToEvmTxModel {
        actual_received: finalized_actual_received(
            tx.withdrawal_amount,
            tx.erc20_contract_address,
            total,
        ),
        transaction_hash: Some(transaction_hash),
        gas_used: Some(gas_used),
        effective_gas_price: Some(effective_gas_price),
        total_gas_spent: Some(total),
        status: match outcome {
            TransactionStatus::Success => IcpToEvmStatus::Successful,
            TransactionStatus::Failure => IcpToEvmStatus::Failed,
        },
        ..tx
    }
}

/// The amount actually received by a finalized reverse transfer.
pub fn calculate_actual_icp_to_evm_received(
    withdrawal_amount: u128,
    total_gas_spent: u128,
    native: bool,
) -> (r: Option<u128>)
    ensures
        native ==> r == (if total_gas_spent <= withdrawal_amount {
            Some((withdrawal_amount - total_gas_spent) as u128)
        } else {
            None::<u128>
        }),
        !native ==> r == Some(withdrawal_amount),
{
    if native {
        withdrawal_amount.checked_sub(total_gas_spent)
    } else {
        Some(withdrawal_amount)
    }
}

impl State {
    /// All five tables are well formed.
    pub open spec fn wf(self) -> bool {
        self.minters.wf() && self.evm_to_icp_txs.wf() && self.icp_to_evm_txs.wf()
            && self.supported_ckerc20_tokens.wf() && self.supported_twin_appic_tokens.wf()
    }

    /// Creates an empty store with the reaper guard released.
    pub fn init() -> (r: State)
        ensures
            r.wf(),
            r@.minters == Map::<(u64, Oprator), MinterModel>::empty(),
            r@.evm_to_icp_txs == Map::<(Seq<char>, u64), EvmToIcpTxModel>::empty(),
            r@.icp_to_evm_txs == Map::<(u64, u64), IcpToEvmTxModel>::empty(),
            r@.supported_ckerc20_tokens == Map::<(Seq<u8>, u64), Seq<u8>>::empty(),
            r@.supported_twin_appic_tokens == Map::<(Seq<u8>, u64), Seq<u8>>::empty(),
            !r@.remove_unverified_active,
    {
        State {
            minters: OrderedMap::new(),
            evm_to_icp_txs: OrderedMap::new(),
            icp_to_evm_txs: OrderedMap::new(),
            supported_ckerc20_tokens: OrderedMap::new(),
            supported_twin_appic_tokens: OrderedMap::new(),
            remove_unverified_active: false,
        }
    }

    /// Inserts or fully replaces the minter record keyed by the minter's own
    /// chain and operator.
    pub fn record_minter(&mut self, minter: Minter)
        requires
            old(self).wf(),
        ensures
            final(self).wf(),
            final(self)@ == (StateModel {
                minters: old(self)@.minters.insert(minter_self_key(minter@), minter@),
                ..old(self)@
            }),
    {
        let key = MinterKey::from_minter(&minter);
        self.minters.insert(key, minter);
    }

    /// Replaces a registered minter's fees; a no-op if the key is absent.
    pub fn update_minter_fees(
        &mut self,
        minter_key: &MinterKey,
        evm_to_icp_fee: u128,
        icp_to_evm_fee: u128,
    )
        requires
            old(self).wf(),
        ensures
            final(self).wf(),
            old(self)@.minters.contains_key(minter_key@) ==> final(self)@ == (StateModel {
                minters: old(self)@.minters.insert(
                    minter_self_key(old(self)@.minters[minter_key@]),
                    (MinterModel {
                        evm_to_icp_fee: evm_to_icp_fee,
                        icp_to_evm_fee: icp_to_evm_fee,
                        ..old(self)@.minters[minter_key@]
                    }),
                ),
                ..old(self)@
            }),
            !old(self)@.minters.contains_key(minter_key@) ==> final(self)@ == old(self)@,
    {
        let found = match self.minters.get(minter_key) {
            Some(minter) => Some(minter.clone()),
            None => None,
        };
        if let Some(minter) = found {
            let new_minter = Minter { evm_to_icp_fee, icp_to_evm_fee, ..minter };
            self.record_minter(new_minter);
        }
    }

    /// Advances a registered minter's last-observed-event watermark;
    /// a no-op if the key is absent.
    pub fn update_last_observed_event(&mut self, minter_key: &MinterKey, last_observed_event: u64)
        requires
            old(self).wf(),
        ensures
            final(self).wf(),
            old(self)@.minters.contains_key(minter_key@) ==> final(self)@ == (StateModel {
                minters: old(self)@.minters.insert(
                    minter_self_key(old(self)@.minters[minter_key@]),
                    (MinterModel {
                        last_observed_event: last_observed_event,
                        ..old(self)@.minters[minter_key@]
                    }),
                ),
                ..old(self)@
            }),
            !old(self)@.minters.contains_key(minter_key@) ==> final(self)@ == old(self)@,
    {
        let found = match self.minters.get(minter_key) {
            Some(minter) => Some(minter.clone()),
            None => None,
        };
        if let Some(minter) = found {
            let new_minter = Minter { last_observed_event, ..minter };
            self.record_minter(new_minter);
        }
    }

    /// Advances a registered minter's last-scraped-event watermark;
    /// a no-op if the key is absent.
    pub fn update_last_scraped_event(&mut self, minter_key: &MinterKey, last_scraped_event: u64)
        requires
            old(self).wf(),
        ensures
            final(self).wf(),
            old(self)@.minters.contains_key(minter_key@) ==> final(self)@ == (StateModel {
                minters: old(self)@.minters.insert(
                    minter_self_key(old(self)@.minters[minter_key@]),
                    (MinterModel {
                        last_scraped_event: last_scraped_event,
                        ..old(self)@.minters[minter_key@]
                    }),
                ),
                ..old(self)@
            }),
            !old(self)@.minters.contains_key(minter_key@) ==> final(self)@ == old(self)@,
    {
        let found = match self.minters.get(minter_key) {
            Some(minter) => Some(minter.clone()),
            None => None,
        };
        if let Some(minter) = found {
            let new_minter = Minter { last_scraped_event, ..minter };
            self.record_minter(new_minter);
        }
    }

    /// Lists all registered minters, in ascending key order.
    pub fn get_minters(&self) -> (r: Vec<(MinterKey, Minter)>)
        requires
            self.wf(),
        ensures
            r@.len() == self.minters.kv_seq().len(),
            forall|i: int|
                0 <= i < r@.len() ==> ((#[trigger] r@[i]).0@, r@[i].1@) == self.minters.kv_seq()[i],
    {
        let mut out: Vec<(MinterKey, Minter)> = Vec::new();
        let mut i: usize = 0;
        let n = self.minters.len();
        while i < n
            invariant
                self.wf(),
                n == self.minters.kv_seq().len(),
                i <= n,
                out@.len() == i,
                forall|j: int|
                    0 <= j < i ==> ((#[trigger] out@[j]).0@, out@[j].1@)
                        == self.minters.kv_seq()[j],
            decreases n - i,
        {
            let key: MinterKey = *self.minters.key_ref(i);
            let val: Minter = self.minters.val_ref(i).clone();
            out.push((key, val));
            i += 1;
        }
        out
    }

    /// True iff some registered minter serves the given chain.
    pub fn if_chain_id_exists(&self, chain_id: ChainId) -> (r: bool)
        requires
            self.wf(),
        ensures
            r == exists|k: (u64, Oprator)|
                #[trigger] self@.minters.contains_key(k) && self@.minters[k].chain_id == chain_id.0,
    {
        proof {
            self.minters.lemma_view_kv();
        }
        let n = self.minters.len();
        let mut i: usize = 0;
        while i < n
            invariant
                self.wf(),
                n == self.minters.kv_seq().len(),
                i <= n,
                forall|j: int|
                    0 <= j < i ==> (#[trigger] self.minters.kv_seq()[j]).1.chain_id != chain_id.0,
            decreases n - i,
        {
            if self.minters.val_ref(i).chain_id.0 == chain_id.0 {
                proof {
                    self.minters.lemma_at_index(i as int);
                }
                return true;
            }
            i += 1;
        }
        proof {
            self.minters.lemma_view_kv();
        }
        false
    }

    /// The twin-ledger account for a token, looked up in the operator's
    /// registry partition.
    pub fn get_icrc_twin_for_erc20(
        &self,
        erc20_identifier: &Erc20Identifier,
        oprator: &Oprator,
    ) -> (r: Option<Principal>)
        requires
            self.wf(),
        ensures
            r.deep_view() == twin_model(self@, erc20_identifier@, *oprator),
    {
        match oprator {
            Oprator::AppicMinter => {
                match self.supported_twin_appic_tokens.get(erc20_identifier) {
                    Some(token_principal) => Some(token_principal.clone()),
                    None => None,
                }
            },
            Oprator::DfinityCkEthMinter => {
                match self.supported_ckerc20_tokens.get(erc20_identifier) {
                    Some(token_principal) => Some(token_principal.clone()),
                    None => None,
                }
            },
        }
    }

    /// True iff a forward record exists under the identifier.
    pub fn if_evm_to_icp_tx_exists(&self, identifier: &EvmToIcpTxIdentifier) -> (r: bool)
        requires
            self.wf(),
        ensures
            r == self@.evm_to_icp_txs.contains_key(identifier@),
    {
        self.evm_to_icp_txs.contains_key(identifier)
    }

    /// True iff a reverse record exists under the identifier.
    pub fn if_icp_to_evm_tx_exists(&self, identifier: &IcpToEvmIdentifier) -> (r: bool)
        requires
            self.wf(),
        ensures
            r == self@.icp_to_evm_txs.contains_key(identifier@),
    {
        self.icp_to_evm_txs.contains_key(identifier)
    }

    /// Inserts or fully replaces a forward record.
    pub fn record_new_evm_to_icp(&mut self, identifier: EvmToIcpTxIdentifier, tx: EvmToIcpTx)
        requires
            old(self).wf(),
        ensures
            final(self).wf(),
            final(self)@ == (StateModel {
                evm_to_icp_txs: old(self)@.evm_to_icp_txs.insert(identifier@, tx@),
                ..old(self)@
            }),
    {
        self.evm_to_icp_txs.insert(identifier, tx);
    }

    /// Records an observed forward transfer. If the identifier exists the
    /// existing record is merge-patched and marked verified; otherwise a new
    /// verified record is created with `time = timestamp` and the twin-ledger
    /// account resolved now. Malformed address text is rejected and leaves
    /// the store unchanged.
    pub fn record_accepted_evm_to_icp(
        &mut self,
        identifier: EvmToIcpTxIdentifier,
        transaction_hash: TransactionHash,
        block_number: u128,
        from_address: String,
        value: u128,
        principal: Principal,
        erc20_contract_address: String,
        subaccount: Option<Vec<u8>>,
        chain_id: ChainId,
        oprator: Oprator,
        timestamp: u64,
    ) -> (r: Result<(), RecordError>)
        requires
            old(self).wf(),
        ensures
            final(self).wf(),
            (r is Ok) == (valid_address_text(from_address@) && valid_address_text(
                erc20_contract_address@,
            )),
            r is Err ==> r == Err::<(), RecordError>(RecordError::InvalidAddress) && final(self)@
                == old(self)@,
            r is Ok ==> final(self)@ == (StateModel {
                evm_to_icp_txs: old(self)@.evm_to_icp_txs.insert(
                    identifier@,
                    if old(self)@.evm_to_icp_txs.contains_key(identifier@) {
                        accepted_evm_patch(
                            old(self)@.evm_to_icp_txs[identifier@],
                            block_number,
                            parsed_address_bytes(from_address@),
                            value,
                            principal@,
                            parsed_address_bytes(erc20_contract_address@),
                            subaccount.deep_view(),
                        )
                    } else {
                        fresh_accepted_evm_tx(
                            old(self)@,
                            transaction_hash@,
                            block_number,
                            parsed_address_bytes(from_address@),
                            value,
                            principal@,
                            parsed_address_bytes(erc20_contract_address@),
                            subaccount.deep_view(),
                            chain_id.0,
                            oprator,
                            timestamp,
                        )
                    },
                ),
                ..old(self)@
            }),
    {
        let parsed_from_address = match parse_address(&from_address) {
            Some(a) => a,
            None => {
                return Err(RecordError::InvalidAddress);
            },
        };
        let parsed_erc20_address = match parse_address(&erc20_contract_address) {
            Some(a) => a,
            None => {
                return Err(RecordError::InvalidAddress);
            },
        };
        let found = match self.evm_to_icp_txs.get(&identifier) {
            Some(tx) => Some(tx.clone()),
            None => None,
        };
        match found {
            Some(tx) => {
                let new_tx = EvmToIcpTx {
                    verified: true,
                    block_number: Some(block_number),
                    from_address: parsed_from_address,
                    value,
                    principal,
                    erc20_contract_address: parsed_erc20_address,
                    subaccount,
                    status: EvmToIcpStatus::Accepted,
                    ..tx
                };
                self.record_new_evm_to_icp(identifier, new_tx);
            },
            None => {
                let icrc_ledger_id = self.get_icrc_twin_for_erc20(
                    &Erc20Identifier::new(&parsed_erc20_address, chain_id),
                    &oprator,
                );
                let new_tx = EvmToIcpTx {
                    from_address: parsed_from_address,
                    transaction_hash,
                    value,
                    block_number: Some(block_number),
                    actual_received: None,
                    principal,
                    subaccount,
                    chain_id,
                    total_gas_spent: None,
                    erc20_contract_address: parsed_erc20_address,
                    icrc_ledger_id,
                    status: EvmToIcpStatus::Accepted,
                    verified: true,
                    time: timestamp,
                    oprator,
                };
                self.record_new_evm_to_icp(identifier, new_tx);
            },
        }
        Ok(())
    }

    /// Marks a forward transfer minted, computing the amount actually
    /// received; the fee never drives the result negative (it clamps).
    /// A no-op if the identifier is absent.
    pub fn record_minted_evm_to_icp(
        &mut self,
        identifier: EvmToIcpTxIdentifier,
        evm_to_icp_fee: u128,
    )
        requires
            old(self).wf(),
        ensures
            final(self).wf(),
            old(self)@.evm_to_icp_txs.contains_key(identifier@) ==> final(self)@ == (StateModel {
                evm_to_icp_txs: old(self)@.evm_to_icp_txs.insert(
                    identifier@,
                    minted_evm_patch(old(self)@.evm_to_icp_txs[identifier@], evm_to_icp_fee),
                ),
                ..old(self)@
            }),
            !old(self)@.evm_to_icp_txs.contains_key(identifier@) ==> final(self)@ == old(self)@,
    {
        let found = match self.evm_to_icp_txs.get(&identifier) {
            Some(tx) => Some(tx.clone()),
            None => None,
        };
        if let Some(tx) = found {
            let actual_received = if crate::types::is_native_token(&tx.erc20_contract_address) {
                Some(match tx.value.checked_sub(evm_to_icp_fee) {
                    Some(v) => v,
                    None => tx.value,
                })
            } else {
                Some(tx.value)
            };
            let new_tx = EvmToIcpTx { actual_received, status: EvmToIcpStatus::Minted, ..tx };
            self.record_new_evm_to_icp(identifier, new_tx);
        }
    }

    /// Marks a forward transfer invalid, with the reason.
    /// A no-op if the identifier is absent.
    pub fn record_invalid_evm_to_icp(&mut self, identifier: EvmToIcpTxIdentifier, reason: String)
        requires
            old(self).wf(),
        ensures
            final(self).wf(),
            old(self)@.evm_to_icp_txs.contains_key(identifier@) ==> final(self)@ == (StateModel {
                evm_to_icp_txs: old(self)@.evm_to_icp_txs.insert(
                    identifier@,
                    (EvmToIcpTxModel {
                        status: EvmToIcpStatusModel::Invalid(reason@),
                        ..old(self)@.evm_to_icp_txs[identifier@]
                    }),
                ),
                ..old(self)@
            }),
            !old(self)@.evm_to_icp_txs.contains_key(identifier@) ==> final(self)@ == old(self)@,
    {
        let found = match self.evm_to_icp_txs.get(&identifier) {
            Some(tx) => Some(tx.clone()),
            None => None,
        };
        if let Some(tx) = found {
            let new_tx = EvmToIcpTx { status: EvmToIcpStatus::Invalid(reason), ..tx };
            self.record_new_evm_to_icp(identifier, new_tx);
        }
    }

    /// Quarantines a forward transfer. A no-op if the identifier is absent.
    pub fn record_quarantined_evm_to_icp(&mut self, identifier: EvmToIcpTxIdentifier)
        requires
            old(self).wf(),
        ensures
            final(self).wf(),
            old(self)@.evm_to_icp_txs.contains_key(identifier@) ==> final(self)@ == (StateModel {
                evm_to_icp_txs: old(self)@.evm_to_icp_txs.insert(
                    identifier@,
                    (EvmToIcpTxModel {
                        status: EvmToIcpStatusModel::Quarantined,
                        ..old(self)@.evm_to_icp_txs[identifier@]
                    }),
                ),
                ..old(self)@
            }),
            !old(self)@.evm_to_icp_txs.contains_key(identifier@) ==> final(self)@ == old(self)@,
    {
        let found = match self.evm_to_icp_txs.get(&identifier) {
            Some(tx) => Some(tx.clone()),
            None => None,
        };
        if let Some(tx) = found {
            let new_tx = EvmToIcpTx { status: EvmToIcpStatus::Quarantined, ..tx };
            self.record_new_evm_to_icp(identifier, new_tx);
        }
    }

    /// Inserts or fully replaces a reverse record.
    pub fn record_new_icp_to_evm(&mut self, identifier: IcpToEvmIdentifier, tx: IcpToEvmTx)
        requires
            old(self).wf(),
        ensures
            final(self).wf(),
            final(self)@ == (StateModel {
                icp_to_evm_txs: old(self)@.icp_to_evm_txs.insert(identifier@, tx@),
                ..old(self)@
            }),
    {
        self.icp_to_evm_txs.insert(identifier, tx);
    }

    /// Records an observed reverse transfer (a withdrawal); like the forward
    /// direction, but the creation time is the externally supplied
    /// `created_at` when present.
    pub fn record_accepted_icp_to_evm(
        &mut self,
        identifier: IcpToEvmIdentifier,
        max_transaction_fee: Option<u128>,
        withdrawal_amount: u128,
        erc20_contract_address: String,
        destination: String,
        native_ledger_burn_index: u64,
        erc20_ledger_burn_index: Option<u64>,
        from: Principal,
        from_subaccount: Option<Vec<u8>>,
        created_at: Option<u64>,
        oprator: Oprator,
        chain_id: ChainId,
        timestamp: u64,
    ) -> (r: Result<(), RecordError>)
        requires
            old(self).wf(),
        ensures
            final(self).wf(),
            (r is Ok) == (valid_address_text(destination@) && valid_address_text(
                erc20_contract_address@,
            )),
            r is Err ==> r == Err::<(), RecordError>(RecordError::InvalidAddress) && final(self)@
                == old(self)@,
            r is Ok ==> final(self)@ == (StateModel {
                icp_to_evm_txs: old(self)@.icp_to_evm_txs.insert(
                    identifier@,
                    if old(self)@.icp_to_evm_txs.contains_key(identifier@) {
                        accepted_icp_patch(
                            old(self)@.icp_to_evm_txs[identifier@],
                            max_transaction_fee,
                            withdrawal_amount,
                            parsed_address_bytes(erc20_contract_address@),
                            parsed_address_bytes(destination@),
                            native_ledger_burn_index,
                            erc20_ledger_burn_index,
                            from@,
                            from_subaccount.deep_view(),
                        )
                    } else {
                        fresh_accepted_icp_tx(
                            old(self)@,
                            max_transaction_fee,
                            withdrawal_amount,
                            parsed_address_bytes(erc20_contract_address@),
                            parsed_address_bytes(destination@),
                            native_ledger_burn_index,
                            erc20_ledger_burn_index,
                            from@,
                            from_subaccount.deep_view(),
                            created_at,
                            oprator,
                            chain_id.0,
                            timestamp,
                        )
                    },
                ),
                ..old(self)@
            }),
    {
        let destination_address = match parse_address(&destination) {
            Some(a) => a,
            None => {
                return Err(RecordError::InvalidAddress);
            },
        };
        let erc20_address = match parse_address(&erc20_contract_address) {
            Some(a) => a,
            None => {
                return Err(RecordError::InvalidAddress);
            },
        };
        let found = match self.icp_to_evm_txs.get(&identifier) {
            Some(tx) => Some(tx.clone()),
            None => None,
        };
        match found {
            Some(tx) => {
                let new_tx = IcpToEvmTx {
                    verified: true,
                    max_transaction_fee,
                    withdrawal_amount,
                    erc20_contract_address: erc20_address,
                    destination: destination_address,
                    native_ledger_burn_index,
                    erc20_ledger_burn_index,
                    from,
                    from_subaccount,
                    status: IcpToEvmStatus::Accepted,
                    ..tx
                };
                self.record_new_icp_to_evm(identifier, new_tx);
            },
            None => {
                let icrc_ledger_id = self.get_icrc_twin_for_erc20(
                    &Erc20Identifier::new(&erc20_address, chain_id),
                    &oprator,
                );
                let time: u64 = match created_at {
                    Some(t) => t,
                    None => timestamp,
                };
                let new_tx = IcpToEvmTx {
                    transaction_hash: None,
                    native_ledger_burn_index,
                    withdrawal_amount,
                    actual_received: None,
                    destination: destination_address,
                    from,
                    chain_id,
                    from_subaccount,
                    time,
                    max_transaction_fee,
                    effective_gas_price: None,
                    gas_used: None,
                    total_gas_spent: None,
                    erc20_ledger_burn_index,
                    erc20_contract_address: erc20_address,
                    icrc_ledger_id,
                    verified: true,
                    status: IcpToEvmStatus::Accepted,
                    oprator,
                };
                self.record_new_icp_to_evm(identifier, new_tx);
            },
        }
        Ok(())
    }

    /// Marks a reverse transfer's destination-chain transaction created.
    /// A no-op if the identifier is absent.
    pub fn record_created_icp_to_evm(&mut self, identifier: IcpToEvmIdentifier)
        requires
            old(self).wf(),
        ensures
            final(self).wf(),
            old(self)@.icp_to_evm_txs.contains_key(identifier@) ==> final(self)@ == (StateModel {
                icp_to_evm_txs: old(self)@.icp_to_evm_txs.insert(
                    identifier@,
                    (IcpToEvmTxModel {
                        status: IcpToEvmStatus::Created,
                        ..old(self)@.icp_to_evm_txs[identifier@]
                    }),
                ),
                ..old(self)@
            }),
            !old(self)@.icp_to_evm_txs.contains_key(identifier@) ==> final(self)@ == old(self)@,
    {
        let found = match self.icp_to_evm_txs.get(&identifier) {
            Some(tx) => Some(tx.clone()),
            None => None,
        };
        if let Some(tx) = found {
            let new_tx = IcpToEvmTx { status: IcpToEvmStatus::Created, ..tx };
            self.record_new_icp_to_evm(identifier, new_tx);
        }
    }

    /// Marks a reverse transfer's transaction signed.
    /// A no-op if the identifier is absent.
    pub fn record_signed_icp_to_evm(&mut self, identifier: IcpToEvmIdentifier)
        requires
            old(self).wf(),
        ensures
            final(self).wf(),
            old(self)@.icp_to_evm_txs.contains_key(identifier@) ==> final(self)@ == (StateModel {
                icp_to_evm_txs: old(self)@.icp_to_evm_txs.insert(
                    identifier@,
                    (IcpToEvmTxModel {
                        status: IcpToEvmStatus::SignedTransaction,
                        ..old(self)@.icp_to_evm_txs[identifier@]
                    }),
                ),
                ..old(self)@
            }),
            !old(self)@.icp_to_evm_txs.contains_key(identifier@) ==> final(self)@ == old(self)@,
    {
        let found = match self.icp_to_evm_txs.get(&identifier) {
            Some(tx) => Some(tx.clone()),
            None => None,
        };
        if let Some(tx) = found {
            let new_tx = IcpToEvmTx { status: IcpToEvmStatus::SignedTransaction, ..tx };
            self.record_new_icp_to_evm(identifier, new_tx);
        }
    }

    /// Marks a reverse transfer's transaction replaced.
    /// A no-op if the identifier is absent.
    pub fn record_replaced_icp_to_evm(&mut self, identifier: IcpToEvmIdentifier)
        requires
            old(self).wf(),
        ensures
            final(self).wf(),
            old(self)@.icp_to_evm_txs.contains_key(identifier@) ==> final(self)@ == (StateModel {
                icp_to_evm_txs: old(self)@.icp_to_evm_txs.insert(
                    identifier@,
                    (IcpToEvmTxModel {
                        status: IcpToEvmStatus::ReplacedTransaction,
                        ..old(self)@.icp_to_evm_txs[identifier@]
                    }),
                ),
                ..old(self)@
            }),
            !old(self)@.icp_to_evm_txs.contains_key(identifier@) ==> final(self)@ == old(self)@,
    {
        let found = match self.icp_to_evm_txs.get(&identifier) {
            Some(tx) => Some(tx.clone()),
            None => None,
        };
        if let Some(tx) = found {
            let new_tx = IcpToEvmTx { status: IcpToEvmStatus::ReplacedTransaction, ..tx };
            self.record_new_icp_to_evm(identifier, new_tx);
        }
    }

    /// Finalizes a reverse transfer from its receipt: records the gas used,
    /// the effective gas price, the total gas spent
    /// (`gas_used * effective_gas_price + fee`), the amount actually
    /// received, the reported transaction hash, and the binary outcome.
    /// Overflow of the gas arithmetic is an unrecoverable fault and leaves
    /// the store unchanged. A no-op if the identifier is absent.
    pub fn record_finalized_icp_to_evm(
        &mut self,
        identifier: IcpToEvmIdentifier,
        receipt: TransactionReceipt,
        icp_to_evm_fee: u128,
    ) -> (r: Result<(), RecordError>)
        requires
            old(self).wf(),
        ensures
            final(self).wf(),
            !old(self)@.icp_to_evm_txs.contains_key(identifier@) ==> r is Ok && final(self)@
                == old(self)@,
            old(self)@.icp_to_evm_txs.contains_key(identifier@) ==> (r is Ok) == (
            spec_total_gas_spent(receipt.gas_used, receipt.effective_gas_price, icp_to_evm_fee)
                <= u128::MAX),
            r is Err ==> r == Err::<(), RecordError>(RecordError::AmountOverflow) && final(self)@
                == old(self)@,
            old(self)@.icp_to_evm_txs.contains_key(identifier@) && r is Ok ==> final(self)@
                == (StateModel {
                icp_to_evm_txs: old(self)@.icp_to_evm_txs.insert(
                    identifier@,
                    finalized_icp_patch(
                        old(self)@.icp_to_evm_txs[identifier@],
                        receipt.transaction_hash@,
                        receipt.gas_used,
                        receipt.effective_gas_price,
                        icp_to_evm_fee,
                        receipt.status,
                    ),
                ),
                ..old(self)@
            }),
    {
        let found = match self.icp_to_evm_txs.get(&identifier) {
            Some(tx) => Some(tx.clone()),
            None => None,
        };
        if let Some(tx) = found {
            let product = match receipt.gas_used.checked_mul(receipt.effective_gas_price) {
                Some(p) => p,
                None => {
                    return Err(RecordError::AmountOverflow);
                },
            };
            let total_gas_spent = match product.checked_add(icp_to_evm_fee) {
                Some(t) => t,
                None => {
                    return Err(RecordError::AmountOverflow);
                },
            };
            let native = crate::types::is_native_token(&tx.erc20_contract_address);
            let actual_received = calculate_actual_icp_to_evm_received(
                tx.withdrawal_amount,
                total_gas_spent,
                native,
            );
            let status = match receipt.status {
                TransactionStatus::Success => IcpToEvmStatus::Successful,
                TransactionStatus::Failure => IcpToEvmStatus::Failed,
            };
            let new_tx = IcpToEvmTx {
                actual_received,
                transaction_hash: Some(receipt.transaction_hash),
                gas_used: Some(receipt.gas_used),
                effective_gas_price: Some(receipt.effective_gas_price),
                total_gas_spent: Some(total_gas_spent),
                status,
                ..tx
            };
            self.record_new_icp_to_evm(identifier, new_tx);
        }
        Ok(())
    }

    /// Marks a failed reverse transfer reimbursed.
    /// A no-op if the identifier is absent.
    pub fn record_reimbursed_icp_to_evm(&mut self, identifier: IcpToEvmIdentifier)
        requires
            old(self).wf(),
        ensures
            final(self).wf(),
            old(self)@.icp_to_evm_txs.contains_key(identifier@) ==> final(self)@ == (StateModel {
                icp_to_evm_txs: old(self)@.icp_to_evm_txs.insert(
                    identifier@,
                    (IcpToEvmTxModel {
                        status: IcpToEvmStatus::Reimbursed,
                        ..old(self)@.icp_to_evm_txs[identifier@]
                    }),
                ),
                ..old(self)@
            }),
            !old(self)@.icp_to_evm_txs.contains_key(identifier@) ==> final(self)@ == old(self)@,
    {
        let found = match self.icp_to_evm_txs.get(&identifier) {
            Some(tx) => Some(tx.clone()),
            None => None,
        };
        if let Some(tx) = found {
            let new_tx = IcpToEvmTx { status: IcpToEvmStatus::Reimbursed, ..tx };
            self.record_new_icp_to_evm(identifier, new_tx);
        }
    }

    /// Quarantines a reverse transfer's reimbursement.
    /// A no-op if the identifier is absent.
    pub fn record_quarantined_reimbursed_icp_to_evm(&mut self, identifier: IcpToEvmIdentifier)
        requires
            old(self).wf(),
        ensures
            final(self).wf(),
            old(self)@.icp_to_evm_txs.contains_key(identifier@) ==> final(self)@ == (StateModel {
                icp_to_evm_txs: old(self)@.icp_to_evm_txs.insert(
                    identifier@,
                    (IcpToEvmTxModel {
                        status: IcpToEvmStatus::QuarantinedReimbursement,
                        ..old(self)@.icp_to_evm_txs[identifier@]
                    }),
                ),
                ..old(self)@
            }),
            !old(self)@.icp_to_evm_txs.contains_key(identifier@) ==> final(self)@ == old(self)@,
    {
        let found = match self.icp_to_evm_txs.get(&identifier) {
            Some(tx) => Some(tx.clone()),
            None => None,
        };
        if let Some(tx) = found {
            let new_tx = IcpToEvmTx { status: IcpToEvmStatus::QuarantinedReimbursement, ..tx };
            self.record_new_icp_to_evm(identifier, new_tx);
        }
    }

    /// All unverified forward records, as identifier and creation time,
    /// in ascending key order.
    pub fn all_unverified_evm_to_icp(&self) -> (r: Vec<(EvmToIcpTxIdentifier, u64)>)
        requires
            self.wf(),
        ensures
            r@.map_values(|p: (EvmToIcpTxIdentifier, u64)| (p.0@, p.1))
                == self.evm_to_icp_txs.kv_seq().filter(
                |kv: ((Seq<char>, u64), EvmToIcpTxModel)| !kv.1.verified,
            ).map_values(|kv: ((Seq<char>, u64), EvmToIcpTxModel)| (kv.0, kv.1.time)),
    {
        let ghost kv = self.evm_to_icp_txs.kv_seq();
        let ghost pred = |kv: ((Seq<char>, u64), EvmToIcpTxModel)| !kv.1.verified;
        let ghost f = |kv: ((Seq<char>, u64), EvmToIcpTxModel)| (kv.0, kv.1.time);
        let ghost g = |p: (EvmToIcpTxIdentifier, u64)| (p.0@, p.1);
        let mut out: Vec<(EvmToIcpTxIdentifier, u64)> = Vec::new();
        let n = self.evm_to_icp_txs.len();
        let mut i: usize = 0;
        while i < n
            invariant
                self.wf(),
                kv == self.evm_to_icp_txs.kv_seq(),
                n == kv.len(),
                i <= n,
                pred == (|kv: ((Seq<char>, u64), EvmToIcpTxModel)| !kv.1.verified),
                f == (|kv: ((Seq<char>, u64), EvmToIcpTxModel)| (kv.0, kv.1.time)),
                g == (|p: (EvmToIcpTxIdentifier, u64)| (p.0@, p.1)),
                out@.map_values(g) == kv.take(i as int).filter(pred).map_values(f),
            decreases n - i,
        {
            let ghost prev = out@;
            let key = self.evm_to_icp_txs.key_ref(i).clone();
            let time: u64 = self.evm_to_icp_txs.val_ref(i).time;
            let skip_entry: bool = self.evm_to_icp_txs.val_ref(i).verified;
            if !skip_entry {
                out.push((key, time));
            }
            proof {
                assert(kv.take(i + 1 as int) =~= kv.take(i as int).push(kv[i as int]));
                if !skip_entry {
                    assert(out@.map_values(g) =~= prev.map_values(g).push((kv[i as int].0,
                        kv[i as int].1.time)));
                } else {
                    assert(out@.map_values(g) =~= prev.map_values(g));
                }
            }
            i += 1;
        }
        proof {
            assert(kv.take(n as int) =~= kv);
        }
        out
    }

    /// Deletes a forward record unconditionally.
    pub fn remove_unverified_evm_to_icp(&mut self, identifier: &EvmToIcpTxIdentifier)
        requires
            old(self).wf(),
        ensures
            final(self).wf(),
            final(self)@ == (StateModel {
                evm_to_icp_txs: old(self)@.evm_to_icp_txs.remove(identifier@),
                ..old(self)@
            }),
    {
        self.evm_to_icp_txs.remove(identifier);
    }

    /// All unverified reverse records, as identifier and creation time,
    /// in ascending key order.
    pub fn all_unverified_icp_to_evm(&self) -> (r: Vec<(IcpToEvmIdentifier, u64)>)
        requires
            self.wf(),
        ensures
            r@.map_values(|p: (IcpToEvmIdentifier, u64)| (p.0@, p.1))
                == self.icp_to_evm_txs.kv_seq().filter(
                |kv: ((u64, u64), IcpToEvmTxModel)| !kv.1.verified,
            ).map_values(|kv: ((u64, u64), IcpToEvmTxModel)| (kv.0, kv.1.time)),
    {
        let ghost kv = self.icp_to_evm_txs.kv_seq();
        let ghost pred = |kv: ((u64, u64), IcpToEvmTxModel)| !kv.1.verified;
        let ghost f = |kv: ((u64, u64), IcpToEvmTxModel)| (kv.0, kv.1.time);
        let ghost g = |p: (IcpToEvmIdentifier, u64)| (p.0@, p.1);
        let mut out: Vec<(IcpToEvmIdentifier, u64)> = Vec::new();
        let n = self.icp_to_evm_txs.len();
        let mut i: usize = 0;
        while i < n
            invariant
                self.wf(),
                kv == self.icp_to_evm_txs.kv_seq(),
                n == kv.len(),
                i <= n,
                pred == (|kv: ((u64, u64), IcpToEvmTxModel)| !kv.1.verified),
                f == (|kv: ((u64, u64), IcpToEvmTxModel)| (kv.0, kv.1.time)),
                g == (|p: (IcpToEvmIdentifier, u64)| (p.0@, p.1)),
                out@.map_values(g) == kv.take(i as int).filter(pred).map_values(f),
            decreases n - i,
        {
            let ghost prev = out@;
            let key: IcpToEvmIdentifier = *self.icp_to_evm_txs.key_ref(i);
            let time: u64 = self.icp_to_evm_txs.val_ref(i).time;
            let skip_entry: bool = self.icp_to_evm_txs.val_ref(i).verified;
            if !skip_entry {
                out.push((key, time));
            }
            proof {
                assert(kv.take(i + 1 as int) =~= kv.take(i as int).push(kv[i as int]));
                if !skip_entry {
                    assert(out@.map_values(g) =~= prev.map_values(g).push((kv[i as int].0,
                        kv[i as int].1.time)));
                } else {
                    assert(out@.map_values(g) =~= prev.map_values(g));
                }
            }
            i += 1;
        }
        proof {
            assert(kv.take(n as int) =~= kv);
        }
        out
    }

    /// Deletes a reverse record unconditionally.
    pub fn remove_unverified_icp_to_evm(&mut self, identifier: &IcpToEvmIdentifier)
        requires
            old(self).wf(),
        ensures
            final(self).wf(),
            final(self)@ == (StateModel {
                icp_to_evm_txs: old(self)@.icp_to_evm_txs.remove(identifier@),
                ..old(self)@
            }),
    {
        self.icp_to_evm_txs.remove(identifier);
    }

    /// Exactly the forward records sent from `address` followed by the
    /// reverse records destined to `address`, each in table order.
    pub fn get_transaction_for_address(&self, address: &Address) -> (r: Vec<Transaction>)
        requires
            self.wf(),
        ensures
            r@.map_values(|t: Transaction| t@) == self.evm_to_icp_txs.kv_seq().filter(
                |kv: ((Seq<char>, u64), EvmToIcpTxModel)| kv.1.from_address == address@,
            ).map_values(
                |kv: ((Seq<char>, u64), EvmToIcpTxModel)| TransactionModel::EvmToIcp(kv.1),
            ) + self.icp_to_evm_txs.kv_seq().filter(
                |kv: ((u64, u64), IcpToEvmTxModel)| kv.1.destination == address@,
            ).map_values(|kv: ((u64, u64), IcpToEvmTxModel)| TransactionModel::IcpToEvm(kv.1)),
    {
        let ghost ekv = self.evm_to_icp_txs.kv_seq();
        let ghost ikv = self.icp_to_evm_txs.kv_seq();
        let ghost epred = |kv: ((Seq<char>, u64), EvmToIcpTxModel)| kv.1.from_address == address@;
        let ghost ef = |kv: ((Seq<char>, u64), EvmToIcpTxModel)| TransactionModel::EvmToIcp(kv.1);
        let ghost ipred = |kv: ((u64, u64), IcpToEvmTxModel)| kv.1.destination == address@;
        let ghost ifn = |kv: ((u64, u64), IcpToEvmTxModel)| TransactionModel::IcpToEvm(kv.1);
        let ghost g = |t: Transaction| t@;
        let mut out: Vec<Transaction> = Vec::new();
        let n = self.evm_to_icp_txs.len();
        let mut i: usize = 0;
        while i < n
            invariant
                self.wf(),
                ekv == self.evm_to_icp_txs.kv_seq(),
                n == ekv.len(),
                i <= n,
                epred == (|kv: ((Seq<char>, u64), EvmToIcpTxModel)| kv.1.from_address
                    == address@),
                ef == (|kv: ((Seq<char>, u64), EvmToIcpTxModel)| TransactionModel::EvmToIcp(
                    kv.1,
                )),
                g == (|t: Transaction| t@),
                out@.map_values(g) == ekv.take(i as int).filter(epred).map_values(ef),
            decreases n - i,
        {
            let ghost prev = out@;
            let tx = self.evm_to_icp_txs.val_ref(i);
            let matched: bool = bytes_eq(&tx.from_address.0, &address.0);
            if matched {
                out.push(Transaction::EvmToIcp(tx.clone()));
            }
            proof {
                assert(ekv.take(i + 1 as int) =~= ekv.take(i as int).push(ekv[i as int]));
                if matched {
                    assert(out@.map_values(g) =~= prev.map_values(g).push(
                        TransactionModel::EvmToIcp(ekv[i as int].1)));
                } else {
                    assert(out@.map_values(g) =~= prev.map_values(g));
                }
            }
            i += 1;
        }
        proof {
            assert(ekv.take(n as int) =~= ekv);
        }
        let ghost evm_part = ekv.filter(epred).map_values(ef);
        let m = self.icp_to_evm_txs.len();
        let mut j: usize = 0;
        while j < m
            invariant
                self.wf(),
                ikv == self.icp_to_evm_txs.kv_seq(),
                m == ikv.len(),
                j <= m,
                ipred == (|kv: ((u64, u64), IcpToEvmTxModel)| kv.1.destination == address@),
                ifn == (|kv: ((u64, u64), IcpToEvmTxModel)| TransactionModel::IcpToEvm(kv.1)),
                g == (|t: Transaction| t@),
                out@.map_values(g) == evm_part + ikv.take(j as int).filter(ipred).map_values(ifn),
            decreases m - j,
        {
            let ghost prev = out@;
            let tx = self.icp_to_evm_txs.val_ref(j);
            let matched: bool = bytes_eq(&tx.destination.0, &address.0);
            if matched {
                out.push(Transaction::IcpToEvm(tx.clone()));
            }
            proof {
                assert(ikv.take(j + 1 as int) =~= ikv.take(j as int).push(ikv[j as int]));
                if matched {
                    assert(out@.map_values(g) =~= prev.map_values(g).push(
                        TransactionModel::IcpToEvm(ikv[j as int].1)));
                } else {
                    assert(out@.map_values(g) =~= prev.map_values(g));
                }
            }
            j += 1;
        }
        proof {
            assert(ikv.take(m as int) =~= ikv);
        }
        out
    }

    /// Exactly the forward records destined to `principal_id` followed by
    /// the reverse records originated by `principal_id`, each in table order.
    pub fn get_transaction_for_principal(&self, principal_id: &Principal) -> (r: Vec<Transaction>)
        requires
            self.wf(),
        ensures
            r@.map_values(|t: Transaction| t@) == self.evm_to_icp_txs.kv_seq().filter(
                |kv: ((Seq<char>, u64), EvmToIcpTxModel)| kv.1.principal == principal_id@,
            ).map_values(
                |kv: ((Seq<char>, u64), EvmToIcpTxModel)| TransactionModel::EvmToIcp(kv.1),
            ) + self.icp_to_evm_txs.kv_seq().filter(
                |kv: ((u64, u64), IcpToEvmTxModel)| kv.1.from == principal_id@,
            ).map_values(|kv: ((u64, u64), IcpToEvmTxModel)| TransactionModel::IcpToEvm(kv.1)),
    {
        let ghost ekv = self.evm_to_icp_txs.kv_seq();
        let ghost ikv = self.icp_to_evm_txs.kv_seq();
        let ghost epred = |kv: ((Seq<char>, u64), EvmToIcpTxModel)| kv.1.principal
            == principal_id@;
        let ghost ef = |kv: ((Seq<char>, u64), EvmToIcpTxModel)| TransactionModel::EvmToIcp(kv.1);
        let ghost ipred = |kv: ((u64, u64), IcpToEvmTxModel)| kv.1.from == principal_id@;
        let ghost ifn = |kv: ((u64, u64), IcpToEvmTxModel)| TransactionModel::IcpToEvm(kv.1);
        let ghost g = |t: Transaction| t@;
        let mut out: Vec<Transaction> = Vec::new();
        let n = self.evm_to_icp_txs.len();
        let mut i: usize = 0;
        while i < n
            invariant
                self.wf(),
                ekv == self.evm_to_icp_txs.kv_seq(),
                n == ekv.len(),
                i <= n,
                epred == (|kv: ((Seq<char>, u64), EvmToIcpTxModel)| kv.1.principal
                    == principal_id@),
                ef == (|kv: ((Seq<char>, u64), EvmToIcpTxModel)| TransactionModel::EvmToIcp(
                    kv.1,
                )),
                g == (|t: Transaction| t@),
                out@.map_values(g) == ekv.take(i as int).filter(epred).map_values(ef),
            decreases n - i,
        {
            let ghost prev = out@;
            let tx = self.evm_to_icp_txs.val_ref(i);
            let matched: bool = bytes_eq(&tx.principal.0, &principal_id.0);
            if matched {
                out.push(Transaction::EvmToIcp(tx.clone()));
            }
            proof {
                assert(ekv.take(i + 1 as int) =~= ekv.take(i as int).push(ekv[i as int]));
                if matched {
                    assert(out@.map_values(g) =~= prev.map_values(g).push(
                        TransactionModel::EvmToIcp(ekv[i as int].1)));
                } else {
                    assert(out@.map_values(g) =~= prev.map_values(g));
                }
            }
            i += 1;
        }
        proof {
            assert(ekv.take(n as int) =~= ekv);
        }
        let ghost evm_part = ekv.filter(epred).map_values(ef);
        let m = self.icp_to_evm_txs.len();
        let mut j: usize = 0;
        while j < m
            invariant
                self.wf(),
                ikv == self.icp_to_evm_txs.kv_seq(),
                m == ikv.len(),
                j <= m,
                ipred == (|kv: ((u64, u64), IcpToEvmTxModel)| kv.1.from == principal_id@),
                ifn == (|kv: ((u64, u64), IcpToEvmTxModel)| TransactionModel::IcpToEvm(kv.1)),
                g == (|t: Transaction| t@),
                out@.map_values(g) == evm_part + ikv.take(j as int).filter(ipred).map_values(ifn),
            decreases m - j,
        {
            let ghost prev = out@;
            let tx = self.icp_to_evm_txs.val_ref(j);
            let matched: bool = bytes_eq(&tx.from.0, &principal_id.0);
            if matched {
                out.push(Transaction::IcpToEvm(tx.clone()));
            }
            proof {
                assert(ikv.take(j + 1 as int) =~= ikv.take(j as int).push(ikv[j as int]));
                if matched {
                    assert(out@.map_values(g) =~= prev.map_values(g).push(
                        TransactionModel::IcpToEvm(ikv[j as int].1)));
                } else {
                    assert(out@.map_values(g) =~= prev.map_values(g));
                }
            }
            j += 1;
        }
        proof {
            assert(ikv.take(m as int) =~= ikv);
        }
        out
    }

    /// All supported token pairs: the ckERC20 registry first, then the Appic
    /// registry, each in table order.
    pub fn get_suported_twin_token_pairs(&self) -> (r: Vec<TokenPair>)
        requires
            self.wf(),
        ensures
            r@.map_values(|t: TokenPair| t@) == self.supported_ckerc20_tokens.kv_seq().map_values(
                |kv: ((Seq<u8>, u64), Seq<u8>)| (TokenPairModel {
                    erc20_address: kv.0.0,
                    ledger_id: kv.1,
                    oprator: Oprator::DfinityCkEthMinter,
                    chain_id: kv.0.1,
                }),
            ) + self.supported_twin_appic_tokens.kv_seq().map_values(
                |kv: ((Seq<u8>, u64), Seq<u8>)| (TokenPairModel {
                    erc20_address: kv.0.0,
                    ledger_id: kv.1,
                    oprator: Oprator::AppicMinter,
                    chain_id: kv.0.1,
                }),
            ),
    {
        let ghost ckv = self.supported_ckerc20_tokens.kv_seq();
        let ghost akv = self.supported_twin_appic_tokens.kv_seq();
        let ghost cf = |kv: ((Seq<u8>, u64), Seq<u8>)| (TokenPairModel {
            erc20_address: kv.0.0,
            ledger_id: kv.1,
            oprator: Oprator::DfinityCkEthMinter,
            chain_id: kv.0.1,
        });
        let ghost af = |kv: ((Seq<u8>, u64), Seq<u8>)| (TokenPairModel {
            erc20_address: kv.0.0,
            ledger_id: kv.1,
            oprator: Oprator::AppicMinter,
            chain_id: kv.0.1,
        });
        let ghost g = |t: TokenPair| t@;
        let mut out: Vec<TokenPair> = Vec::new();
        let n = self.supported_ckerc20_tokens.len();
        let mut i: usize = 0;
        while i < n
            invariant
                self.wf(),
                ckv == self.supported_ckerc20_tokens.kv_seq(),
                n == ckv.len(),
                i <= n,
                cf == (|kv: ((Seq<u8>, u64), Seq<u8>)| (TokenPairModel {
                    erc20_address: kv.0.0,
                    ledger_id: kv.1,
                    oprator: Oprator::DfinityCkEthMinter,
                    chain_id: kv.0.1,
                })),
                g == (|t: TokenPair| t@),
                out@.map_values(g) == ckv.take(i as int).map_values(cf),
            decreases n - i,
        {
            let ghost prev = out@;
            let id = self.supported_ckerc20_tokens.key_ref(i);
            let ledger_id = self.supported_ckerc20_tokens.val_ref(i).clone();
            let pair = TokenPair {
                erc20_address: id.erc20_address(),
                ledger_id,
                oprator: Oprator::DfinityCkEthMinter,
                chain_id: id.chain_id(),
            };
            out.push(pair);
            proof {
                assert(ckv.take(i + 1 as int) =~= ckv.take(i as int).push(ckv[i as int]));
                assert(out@.map_values(g) =~= prev.map_values(g).push(cf(ckv[i as int])));
            }
            i += 1;
        }
        proof {
            assert(ckv.take(n as int) =~= ckv);
        }
        let ghost ck_part = ckv.map_values(cf);
        let m = self.supported_twin_appic_tokens.len();
        let mut j: usize = 0;
        while j < m
            invariant
                self.wf(),
                akv == self.supported_twin_appic_tokens.kv_seq(),
                m == akv.len(),
                j <= m,
                af == (|kv: ((Seq<u8>, u64), Seq<u8>)| (TokenPairModel {
                    erc20_address: kv.0.0,
                    ledger_id: kv.1,
                    oprator: Oprator::AppicMinter,
                    chain_id: kv.0.1,
                })),
                g == (|t: TokenPair| t@),
                out@.map_values(g) == ck_part + akv.take(j as int).map_values(af),
            decreases m - j,
        {
            let ghost prev = out@;
            let id = self.supported_twin_appic_tokens.key_ref(j);
            let ledger_id = self.supported_twin_appic_tokens.val_ref(j).clone();
            let pair = TokenPair {
                erc20_address: id.erc20_address(),
                ledger_id,
                oprator: Oprator::AppicMinter,
                chain_id: id.chain_id(),
            };
            out.push(pair);
            proof {
                assert(akv.take(j + 1 as int) =~= akv.take(j as int).push(akv[j as int]));
                assert(out@.map_values(g) =~= prev.map_values(g).push(af(akv[j as int])));
            }
            j += 1;
        }
        proof {
            assert(akv.take(m as int) =~= akv);
        }
        out
    }
}

} // verus!
