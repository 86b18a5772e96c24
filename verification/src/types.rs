//! Plain-value data model: chains, operators, addresses, accounts, minters,
//! transfer records and their statuses.
//!
//! Every type that the ledgers persist has a ghost model (its `View`) over
//! mathematical sequences, so that contracts can speak of record contents
//! independently of heap representation.

use vstd::prelude::*;

verus! {

/// Hash of a source-chain transaction, as supplied by the event source.
pub type TransactionHash = String;

/// Ledger-native monotonically increasing burn index.
pub type LedgerBurnIndex = u64;

/// Numeric identifier of a network, totally ordered by its value.
#[derive(Clone, Copy, Debug, PartialEq, Eq, Structural)]
pub struct ChainId(pub u64);

impl ChainId {
    pub fn new(id: u64) -> (r: Self)
        ensures
            r.0 == id,
    {
        ChainId(id)
    }
}

/// The bridge-operator variant that originated and validates a transfer.
#[derive(Clone, Copy, Debug, PartialEq, Eq, Structural)]
pub enum Oprator {
    DfinityCkEthMinter,
    AppicMinter,
}

/// Copies the bytes of a vector; the result has the same abstract contents.
pub fn clone_bytes(v: &Vec<u8>) -> (r: Vec<u8>)
    ensures
        r@ == v@,
{
    let mut out: Vec<u8> = Vec::new();
    let mut i: usize = 0;
    while i < v.len()
        invariant
            i <= v.len(),
            out@ == v@.subrange(0, i as int),
        decreases v.len() - i,
    {
        out.push(v[i]);
        proof {
            assert(v@.subrange(0, i + 1 as int) =~= v@.subrange(0, i as int).push(v@[i as int]));
        }
        i += 1;
    }
    proof {
        assert(v@.subrange(0, v@.len() as int) =~= v@);
    }
    out
}

/// A 20-byte smart-contract-network address, held as plain bytes.
#[derive(Debug, PartialEq, Eq)]
pub struct Address(pub Vec<u8>);

impl View for Address {
    type V = Seq<u8>;

    open spec fn view(&self) -> Seq<u8> {
        self.0@
    }
}

impl DeepView for Address {
    type V = Seq<u8>;

    open spec fn deep_view(&self) -> Seq<u8> {
        self.0@
    }
}

impl Clone for Address {
    fn clone(&self) -> (r: Self)
        ensures
            r@ == self@,
    {
        Address(clone_bytes(&self.0))
    }
}

/// The address that denotes the network's native asset: the zero address.
pub open spec fn native_token_address() -> Seq<u8> {
    Seq::new(20, |i: int| 0u8)
}

/// True iff the contract address denotes the network's native asset.
pub fn is_native_token(address: &Address) -> (r: bool)
    ensures
        r == (address@ == native_token_address()),
{
    if address.0.len() != 20 {
        proof {
            assert(address@.len() != native_token_address().len());
        }
        return false;
    }
    let mut i: usize = 0;
    while i < 20
        invariant
            i <= 20,
            address@.len() == 20,
            forall|j: int| 0 <= j < i ==> address@[j] == 0u8,
        decreases 20 - i,
    {
        if address.0[i] != 0u8 {
            proof {
                assert(address@[i as int] != native_token_address()[i as int]);
            }
            return false;
        }
        i += 1;
    }
    proof {
        assert(address@ =~= native_token_address());
    }
    true
}

/// A ledger-network account identity, held as plain bytes.
#[derive(Debug, PartialEq, Eq)]
pub struct Principal(pub Vec<u8>);

impl View for Principal {
    type V = Seq<u8>;

    open spec fn view(&self) -> Seq<u8> {
        self.0@
    }
}

impl DeepView for Principal {
    type V = Seq<u8>;

    open spec fn deep_view(&self) -> Seq<u8> {
        self.0@
    }
}

impl Clone for Principal {
    fn clone(&self) -> (r: Self)
        ensures
            r@ == self@,
    {
        Principal(clone_bytes(&self.0))
    }
}

/// Clones an optional account identity, preserving its abstract contents.
pub fn clone_opt_principal(o: &Option<Principal>) -> (r: Option<Principal>)
    ensures
        r.deep_view() == o.deep_view(),
{
    match o {
        Some(p) => Some(p.clone()),
        None => None,
    }
}

/// Clones an optional byte vector, preserving its abstract contents.
pub fn clone_opt_bytes(o: &Option<Vec<u8>>) -> (r: Option<Vec<u8>>)
    ensures
        r.deep_view() == o.deep_view(),
{
    match o {
        Some(b) => Some(clone_bytes(b)),
        None => None,
    }
}

/// A bridge-operator instance: account identity, event-stream watermarks,
/// the fee charged in each direction, and the chain it serves.
#[derive(Debug, PartialEq, Eq)]
pub struct Minter {
    pub id: Principal,
    pub last_observed_event: u64,
    pub last_scraped_event: u64,
    pub oprator: Oprator,
    pub evm_to_icp_fee: u128,
    pub icp_to_evm_fee: u128,
    pub chain_id: ChainId,
}

/// Ghost model of a [`Minter`].
pub struct MinterModel {
    pub id: Seq<u8>,
    pub last_observed_event: u64,
    pub last_scraped_event: u64,
    pub oprator: Oprator,
    pub evm_to_icp_fee: u128,
    pub icp_to_evm_fee: u128,
    pub chain_id: u64,
}

impl View for Minter {
    type V = MinterModel;

    open spec fn view(&self) -> MinterModel {
        MinterModel {
            id: self.id@,
            last_observed_event: self.last_observed_event,
            last_scraped_event: self.last_scraped_event,
            oprator: self.oprator,
            evm_to_icp_fee: self.evm_to_icp_fee,
            icp_to_evm_fee: self.icp_to_evm_fee,
            chain_id: self.chain_id.0,
        }
    }
}

impl Clone for Minter {
    fn clone(&self) -> (r: Self)
        ensures
            r@ == self@,
    {
        Minter {
            id: self.id.clone(),
            last_observed_event: self.last_observed_event,
            last_scraped_event: self.last_scraped_event,
            oprator: self.oprator,
            evm_to_icp_fee: self.evm_to_icp_fee,
            icp_to_evm_fee: self.icp_to_evm_fee,
            chain_id: self.chain_id,
        }
    }
}

impl Minter {
    /// Advances the last-observed-event watermark.
    pub fn update_last_observed_event(&mut self, event: u64)
        ensures
            *final(self) == (Minter { last_observed_event: event, ..*old(self) }),
    {
        self.last_observed_event = event
    }

    /// Advances the last-scraped-event watermark.
    pub fn update_last_scraped_event(&mut self, event: u64)
        ensures
            *final(self) == (Minter { last_scraped_event: event, ..*old(self) }),
    {
        self.last_scraped_event = event
    }
}

/// Unique identity of a bridge-operator instance on a chain.
#[derive(Clone, Copy, Debug, PartialEq, Eq, Structural)]
pub struct MinterKey(pub ChainId, pub Oprator);

impl MinterKey {
    pub fn oprator(&self) -> (r: Oprator)
        ensures
            r == self.1,
    {
        self.1
    }

    pub fn chain_id(&self) -> (r: ChainId)
        ensures
            r == self.0,
    {
        self.0
    }

    /// The key under which a minter record is stored, derived from its fields.
    pub fn from_minter(value: &Minter) -> (r: Self)
        ensures
            r == MinterKey(value.chain_id, value.oprator),
    {
        MinterKey(value.chain_id, value.oprator)
    }
}

/// Identifier of a forward (source chain to ledger) transfer.
#[derive(Debug, PartialEq, Eq)]
pub struct EvmToIcpTxIdentifier(pub TransactionHash, pub ChainId);

impl EvmToIcpTxIdentifier {
    /// Creates a new `EvmToIcpTxIdentifier` instance.
    pub fn new(transaction_hash: &TransactionHash, chain_id: ChainId) -> (r: Self)
        ensures
            r.0@ == transaction_hash@,
            r.1 == chain_id,
    {
        Self(transaction_hash.clone(), chain_id)
    }
}

impl View for EvmToIcpTxIdentifier {
    type V = (Seq<char>, u64);

    open spec fn view(&self) -> (Seq<char>, u64) {
        (self.0@, self.1.0)
    }
}

impl Clone for EvmToIcpTxIdentifier {
    fn clone(&self) -> (r: Self)
        ensures
            r@ == self@,
    {
        EvmToIcpTxIdentifier(self.0.clone(), self.1)
    }
}

/// Identifier of a reverse (ledger to destination chain) transfer.
#[derive(Clone, Copy, Debug, PartialEq, Eq, Structural)]
pub struct IcpToEvmIdentifier(pub LedgerBurnIndex, pub ChainId);

impl IcpToEvmIdentifier {
    /// Creates a new `IcpToEvmIdentifier` instance.
    pub fn new(ledger_burn_index: LedgerBurnIndex, chain_id: ChainId) -> (r: Self)
        ensures
            r == IcpToEvmIdentifier(ledger_burn_index, chain_id),
    {
        Self(ledger_burn_index, chain_id)
    }
}

impl View for IcpToEvmIdentifier {
    type V = (u64, u64);

    open spec fn view(&self) -> (u64, u64) {
        (self.0, self.1.0)
    }
}

/// A supported token pair: contract address and chain of the source token.
#[derive(Debug, PartialEq, Eq)]
pub struct Erc20Identifier(pub Address, pub ChainId);

impl Erc20Identifier {
    pub fn new(contract: &Address, chain_id: ChainId) -> (r: Self)
        ensures
            r.0@ == contract@,
            r.1 == chain_id,
    {
        Self(contract.clone(), chain_id)
    }

    pub fn erc20_address(&self) -> (r: Address)
        ensures
            r@ == self.0@,
    {
        self.0.clone()
    }

    pub fn chain_id(&self) -> (r: ChainId)
        ensures
            r == self.1,
    {
        self.1
    }
}

impl View for Erc20Identifier {
    type V = (Seq<u8>, u64);

    open spec fn view(&self) -> (Seq<u8>, u64) {
        (self.0@, self.1.0)
    }
}

impl Clone for Erc20Identifier {
    fn clone(&self) -> (r: Self)
        ensures
            r@ == self@,
    {
        Erc20Identifier(self.0.clone(), self.1)
    }
}

/// Status of a forward transfer.
#[derive(Debug, PartialEq, Eq)]
pub enum EvmToIcpStatus {
    PendingVerification,
    Accepted,
    Minted,
    Invalid(String),
    Quarantined,
}

/// Ghost model of an [`EvmToIcpStatus`].
pub enum EvmToIcpStatusModel {
    PendingVerification,
    Accepted,
    Minted,
    Invalid(Seq<char>),
    Quarantined,
}

impl View for EvmToIcpStatus {
    type V = EvmToIcpStatusModel;

    open spec fn view(&self) -> EvmToIcpStatusModel {
        match self {
            EvmToIcpStatus::PendingVerification => EvmToIcpStatusModel::PendingVerification,
            EvmToIcpStatus::Accepted => EvmToIcpStatusModel::Accepted,
            EvmToIcpStatus::Minted => EvmToIcpStatusModel::Minted,
            EvmToIcpStatus::Invalid(reason) => EvmToIcpStatusModel::Invalid(reason@),
            EvmToIcpStatus::Quarantined => EvmToIcpStatusModel::Quarantined,
        }
    }
}

impl Clone for EvmToIcpStatus {
    fn clone(&self) -> (r: Self)
        ensures
            r@ == self@,
    {
        match self {
            EvmToIcpStatus::PendingVerification => EvmToIcpStatus::PendingVerification,
            EvmToIcpStatus::Accepted => EvmToIcpStatus::Accepted,
            EvmToIcpStatus::Minted => EvmToIcpStatus::Minted,
            EvmToIcpStatus::Invalid(reason) => EvmToIcpStatus::Invalid(reason.clone()),
            EvmToIcpStatus::Quarantined => EvmToIcpStatus::Quarantined,
        }
    }
}

/// Status of a reverse transfer.
#[derive(Clone, Copy, Debug, PartialEq, Eq, Structural)]
pub enum IcpToEvmStatus {
    PendingVerification,
    Accepted,
    Created,
    SignedTransaction,
    FinalizedTransaction,
    ReplacedTransaction,
    Reimbursed,
    QuarantinedReimbursement,
    Successful,
    Failed,
}

/// A forward transfer record.
#[derive(Debug, PartialEq, Eq)]
pub struct EvmToIcpTx {
    pub from_address: Address,
    pub transaction_hash: TransactionHash,
    pub value: u128,
    pub block_number: Option<u128>,
    pub actual_received: Option<u128>,
    pub principal: Principal,
    pub subaccount: Option<Vec<u8>>,
    pub chain_id: ChainId,
    pub total_gas_spent: Option<u128>,
    pub erc20_contract_address: Address,
    pub icrc_ledger_id: Option<Principal>,
    pub status: EvmToIcpStatus,
    pub verified: bool,
    pub time: u64,
    pub oprator: Oprator,
}

/// Ghost model of an [`EvmToIcpTx`].
pub struct EvmToIcpTxModel {
    pub from_address: Seq<u8>,
    pub transaction_hash: Seq<char>,
    pub value: u128,
    pub block_number: Option<u128>,
    pub actual_received: Option<u128>,
    pub principal: Seq<u8>,
    pub subaccount: Option<Seq<u8>>,
    pub chain_id: u64,
    pub total_gas_spent: Option<u128>,
    pub erc20_contract_address: Seq<u8>,
    pub icrc_ledger_id: Option<Seq<u8>>,
    pub status: EvmToIcpStatusModel,
    pub verified: bool,
    pub time: u64,
    pub oprator: Oprator,
}

impl View for EvmToIcpTx {
    type V = EvmToIcpTxModel;

    open spec fn view(&self) -> EvmToIcpTxModel {
        EvmToIcpTxModel {
            from_address: self.from_address@,
            transaction_hash: self.transaction_hash@,
            value: self.value,
            block_number: self.block_number,
            actual_received: self.actual_received,
            principal: self.principal@,
            subaccount: self.subaccount.deep_view(),
            chain_id: self.chain_id.0,
            total_gas_spent: self.total_gas_spent,
            erc20_contract_address: self.erc20_contract_address@,
            icrc_ledger_id: self.icrc_ledger_id.deep_view(),
            status: self.status@,
            verified: self.verified,
            time: self.time,
            oprator: self.oprator,
        }
    }
}

impl Clone for EvmToIcpTx {
    fn clone(&self) -> (r: Self)
        ensures
            r@ == self@,
    {
        EvmToIcpTx {
            from_address: self.from_address.clone(),
            transaction_hash: self.transaction_hash.clone(),
            value: self.value,
            block_number: self.block_number,
            actual_received: self.actual_received,
            principal: self.principal.clone(),
            subaccount: clone_opt_bytes(&self.subaccount),
            chain_id: self.chain_id,
            total_gas_spent: self.total_gas_spent,
            erc20_contract_address: self.erc20_contract_address.clone(),
            icrc_ledger_id: clone_opt_principal(&self.icrc_ledger_id),
            status: self.status.clone(),
            verified: self.verified,
            time: self.time,
            oprator: self.oprator,
        }
    }
}

/// A reverse transfer record.
#[derive(Debug, PartialEq, Eq)]
pub struct IcpToEvmTx {
    pub transaction_hash: Option<TransactionHash>,
    pub native_ledger_burn_index: LedgerBurnIndex,
    pub withdrawal_amount: u128,
    pub actual_received: Option<u128>,
    pub destination: Address,
    pub from: Principal,
    pub chain_id: ChainId,
    pub from_subaccount: Option<Vec<u8>>,
    pub time: u64,
    pub max_transaction_fee: Option<u128>,
    pub effective_gas_price: Option<u128>,
    pub gas_used: Option<u128>,
    pub total_gas_spent: Option<u128>,
    pub erc20_ledger_burn_index: Option<LedgerBurnIndex>,
    pub erc20_contract_address: Address,
    pub icrc_ledger_id: Option<Principal>,
    pub verified: bool,
    pub status: IcpToEvmStatus,
    pub oprator: Oprator,
}

/// Ghost model of an [`IcpToEvmTx`].
pub struct IcpToEvmTxModel {
    pub transaction_hash: Option<Seq<char>>,
    pub native_ledger_burn_index: u64,
    pub withdrawal_amount: u128,
    pub actual_received: Option<u128>,
    pub destination: Seq<u8>,
    pub from: Seq<u8>,
    pub chain_id: u64,
    pub from_subaccount: Option<Seq<u8>>,
    pub time: u64,
    pub max_transaction_fee: Option<u128>,
    pub effective_gas_price: Option<u128>,
    pub gas_used: Option<u128>,
    pub total_gas_spent: Option<u128>,
    pub erc20_ledger_burn_index: Option<u64>,
    pub erc20_contract_address: Seq<u8>,
    pub icrc_ledger_id: Option<Seq<u8>>,
    pub verified: bool,
    pub status: IcpToEvmStatus,
    pub oprator: Oprator,
}

impl View for IcpToEvmTx {
    type V = IcpToEvmTxModel;

    open spec fn view(&self) -> IcpToEvmTxModel {
        IcpToEvmTxModel {
            transaction_hash: self.transaction_hash.deep_view(),
            native_ledger_burn_index: self.native_ledger_burn_index,
            withdrawal_amount: self.withdrawal_amount,
            actual_received: self.actual_received,
            destination: self.destination@,
            from: self.from@,
            chain_id: self.chain_id.0,
            from_subaccount: self.from_subaccount.deep_view(),
            time: self.time,
            max_transaction_fee: self.max_transaction_fee,
            effective_gas_price: self.effective_gas_price,
            gas_used: self.gas_used,
            total_gas_spent: self.total_gas_spent,
            erc20_ledger_burn_index: self.erc20_ledger_burn_index,
            erc20_contract_address: self.erc20_contract_address@,
            icrc_ledger_id: self.icrc_ledger_id.deep_view(),
            verified: self.verified,
            status: self.status,
            oprator: self.oprator,
        }
    }
}

impl Clone for IcpToEvmTx {
    fn clone(&self) -> (r: Self)
        ensures
            r@ == self@,
    {
        IcpToEvmTx {
            transaction_hash: match &self.transaction_hash {
                Some(h) => Some(h.clone()),
                None => None,
            },
            native_ledger_burn_index: self.native_ledger_burn_index,
            withdrawal_amount: self.withdrawal_amount,
            actual_received: self.actual_received,
            destination: self.destination.clone(),
            from: self.from.clone(),
            chain_id: self.chain_id,
            from_subaccount: clone_opt_bytes(&self.from_subaccount),
            time: self.time,
            max_transaction_fee: self.max_transaction_fee,
            effective_gas_price: self.effective_gas_price,
            gas_used: self.gas_used,
            total_gas_spent: self.total_gas_spent,
            erc20_ledger_burn_index: self.erc20_ledger_burn_index,
            erc20_contract_address: self.erc20_contract_address.clone(),
            icrc_ledger_id: clone_opt_principal(&self.icrc_ledger_id),
            verified: self.verified,
            status: self.status,
            oprator: self.oprator,
        }
    }
}

/// Binary outcome reported for a finalized reverse transfer.
#[derive(Clone, Copy, Debug, PartialEq, Eq, Structural)]
pub enum TransactionStatus {
    Success,
    Failure,
}

/// Receipt reported by the destination network for a submitted transaction.
#[derive(Debug, PartialEq, Eq)]
pub struct TransactionReceipt {
    pub transaction_hash: TransactionHash,
    pub gas_used: u128,
    pub effective_gas_price: u128,
    pub status: TransactionStatus,
}

/// A transfer summary returned by the reverse-lookup queries.
#[derive(Debug, PartialEq, Eq)]
pub enum Transaction {
    EvmToIcp(EvmToIcpTx),
    IcpToEvm(IcpToEvmTx),
}

/// Ghost model of a [`Transaction`].
pub enum TransactionModel {
    EvmToIcp(EvmToIcpTxModel),
    IcpToEvm(IcpToEvmTxModel),
}

impl View for Transaction {
    type V = TransactionModel;

    open spec fn view(&self) -> TransactionModel {
        match self {
            Transaction::EvmToIcp(tx) => TransactionModel::EvmToIcp(tx@),
            Transaction::IcpToEvm(tx) => TransactionModel::IcpToEvm(tx@),
        }
    }
}

/// A supported token pair: source contract, chain, twin-ledger account and
/// the operator whose registry lists it.
#[derive(Debug, PartialEq, Eq)]
pub struct TokenPair {
    pub erc20_address: Address,
    pub ledger_id: Principal,
    pub oprator: Oprator,
    pub chain_id: ChainId,
}

/// Ghost model of a [`TokenPair`].
pub struct TokenPairModel {
    pub erc20_address: Seq<u8>,
    pub ledger_id: Seq<u8>,
    pub oprator: Oprator,
    pub chain_id: u64,
}

impl View for TokenPair {
    type V = TokenPairModel;

    open spec fn view(&self) -> TokenPairModel {
        TokenPairModel {
            erc20_address: self.erc20_address@,
            ledger_id: self.ledger_id@,
            oprator: self.oprator,
            chain_id: self.chain_id.0,
        }
    }
}

/// Fault raised by a recording operation on malformed input.
#[derive(Clone, Copy, Debug, PartialEq, Eq, Structural)]
pub enum RecordError {
    /// An address argument is not `0x` followed by 40 hexadecimal digits.
    InvalidAddress,
    /// Gas arithmetic overflowed the fixed-width amount type.
    AmountOverflow,
}

} // verus!
