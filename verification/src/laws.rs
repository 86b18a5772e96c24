//! Store-wide laws, stated and proved over the ghost models that the
//! operations' contracts use.

use vstd::prelude::*;
use crate::state::{StateModel, accepted_evm_patch, accepted_icp_patch, finalized_actual_received,
    finalized_icp_patch, fresh_accepted_evm_tx, fresh_accepted_icp_tx, minted_actual_received,
    minted_evm_patch, spec_total_gas_spent};
use crate::types::{EvmToIcpStatusModel, EvmToIcpTxModel, Oprator, TransactionStatus,
    native_token_address};
use crate::reaper::{ONE_HOUR_IN_NS, swept_evm, swept_icp};
use crate::types::IcpToEvmTxModel;

verus! {

/// Recording `accepted` twice for one forward identifier is a merge-patch:
/// the second call leaves the provenance of the first record untouched — its
/// creation time, operator, chain, transaction hash and twin-ledger account —
/// while the address, amount, account, block and status fields come from the
/// second call, and the record stays verified.
pub proof fn lemma_merge_patch_preserves_provenance(
    s: StateModel,
    hash: Seq<char>,
    block1: u128,
    from1: Seq<u8>,
    value1: u128,
    principal1: Seq<u8>,
    erc201: Seq<u8>,
    sub1: Option<Seq<u8>>,
    chain: u64,
    oprator: Oprator,
    time1: u64,
    block2: u128,
    from2: Seq<u8>,
    value2: u128,
    principal2: Seq<u8>,
    erc202: Seq<u8>,
    sub2: Option<Seq<u8>>,
)
    ensures
        ({
            let first = fresh_accepted_evm_tx(
                s,
                hash,
                block1,
                from1,
                value1,
                principal1,
                erc201,
                sub1,
                chain,
                oprator,
                time1,
            );
            let second = accepted_evm_patch(first, block2, from2, value2, principal2, erc202, sub2);
            &&& second.time == first.time
            &&& second.oprator == first.oprator
            &&& second.chain_id == first.chain_id
            &&& second.transaction_hash == first.transaction_hash
            &&& second.icrc_ledger_id == first.icrc_ledger_id
            &&& second.actual_received == first.actual_received
            &&& second.total_gas_spent == first.total_gas_spent
            &&& second.from_address == from2
            &&& second.value == value2
            &&& second.principal == principal2
            &&& second.erc20_contract_address == erc202
            &&& second.block_number == Some(block2)
            &&& second.subaccount == sub2
            &&& second.verified
            &&& second.status == EvmToIcpStatusModel::Accepted
        }),
{
}

/// Fee clamp on minting: for the native asset the fee is deducted from the
/// amount, and a fee larger than the amount clamps the result to the amount
/// instead of underflowing; a non-native amount passes through unchanged,
/// whatever the fee.
pub proof fn lemma_minted_fee_clamp(value: u128, erc20: Seq<u8>, fee: u128)
    ensures
        erc20 == native_token_address() && fee <= value ==> minted_actual_received(
            value,
            erc20,
            fee,
        ) == value - fee,
        erc20 == native_token_address() && fee > value ==> minted_actual_received(
            value,
            erc20,
            fee,
        ) == value,
        erc20 != native_token_address() ==> minted_actual_received(value, erc20, fee) == value,
{
}

/// Gas accounting on finalization: the total gas spent is
/// `gas_used * effective_gas_price + fee`; for the native asset the amount
/// received is the withdrawal amount less that total, and an overdrawn
/// transfer yields an absent amount rather than a clamped one; a non-native
/// amount passes through unchanged.
pub proof fn lemma_finalized_gas_accounting(
    withdrawal: u128,
    erc20: Seq<u8>,
    gas_used: u128,
    price: u128,
    fee: u128,
)
    requires
        spec_total_gas_spent(gas_used, price, fee) <= u128::MAX,
    ensures
        ({
            let total = (gas_used * price + fee) as u128;
            &&& total == spec_total_gas_spent(gas_used, price, fee)
            &&& (erc20 == native_token_address() && total <= withdrawal
                ==> finalized_actual_received(withdrawal, erc20, total) == Some(
                (withdrawal - total) as u128,
            ))
            &&& (erc20 == native_token_address() && total > withdrawal
                ==> finalized_actual_received(withdrawal, erc20, total) is None)
            &&& (erc20 != native_token_address() ==> finalized_actual_received(
                withdrawal,
                erc20,
                total,
            ) == Some(withdrawal))
        }),
{
}

/// Eviction boundary for the forward ledger: a sweep at `now` deletes a
/// record exactly when it is unverified and `time + ONE_HOUR_IN_NS < now`;
/// every surviving record is untouched, and a verified record always
/// survives, however old.
pub proof fn lemma_eviction_boundary_evm(
    m: Map<(Seq<char>, u64), EvmToIcpTxModel>,
    k: (Seq<char>, u64),
    now: u64,
)
    requires
        m.contains_key(k),
    ensures
        swept_evm(m, now).contains_key(k) == (m[k].verified || m[k].time + ONE_HOUR_IN_NS >= now),
        m[k].verified ==> swept_evm(m, now).contains_key(k),
        swept_evm(m, now).contains_key(k) ==> swept_evm(m, now)[k] == m[k],
        swept_evm(m, now).dom() <= m.dom(),
{
    assert forall|j: (Seq<char>, u64)| swept_evm(m, now).contains_key(j) implies m.contains_key(
        j,
    ) by {}
}

/// Eviction boundary for the reverse ledger.
pub proof fn lemma_eviction_boundary_icp(m: Map<(u64, u64), IcpToEvmTxModel>, k: (u64, u64), now: u64)
    requires
        m.contains_key(k),
    ensures
        swept_icp(m, now).contains_key(k) == (m[k].verified || m[k].time + ONE_HOUR_IN_NS >= now),
        m[k].verified ==> swept_icp(m, now).contains_key(k),
        swept_icp(m, now).contains_key(k) ==> swept_icp(m, now)[k] == m[k],
        swept_icp(m, now).dom() <= m.dom(),
{
    assert forall|j: (u64, u64)| swept_icp(m, now).contains_key(j) implies m.contains_key(j) by {}
}

/// Store-wide invariants of the merge-patches: a fresh record is created
/// verified, re-acceptance sets `verified` and no patch ever clears it, and
/// no patch ever changes a record's creation time.
pub proof fn lemma_verified_monotone_and_time_immutable(
    tx: EvmToIcpTxModel,
    rtx: IcpToEvmTxModel,
    s: StateModel,
    block_number: u128,
    from: Seq<u8>,
    value: u128,
    principal: Seq<u8>,
    erc20: Seq<u8>,
    sub: Option<Seq<u8>>,
    fee: u128,
    hash: Seq<char>,
    gas_used: u128,
    price: u128,
    outcome: TransactionStatus,
    max_fee: Option<u128>,
    withdrawal: u128,
    destination: Seq<u8>,
    burn: u64,
    erc20_burn: Option<u64>,
    from_account: Seq<u8>,
    from_sub: Option<Seq<u8>>,
    created_at: Option<u64>,
    oprator: Oprator,
    chain: u64,
    timestamp: u64,
)
    ensures
        fresh_accepted_evm_tx(
            s,
            hash,
            block_number,
            from,
            value,
            principal,
            erc20,
            sub,
            chain,
            oprator,
            timestamp,
        ).verified,
        fresh_accepted_icp_tx(
            s,
            max_fee,
            withdrawal,
            erc20,
            destination,
            burn,
            erc20_burn,
            from_account,
            from_sub,
            created_at,
            oprator,
            chain,
            timestamp,
        ).verified,
        accepted_evm_patch(tx, block_number, from, value, principal, erc20, sub).verified,
        accepted_evm_patch(tx, block_number, from, value, principal, erc20, sub).time == tx.time,
        minted_evm_patch(tx, fee).verified == tx.verified,
        minted_evm_patch(tx, fee).time == tx.time,
        accepted_icp_patch(
            rtx,
            max_fee,
            withdrawal,
            erc20,
            destination,
            burn,
            erc20_burn,
            from_account,
            from_sub,
        ).verified,
        accepted_icp_patch(
            rtx,
            max_fee,
            withdrawal,
            erc20,
            destination,
            burn,
            erc20_burn,
            from_account,
            from_sub,
        ).time == rtx.time,
        finalized_icp_patch(rtx, hash, gas_used, price, fee, outcome).verified == rtx.verified,
        finalized_icp_patch(rtx, hash, gas_used, price, fee, outcome).time == rtx.time,
{
}

} // verus!
