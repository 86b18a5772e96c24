//! The unverified-transaction reaper.
//!
//! Invoked on a recurring schedule with no input, it deletes every record
//! that is still unverified one hour after its creation time. A single-flight
//! guard held in the store admits at most one sweep at a time: an invocation
//! that finds the guard taken abandons immediately with no side effects, and
//! the guard is released on every exit path.

use vstd::prelude::*;
use crate::state::{State, StateModel};
use crate::types::{EvmToIcpTxIdentifier, EvmToIcpTxModel, IcpToEvmIdentifier, IcpToEvmTxModel};

verus! {

/// The age beyond which an unverified record is evicted.
pub const ONE_HOUR_IN_NS: u64 = 3_600_000_000_000;

/// True iff a record created at `time` is overdue at `now`.
pub open spec fn is_stale(time: u64, now: u64) -> bool {
    time + ONE_HOUR_IN_NS < now
}

/// The forward ledger after a sweep at `now`: exactly the records that are
/// verified or not yet overdue survive, unchanged.
pub open spec fn swept_evm(m: Map<(Seq<char>, u64), EvmToIcpTxModel>, now: u64) -> Map<
    (Seq<char>, u64),
    EvmToIcpTxModel,
> {
    Map::new(
        |k: (Seq<char>, u64)|
            m.contains_key(k) && !(!m[k].verified && is_stale(m[k].time, now)),
        |k: (Seq<char>, u64)| m[k],
    )
}

/// The reverse ledger after a sweep at `now`.
pub open spec fn swept_icp(m: Map<(u64, u64), IcpToEvmTxModel>, now: u64) -> Map<
    (u64, u64),
    IcpToEvmTxModel,
> {
    Map::new(
        |k: (u64, u64)| m.contains_key(k) && !(!m[k].verified && is_stale(m[k].time, now)),
        |k: (u64, u64)| m[k],
    )
}

/// True iff one of the first `n` listed unverified entries names `k` and is
/// overdue at `now`.
pub open spec fn removed_by<K>(lm: Seq<(K, u64)>, n: int, k: K, now: u64) -> bool {
    exists|j: int| 0 <= j < n && (#[trigger] lm[j]).0 == k && is_stale(lm[j].1, now)
}

proof fn lemma_removed_by_step<K>(lm: Seq<(K, u64)>, i: int, now: u64)
    requires
        0 <= i < lm.len(),
    ensures
        forall|k: K| #[trigger]
            removed_by(lm, i + 1, k, now) == (removed_by(lm, i, k, now) || (lm[i].0 == k
                && is_stale(lm[i].1, now))),
{
    assert forall|k: K| #[trigger] removed_by(lm, i + 1, k, now) == (removed_by(lm, i, k, now) || (
    lm[i].0 == k && is_stale(lm[i].1, now))) by {
        if removed_by(lm, i + 1, k, now) {
            let j = choose|j: int|
                0 <= j < i + 1 && (#[trigger] lm[j]).0 == k && is_stale(lm[j].1, now);
            if j < i {
                assert(removed_by(lm, i, k, now));
            }
        }
        if removed_by(lm, i, k, now) {
            let j = choose|j: int| 0 <= j < i && (#[trigger] lm[j]).0 == k && is_stale(lm[j].1, now);
            assert(0 <= j < i + 1 && lm[j].0 == k && is_stale(lm[j].1, now));
        }
        if lm[i].0 == k && is_stale(lm[i].1, now) {
            assert(0 <= i < i + 1 && lm[i].0 == k && is_stale(lm[i].1, now));
        }
    }
}

/// Every element of a filtered sequence occurs in the original.
proof fn lemma_filter_origin<A>(s: Seq<A>, pred: spec_fn(A) -> bool, j: int)
    requires
        0 <= j < s.filter(pred).len(),
    ensures
        exists|i: int| 0 <= i < s.len() && #[trigger] s[i] == s.filter(pred)[j],
    decreases s.len(),
{
    reveal(Seq::filter);
    if s.len() > 0 {
        let rest = s.drop_last();
        if pred(s.last()) && j == s.filter(pred).len() - 1 {
            assert(s[s.len() - 1] == s.filter(pred)[j]);
        } else {
            lemma_filter_origin(rest, pred, j);
            let i = choose|i: int| 0 <= i < rest.len() && #[trigger] rest[i] == rest.filter(pred)[j];
            assert(s[i] == rest[i]);
        }
    }
}

/// Characterizes the unverified list of the forward ledger: an identifier is
/// named by an overdue entry exactly when its record is unverified and
/// overdue.
proof fn lemma_unverified_char_evm(
    kv: Seq<((Seq<char>, u64), EvmToIcpTxModel)>,
    m: Map<(Seq<char>, u64), EvmToIcpTxModel>,
    lm: Seq<((Seq<char>, u64), u64)>,
    now: u64,
)
    requires
        lm == kv.filter(|kv: ((Seq<char>, u64), EvmToIcpTxModel)| !kv.1.verified).map_values(
            |kv: ((Seq<char>, u64), EvmToIcpTxModel)| (kv.0, kv.1.time),
        ),
        forall|i: int|
            0 <= i < kv.len() ==> m.contains_key((#[trigger] kv[i]).0) && m[kv[i].0] == kv[i].1,
        forall|k: (Seq<char>, u64)| #[trigger]
            m.contains_key(k) ==> exists|i: int| 0 <= i < kv.len() && (#[trigger] kv[i]).0 == k,
    ensures
        forall|k: (Seq<char>, u64)| #[trigger]
            removed_by(lm, lm.len() as int, k, now) == (m.contains_key(k) && !m[k].verified
                && is_stale(m[k].time, now)),
{
    broadcast use vstd::seq_lib::group_filter_ensures;

    let pred = |kv: ((Seq<char>, u64), EvmToIcpTxModel)| !kv.1.verified;
    let f = |kv: ((Seq<char>, u64), EvmToIcpTxModel)| (kv.0, kv.1.time);
    let fl = kv.filter(pred);
    assert forall|k: (Seq<char>, u64)| #[trigger] removed_by(lm, lm.len() as int, k, now) == (
    m.contains_key(k) && !m[k].verified && is_stale(m[k].time, now)) by {
        if removed_by(lm, lm.len() as int, k, now) {
            let j = choose|j: int|
                0 <= j < lm.len() && (#[trigger] lm[j]).0 == k && is_stale(lm[j].1, now);
            assert(lm[j] == f(fl[j]));
            assert(pred(fl[j]));
            lemma_filter_origin(kv, pred, j);
            let i = choose|i: int| 0 <= i < kv.len() && #[trigger] kv[i] == fl[j];
            assert(m.contains_key(kv[i].0) && m[kv[i].0] == kv[i].1);
        }
        if m.contains_key(k) && !m[k].verified && is_stale(m[k].time, now) {
            let i = choose|i: int| 0 <= i < kv.len() && (#[trigger] kv[i]).0 == k;
            assert(m[k] == kv[i].1);
            assert(pred(kv[i]));
            assert(fl.contains(kv[i]));
            let j = choose|j: int| 0 <= j < fl.len() && #[trigger] fl[j] == kv[i];
            assert(lm[j] == f(kv[i]));
            assert(lm[j].0 == k && is_stale(lm[j].1, now));
            assert(removed_by(lm, lm.len() as int, k, now));
        }
    }
}

/// Characterizes the unverified list of the reverse ledger.
proof fn lemma_unverified_char_icp(
    kv: Seq<((u64, u64), IcpToEvmTxModel)>,
    m: Map<(u64, u64), IcpToEvmTxModel>,
    lm: Seq<((u64, u64), u64)>,
    now: u64,
)
    requires
        lm == kv.filter(|kv: ((u64, u64), IcpToEvmTxModel)| !kv.1.verified).map_values(
            |kv: ((u64, u64), IcpToEvmTxModel)| (kv.0, kv.1.time),
        ),
        forall|i: int|
            0 <= i < kv.len() ==> m.contains_key((#[trigger] kv[i]).0) && m[kv[i].0] == kv[i].1,
        forall|k: (u64, u64)| #[trigger]
            m.contains_key(k) ==> exists|i: int| 0 <= i < kv.len() && (#[trigger] kv[i]).0 == k,
    ensures
        forall|k: (u64, u64)| #[trigger]
            removed_by(lm, lm.len() as int, k, now) == (m.contains_key(k) && !m[k].verified
                && is_stale(m[k].time, now)),
{
    broadcast use vstd::seq_lib::group_filter_ensures;

    let pred = |kv: ((u64, u64), IcpToEvmTxModel)| !kv.1.verified;
    let f = |kv: ((u64, u64), IcpToEvmTxModel)| (kv.0, kv.1.time);
    let fl = kv.filter(pred);
    assert forall|k: (u64, u64)| #[trigger] removed_by(lm, lm.len() as int, k, now) == (
    m.contains_key(k) && !m[k].verified && is_stale(m[k].time, now)) by {
        if removed_by(lm, lm.len() as int, k, now) {
            let j = choose|j: int|
                0 <= j < lm.len() && (#[trigger] lm[j]).0 == k && is_stale(lm[j].1, now);
            assert(lm[j] == f(fl[j]));
            assert(pred(fl[j]));
            lemma_filter_origin(kv, pred, j);
            let i = choose|i: int| 0 <= i < kv.len() && #[trigger] kv[i] == fl[j];
            assert(m.contains_key(kv[i].0) && m[kv[i].0] == kv[i].1);
        }
        if m.contains_key(k) && !m[k].verified && is_stale(m[k].time, now) {
            let i = choose|i: int| 0 <= i < kv.len() && (#[trigger] kv[i]).0 == k;
            assert(m[k] == kv[i].1);
            assert(pred(kv[i]));
            assert(fl.contains(kv[i]));
            let j = choose|j: int| 0 <= j < fl.len() && #[trigger] fl[j] == kv[i];
            assert(lm[j] == f(kv[i]));
            assert(lm[j].0 == k && is_stale(lm[j].1, now));
            assert(removed_by(lm, lm.len() as int, k, now));
        }
    }
}

/// One sweep of the reaper at time `now`. If another sweep holds the guard
/// the invocation abandons with no side effects; otherwise every record that
/// is unverified and more than one hour old is deleted from both ledgers,
/// and the guard is released again. Verified records are never touched.
pub fn remove_unverified_tx(s: &mut State, now: u64)
    requires
        old(s).wf(),
    ensures
        final(s).wf(),
        old(s)@.remove_unverified_active ==> final(s)@ == old(s)@,
        !old(s)@.remove_unverified_active ==> final(s)@ == (StateModel {
            evm_to_icp_txs: swept_evm(old(s)@.evm_to_icp_txs, now),
            icp_to_evm_txs: swept_icp(old(s)@.icp_to_evm_txs, now),
            ..old(s)@
        }),
{
    if s.remove_unverified_active {
        return ;
    }
    s.remove_unverified_active = true;
    let ghost m0: Map<(Seq<char>, u64), EvmToIcpTxModel> = s@.evm_to_icp_txs;
    let ghost n0: Map<(u64, u64), IcpToEvmTxModel> = s@.icp_to_evm_txs;
    let ghost base: StateModel = s@;

    proof {
        s.evm_to_icp_txs.lemma_view_kv();
        s.evm_to_icp_txs.lemma_wf_unique();
    }
    let evm_list = s.all_unverified_evm_to_icp();
    let ghost elm: Seq<((Seq<char>, u64), u64)> = evm_list@.map_values(
        |p: (EvmToIcpTxIdentifier, u64)| (p.0@, p.1),
    );
    proof {
        lemma_unverified_char_evm(s.evm_to_icp_txs.kv_seq(), m0, elm, now);
    }
    let mut i: usize = 0;
    let n = evm_list.len();
    while i < n
        invariant
            s.wf(),
            n == evm_list@.len(),
            i <= n,
            elm == evm_list@.map_values(|p: (EvmToIcpTxIdentifier, u64)| (p.0@, p.1)),
            s@.minters == base.minters,
            s@.icp_to_evm_txs == base.icp_to_evm_txs,
            s@.supported_ckerc20_tokens == base.supported_ckerc20_tokens,
            s@.supported_twin_appic_tokens == base.supported_twin_appic_tokens,
            s@.remove_unverified_active == base.remove_unverified_active,
            forall|k: (Seq<char>, u64)| #[trigger]
                s@.evm_to_icp_txs.contains_key(k) == (m0.contains_key(k) && !removed_by(
                    elm,
                    i as int,
                    k,
                    now,
                )),
            forall|k: (Seq<char>, u64)| #[trigger]
                s@.evm_to_icp_txs.contains_key(k) ==> s@.evm_to_icp_txs[k] == m0[k],
        decreases n - i,
    {
        let t: u64 = evm_list[i].1;
        proof {
            assert(elm[i as int] == (evm_list@[i as int].0@, evm_list@[i as int].1));
            lemma_removed_by_step(elm, i as int, now);
        }
        if (t as u128) + (ONE_HOUR_IN_NS as u128) < (now as u128) {
            s.remove_unverified_evm_to_icp(&evm_list[i].0);
        }
        i += 1;
    }

    proof {
        s.icp_to_evm_txs.lemma_view_kv();
        s.icp_to_evm_txs.lemma_wf_unique();
    }
    let icp_list = s.all_unverified_icp_to_evm();
    let ghost ilm: Seq<((u64, u64), u64)> = icp_list@.map_values(
        |p: (IcpToEvmIdentifier, u64)| (p.0@, p.1),
    );
    proof {
        lemma_unverified_char_icp(s.icp_to_evm_txs.kv_seq(), n0, ilm, now);
    }
    let ghost mid: StateModel = s@;
    let mut j: usize = 0;
    let m = icp_list.len();
    while j < m
        invariant
            s.wf(),
            m == icp_list@.len(),
            j <= m,
            ilm == icp_list@.map_values(|p: (IcpToEvmIdentifier, u64)| (p.0@, p.1)),
            s@.minters == mid.minters,
            s@.evm_to_icp_txs == mid.evm_to_icp_txs,
            s@.supported_ckerc20_tokens == mid.supported_ckerc20_tokens,
            s@.supported_twin_appic_tokens == mid.supported_twin_appic_tokens,
            s@.remove_unverified_active == mid.remove_unverified_active,
            forall|k: (u64, u64)| #[trigger]
                s@.icp_to_evm_txs.contains_key(k) == (n0.contains_key(k) && !removed_by(
                    ilm,
                    j as int,
                    k,
                    now,
                )),
            forall|k: (u64, u64)| #[trigger]
                s@.icp_to_evm_txs.contains_key(k) ==> s@.icp_to_evm_txs[k] == n0[k],
        decreases m - j,
    {
        let t: u64 = icp_list[j].1;
        proof {
            assert(ilm[j as int] == (icp_list@[j as int].0@, icp_list@[j as int].1));
            lemma_removed_by_step(ilm, j as int, now);
        }
        if (t as u128) + (ONE_HOUR_IN_NS as u128) < (now as u128) {
            s.remove_unverified_icp_to_evm(&icp_list[j].0);
        }
        j += 1;
    }

    proof {
        assert(i == n);
        assert(j == m);
        assert(elm.len() as int == n as int);
        assert(ilm.len() as int == m as int);
        assert(n0 == old(s)@.icp_to_evm_txs);
        assert(s@.evm_to_icp_txs =~= swept_evm(old(s)@.evm_to_icp_txs, now));
        assert forall|k: (u64, u64)| #[trigger] s@.icp_to_evm_txs.contains_key(k)
            == swept_icp(n0, now).contains_key(k) by {
            assert(s@.icp_to_evm_txs.contains_key(k) == (n0.contains_key(k) && !removed_by(
                ilm,
                m as int,
                k,
                now,
            )));
            assert(removed_by(ilm, ilm.len() as int, k, now) == (n0.contains_key(k)
                && !n0[k].verified && is_stale(n0[k].time, now)));
        }
        assert(s@.icp_to_evm_txs =~= swept_icp(old(s)@.icp_to_evm_txs, now));
    }
    s.remove_unverified_active = false;
}

} // verus!
