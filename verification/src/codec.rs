//! Deterministic binary codec for every persisted key and value type.
//!
//! Integers are written big-endian and fixed-width; byte strings and text are
//! length-prefixed; options and enums carry a one-byte tag. Decoding is the
//! exact inverse of encoding: `lemma_round_trip_*` proves, for every
//! well-formed record, that decoding an encoding yields the identical record
//! and consumes exactly its bytes.

use vstd::prelude::*;
use vstd::utf8::{decode_utf8, encode_utf8, valid_utf8};
use crate::types::{Address, ChainId, Erc20Identifier, EvmToIcpStatus, EvmToIcpStatusModel,
    EvmToIcpTx, EvmToIcpTxIdentifier, EvmToIcpTxModel, IcpToEvmIdentifier, IcpToEvmStatus,
    IcpToEvmTx, IcpToEvmTxModel, Minter, MinterKey, MinterModel, Oprator, Principal};

verus! {

broadcast use vstd::utf8::encode_utf8_valid_utf8, vstd::utf8::encode_utf8_decode_utf8;

/// True iff a sequence is short enough for its 64-bit length prefix.
pub open spec fn fits_u64(n: nat) -> bool {
    n <= u64::MAX
}

pub proof fn lemma_add_assoc<T>(a: Seq<T>, b: Seq<T>, c: Seq<T>)
    ensures
        (a + b) + c == a + (b + c),
{
    assert((a + b) + c =~= a + (b + c));
}

// ---------------------------------------------------------------------------
// primitives
// ---------------------------------------------------------------------------

pub open spec fn enc_u64(v: u64) -> Seq<u8> {
    seq![
        (v >> 56) as u8,
        (v >> 48) as u8,
        (v >> 40) as u8,
        (v >> 32) as u8,
        (v >> 24) as u8,
        (v >> 16) as u8,
        (v >> 8) as u8,
        v as u8,
    ]
}

pub open spec fn u64_from_bytes(s: Seq<u8>) -> u64 {
    (((s[0] as u64) << 56) | ((s[1] as u64) << 48) | ((s[2] as u64) << 40) | ((s[3] as u64) << 32)
        | ((s[4] as u64) << 24) | ((s[5] as u64) << 16) | ((s[6] as u64) << 8) | (s[7] as u64)) as u64
}

pub open spec fn dec_u64(s: Seq<u8>) -> Option<(u64, Seq<u8>)> {
    if s.len() >= 8 {
        Some((u64_from_bytes(s), s.skip(8)))
    } else {
        None
    }
}

pub proof fn lemma_u64_round(v: u64, rest: Seq<u8>)
    ensures
        dec_u64(enc_u64(v) + rest) == Some((v, rest)),
{
    let s = enc_u64(v) + rest;
    assert(s.skip(8) =~= rest);
    assert(s[0] == (v >> 56) as u8 && s[1] == (v >> 48) as u8 && s[2] == (v >> 40) as u8 && s[3]
        == (v >> 32) as u8 && s[4] == (v >> 24) as u8 && s[5] == (v >> 16) as u8 && s[6] == (v
        >> 8) as u8 && s[7] == v as u8);
    assert((((((v >> 56) as u8) as u64) << 56) | ((((v >> 48) as u8) as u64) << 48) | ((((v
        >> 40) as u8) as u64) << 40) | ((((v >> 32) as u8) as u64) << 32) | ((((v
        >> 24) as u8) as u64) << 24) | ((((v >> 16) as u8) as u64) << 16) | ((((v
        >> 8) as u8) as u64) << 8) | ((v as u8) as u64)) as u64 == v) by (bit_vector);
}

pub open spec fn enc_u128(v: u128) -> Seq<u8> {
    enc_u64((v >> 64) as u64) + enc_u64(v as u64)
}

pub open spec fn dec_u128(s: Seq<u8>) -> Option<(u128, Seq<u8>)> {
    match dec_u64(s) {
        Some((hi, r)) => match dec_u64(r) {
            Some((lo, r2)) => Some(((((hi as u128) << 64) | (lo as u128)) as u128, r2)),
            None => None,
        },
        None => None,
    }
}

pub proof fn lemma_u128_round(v: u128, rest: Seq<u8>)
    ensures
        dec_u128(enc_u128(v) + rest) == Some((v, rest)),
{
    let hi = (v >> 64) as u64;
    let lo = v as u64;
    assert(enc_u128(v) + rest =~= enc_u64(hi) + (enc_u64(lo) + rest));
    lemma_u64_round(hi, enc_u64(lo) + rest);
    lemma_u64_round(lo, rest);
    assert((((((v >> 64) as u64) as u128) << 64) | ((v as u64) as u128)) as u128 == v)
        by (bit_vector);
}

pub open spec fn enc_bool(b: bool) -> Seq<u8> {
    if b {
        seq![1u8]
    } else {
        seq![0u8]
    }
}

pub open spec fn dec_bool(s: Seq<u8>) -> Option<(bool, Seq<u8>)> {
    if s.len() < 1 {
        None
    } else if s[0] == 0 {
        Some((false, s.skip(1)))
    } else if s[0] == 1 {
        Some((true, s.skip(1)))
    } else {
        None
    }
}

pub proof fn lemma_bool_round(b: bool, rest: Seq<u8>)
    ensures
        dec_bool(enc_bool(b) + rest) == Some((b, rest)),
{
    assert((enc_bool(b) + rest).skip(1) =~= rest);
}

pub open spec fn enc_bytes(b: Seq<u8>) -> Seq<u8> {
    enc_u64(b.len() as u64) + b
}

pub open spec fn dec_bytes(s: Seq<u8>) -> Option<(Seq<u8>, Seq<u8>)> {
    match dec_u64(s) {
        Some((len, r)) => if r.len() >= len {
            Some((r.take(len as int), r.skip(len as int)))
        } else {
            None
        },
        None => None,
    }
}

pub proof fn lemma_bytes_round(b: Seq<u8>, rest: Seq<u8>)
    requires
        fits_u64(b.len()),
    ensures
        dec_bytes(enc_bytes(b) + rest) == Some((b, rest)),
{
    assert(enc_bytes(b) + rest =~= enc_u64(b.len() as u64) + (b + rest));
    lemma_u64_round(b.len() as u64, b + rest);
    assert((b + rest).take(b.len() as int) =~= b);
    assert((b + rest).skip(b.len() as int) =~= rest);
}

pub open spec fn enc_str(t: Seq<char>) -> Seq<u8> {
    enc_bytes(encode_utf8(t))
}

pub open spec fn dec_str(s: Seq<u8>) -> Option<(Seq<char>, Seq<u8>)> {
    match dec_bytes(s) {
        Some((b, r)) => if valid_utf8(b) {
            Some((decode_utf8(b), r))
        } else {
            None
        },
        None => None,
    }
}

pub proof fn lemma_str_round(t: Seq<char>, rest: Seq<u8>)
    requires
        fits_u64(encode_utf8(t).len()),
    ensures
        dec_str(enc_str(t) + rest) == Some((t, rest)),
{
    lemma_bytes_round(encode_utf8(t), rest);
}

// options

pub open spec fn enc_opt_u64(o: Option<u64>) -> Seq<u8> {
    match o {
        None => seq![0u8],
        Some(v) => seq![1u8] + enc_u64(v),
    }
}

pub open spec fn dec_opt_u64(s: Seq<u8>) -> Option<(Option<u64>, Seq<u8>)> {
    if s.len() < 1 {
        None
    } else if s[0] == 0 {
        Some((None, s.skip(1)))
    } else if s[0] == 1 {
        match dec_u64(s.skip(1)) {
            Some((v, r)) => Some((Some(v), r)),
            None => None,
        }
    } else {
        None
    }
}

pub proof fn lemma_opt_u64_round(o: Option<u64>, rest: Seq<u8>)
    ensures
        dec_opt_u64(enc_opt_u64(o) + rest) == Some((o, rest)),
{
    match o {
        None => {
            assert((enc_opt_u64(o) + rest).skip(1) =~= rest);
        },
        Some(v) => {
            assert((enc_opt_u64(o) + rest).skip(1) =~= enc_u64(v) + rest);
            lemma_u64_round(v, rest);
        },
    }
}

pub open spec fn enc_opt_u128(o: Option<u128>) -> Seq<u8> {
    match o {
        None => seq![0u8],
        Some(v) => seq![1u8] + enc_u128(v),
    }
}

pub open spec fn dec_opt_u128(s: Seq<u8>) -> Option<(Option<u128>, Seq<u8>)> {
    if s.len() < 1 {
        None
    } else if s[0] == 0 {
        Some((None, s.skip(1)))
    } else if s[0] == 1 {
        match dec_u128(s.skip(1)) {
            Some((v, r)) => Some((Some(v), r)),
            None => None,
        }
    } else {
        None
    }
}

pub proof fn lemma_opt_u128_round(o: Option<u128>, rest: Seq<u8>)
    ensures
        dec_opt_u128(enc_opt_u128(o) + rest) == Some((o, rest)),
{
    match o {
        None => {
            assert((enc_opt_u128(o) + rest).skip(1) =~= rest);
        },
        Some(v) => {
            assert((enc_opt_u128(o) + rest).skip(1) =~= enc_u128(v) + rest);
            lemma_u128_round(v, rest);
        },
    }
}

pub open spec fn enc_opt_bytes(o: Option<Seq<u8>>) -> Seq<u8> {
    match o {
        None => seq![0u8],
        Some(b) => seq![1u8] + enc_bytes(b),
    }
}

pub open spec fn dec_opt_bytes(s: Seq<u8>) -> Option<(Option<Seq<u8>>, Seq<u8>)> {
    if s.len() < 1 {
        None
    } else if s[0] == 0 {
        Some((None, s.skip(1)))
    } else if s[0] == 1 {
        match dec_bytes(s.skip(1)) {
            Some((b, r)) => Some((Some(b), r)),
            None => None,
        }
    } else {
        None
    }
}

pub proof fn lemma_opt_bytes_round(o: Option<Seq<u8>>, rest: Seq<u8>)
    requires
        o matches Some(b) ==> fits_u64(b.len()),
    ensures
        dec_opt_bytes(enc_opt_bytes(o) + rest) == Some((o, rest)),
{
    match o {
        None => {
            assert((enc_opt_bytes(o) + rest).skip(1) =~= rest);
        },
        Some(b) => {
            assert((enc_opt_bytes(o) + rest).skip(1) =~= enc_bytes(b) + rest);
            lemma_bytes_round(b, rest);
        },
    }
}

pub open spec fn enc_opt_str(o: Option<Seq<char>>) -> Seq<u8> {
    match o {
        None => seq![0u8],
        Some(t) => seq![1u8] + enc_str(t),
    }
}

pub open spec fn dec_opt_str(s: Seq<u8>) -> Option<(Option<Seq<char>>, Seq<u8>)> {
    if s.len() < 1 {
        None
    } else if s[0] == 0 {
        Some((None, s.skip(1)))
    } else if s[0] == 1 {
        match dec_str(s.skip(1)) {
            Some((t, r)) => Some((Some(t), r)),
            None => None,
        }
    } else {
        None
    }
}

pub proof fn lemma_opt_str_round(o: Option<Seq<char>>, rest: Seq<u8>)
    requires
        o matches Some(t) ==> fits_u64(encode_utf8(t).len()),
    ensures
        dec_opt_str(enc_opt_str(o) + rest) == Some((o, rest)),
{
    match o {
        None => {
            assert((enc_opt_str(o) + rest).skip(1) =~= rest);
        },
        Some(t) => {
            assert((enc_opt_str(o) + rest).skip(1) =~= enc_str(t) + rest);
            lemma_str_round(t, rest);
        },
    }
}

// enums

pub open spec fn enc_oprator(o: Oprator) -> Seq<u8> {
    match o {
        Oprator::DfinityCkEthMinter => seq![0u8],
        Oprator::AppicMinter => seq![1u8],
    }
}

pub open spec fn dec_oprator(s: Seq<u8>) -> Option<(Oprator, Seq<u8>)> {
    if s.len() < 1 {
        None
    } else if s[0] == 0 {
        Some((Oprator::DfinityCkEthMinter, s.skip(1)))
    } else if s[0] == 1 {
        Some((Oprator::AppicMinter, s.skip(1)))
    } else {
        None
    }
}

pub proof fn lemma_oprator_round(o: Oprator, rest: Seq<u8>)
    ensures
        dec_oprator(enc_oprator(o) + rest) == Some((o, rest)),
{
    assert((enc_oprator(o) + rest).skip(1) =~= rest);
}

pub open spec fn enc_evm_status(st: EvmToIcpStatusModel) -> Seq<u8> {
    match st {
        EvmToIcpStatusModel::PendingVerification => seq![0u8],
        EvmToIcpStatusModel::Accepted => seq![1u8],
        EvmToIcpStatusModel::Minted => seq![2u8],
        EvmToIcpStatusModel::Invalid(reason) => seq![3u8] + enc_str(reason),
        EvmToIcpStatusModel::Quarantined => seq![4u8],
    }
}

pub open spec fn dec_evm_status(s: Seq<u8>) -> Option<(EvmToIcpStatusModel, Seq<u8>)> {
    if s.len() < 1 {
        None
    } else if s[0] == 0 {
        Some((EvmToIcpStatusModel::PendingVerification, s.skip(1)))
    } else if s[0] == 1 {
        Some((EvmToIcpStatusModel::Accepted, s.skip(1)))
    } else if s[0] == 2 {
        Some((EvmToIcpStatusModel::Minted, s.skip(1)))
    } else if s[0] == 3 {
        match dec_str(s.skip(1)) {
            Some((reason, r)) => Some((EvmToIcpStatusModel::Invalid(reason), r)),
            None => None,
        }
    } else if s[0] == 4 {
        Some((EvmToIcpStatusModel::Quarantined, s.skip(1)))
    } else {
        None
    }
}

pub open spec fn wf_evm_status(st: EvmToIcpStatusModel) -> bool {
    st matches EvmToIcpStatusModel::Invalid(reason) ==> fits_u64(encode_utf8(reason).len())
}

pub proof fn lemma_evm_status_round(st: EvmToIcpStatusModel, rest: Seq<u8>)
    requires
        wf_evm_status(st),
    ensures
        dec_evm_status(enc_evm_status(st) + rest) == Some((st, rest)),
{
    match st {
        EvmToIcpStatusModel::Invalid(reason) => {
            assert((enc_evm_status(st) + rest).skip(1) =~= enc_str(reason) + rest);
            lemma_str_round(reason, rest);
        },
        _ => {
            assert((enc_evm_status(st) + rest).skip(1) =~= rest);
        },
    }
}

pub open spec fn icp_status_tag(st: IcpToEvmStatus) -> u8 {
    match st {
        IcpToEvmStatus::PendingVerification => 0u8,
        IcpToEvmStatus::Accepted => 1u8,
        IcpToEvmStatus::Created => 2u8,
        IcpToEvmStatus::SignedTransaction => 3u8,
        IcpToEvmStatus::FinalizedTransaction => 4u8,
        IcpToEvmStatus::ReplacedTransaction => 5u8,
        IcpToEvmStatus::Reimbursed => 6u8,
        IcpToEvmStatus::QuarantinedReimbursement => 7u8,
        IcpToEvmStatus::Successful => 8u8,
        IcpToEvmStatus::Failed => 9u8,
    }
}

pub open spec fn enc_icp_status(st: IcpToEvmStatus) -> Seq<u8> {
    seq![icp_status_tag(st)]
}

pub open spec fn dec_icp_status(s: Seq<u8>) -> Option<(IcpToEvmStatus, Seq<u8>)> {
    if s.len() < 1 {
        None
    } else if s[0] == 0 {
        Some((IcpToEvmStatus::PendingVerification, s.skip(1)))
    } else if s[0] == 1 {
        Some((IcpToEvmStatus::Accepted, s.skip(1)))
    } else if s[0] == 2 {
        Some((IcpToEvmStatus::Created, s.skip(1)))
    } else if s[0] == 3 {
        Some((IcpToEvmStatus::SignedTransaction, s.skip(1)))
    } else if s[0] == 4 {
        Some((IcpToEvmStatus::FinalizedTransaction, s.skip(1)))
    } else if s[0] == 5 {
        Some((IcpToEvmStatus::ReplacedTransaction, s.skip(1)))
    } else if s[0] == 6 {
        Some((IcpToEvmStatus::Reimbursed, s.skip(1)))
    } else if s[0] == 7 {
        Some((IcpToEvmStatus::QuarantinedReimbursement, s.skip(1)))
    } else if s[0] == 8 {
        Some((IcpToEvmStatus::Successful, s.skip(1)))
    } else if s[0] == 9 {
        Some((IcpToEvmStatus::Failed, s.skip(1)))
    } else {
        None
    }
}

pub proof fn lemma_icp_status_round(st: IcpToEvmStatus, rest: Seq<u8>)
    ensures
        dec_icp_status(enc_icp_status(st) + rest) == Some((st, rest)),
{
    assert((enc_icp_status(st) + rest).skip(1) =~= rest);
}

// ---------------------------------------------------------------------------
// persisted types
// ---------------------------------------------------------------------------

pub open spec fn enc_minter_key(k: (u64, Oprator)) -> Seq<u8> {
    enc_u64(k.0) + enc_oprator(k.1)
}

pub open spec fn dec_minter_key(s: Seq<u8>) -> Option<((u64, Oprator), Seq<u8>)> {
    match dec_u64(s) {
        Some((chain, r)) => match dec_oprator(r) {
            Some((o, r2)) => Some(((chain, o), r2)),
            None => None,
        },
        None => None,
    }
}

/// Round-trip: decoding an encoded minter key yields the identical key.
pub proof fn lemma_round_trip_minter_key(k: (u64, Oprator), rest: Seq<u8>)
    ensures
        dec_minter_key(enc_minter_key(k) + rest) == Some((k, rest)),
{
    assert(enc_minter_key(k) + rest =~= enc_u64(k.0) + (enc_oprator(k.1) + rest));
    lemma_u64_round(k.0, enc_oprator(k.1) + rest);
    lemma_oprator_round(k.1, rest);
}

pub open spec fn wf_minter(m: MinterModel) -> bool {
    fits_u64(m.id.len())
}

pub open spec fn enc_minter(m: MinterModel) -> Seq<u8> {
    enc_bytes(m.id) + enc_u64(m.last_observed_event) + enc_u64(m.last_scraped_event) + enc_oprator(
        m.oprator,
    ) + enc_u128(m.evm_to_icp_fee) + enc_u128(m.icp_to_evm_fee) + enc_u64(m.chain_id)
}

pub open spec fn dec_minter(s: Seq<u8>) -> Option<(MinterModel, Seq<u8>)> {
    match dec_bytes(s) {
        Some((id, r1)) => match dec_u64(r1) {
            Some((last_observed_event, r2)) => match dec_u64(r2) {
                Some((last_scraped_event, r3)) => match dec_oprator(r3) {
                    Some((oprator, r4)) => match dec_u128(r4) {
                        Some((evm_to_icp_fee, r5)) => match dec_u128(r5) {
                            Some((icp_to_evm_fee, r6)) => match dec_u64(r6) {
                                Some((chain_id, r7)) => Some(
                                    (
                                        MinterModel {
                                            id,
                                            last_observed_event,
                                            last_scraped_event,
                                            oprator,
                                            evm_to_icp_fee,
                                            icp_to_evm_fee,
                                            chain_id,
                                        },
                                        r7,
                                    ),
                                ),
                                None => None,
                            },
                            None => None,
                        },
                        None => None,
                    },
                    None => None,
                },
                None => None,
            },
            None => None,
        },
        None => None,
    }
}

/// Round-trip: decoding an encoded minter record yields the identical record.
pub proof fn lemma_round_trip_minter(m: MinterModel, rest: Seq<u8>)
    requires
        wf_minter(m),
    ensures
        dec_minter(enc_minter(m) + rest) == Some((m, rest)),
{
    let r7 = rest;
    let r6 = enc_u64(m.chain_id) + r7;
    let r5 = enc_u128(m.icp_to_evm_fee) + r6;
    let r4 = enc_u128(m.evm_to_icp_fee) + r5;
    let r3 = enc_oprator(m.oprator) + r4;
    let r2 = enc_u64(m.last_scraped_event) + r3;
    let r1 = enc_u64(m.last_observed_event) + r2;
    assert(enc_minter(m) + rest =~= enc_bytes(m.id) + r1);
    lemma_bytes_round(m.id, r1);
    lemma_u64_round(m.last_observed_event, r2);
    lemma_u64_round(m.last_scraped_event, r3);
    lemma_oprator_round(m.oprator, r4);
    lemma_u128_round(m.evm_to_icp_fee, r5);
    lemma_u128_round(m.icp_to_evm_fee, r6);
    lemma_u64_round(m.chain_id, r7);
}

pub open spec fn wf_evm_id(k: (Seq<char>, u64)) -> bool {
    fits_u64(encode_utf8(k.0).len())
}

pub open spec fn enc_evm_id(k: (Seq<char>, u64)) -> Seq<u8> {
    enc_str(k.0) + enc_u64(k.1)
}

pub open spec fn dec_evm_id(s: Seq<u8>) -> Option<((Seq<char>, u64), Seq<u8>)> {
    match dec_str(s) {
        Some((hash, r)) => match dec_u64(r) {
            Some((chain, r2)) => Some(((hash, chain), r2)),
            None => None,
        },
        None => None,
    }
}

/// Round-trip: decoding an encoded forward identifier yields the identical one.
pub proof fn lemma_round_trip_evm_id(k: (Seq<char>, u64), rest: Seq<u8>)
    requires
        wf_evm_id(k),
    ensures
        dec_evm_id(enc_evm_id(k) + rest) == Some((k, rest)),
{
    assert(enc_evm_id(k) + rest =~= enc_str(k.0) + (enc_u64(k.1) + rest));
    lemma_str_round(k.0, enc_u64(k.1) + rest);
    lemma_u64_round(k.1, rest);
}

pub open spec fn enc_icp_id(k: (u64, u64)) -> Seq<u8> {
    enc_u64(k.0) + enc_u64(k.1)
}

pub open spec fn dec_icp_id(s: Seq<u8>) -> Option<((u64, u64), Seq<u8>)> {
    match dec_u64(s) {
        Some((burn, r)) => match dec_u64(r) {
            Some((chain, r2)) => Some(((burn, chain), r2)),
            None => None,
        },
        None => None,
    }
}

/// Round-trip: decoding an encoded reverse identifier yields the identical one.
pub proof fn lemma_round_trip_icp_id(k: (u64, u64), rest: Seq<u8>)
    ensures
        dec_icp_id(enc_icp_id(k) + rest) == Some((k, rest)),
{
    assert(enc_icp_id(k) + rest =~= enc_u64(k.0) + (enc_u64(k.1) + rest));
    lemma_u64_round(k.0, enc_u64(k.1) + rest);
    lemma_u64_round(k.1, rest);
}

pub open spec fn wf_erc20_id(k: (Seq<u8>, u64)) -> bool {
    fits_u64(k.0.len())
}

pub open spec fn enc_erc20_id(k: (Seq<u8>, u64)) -> Seq<u8> {
    enc_bytes(k.0) + enc_u64(k.1)
}

pub open spec fn dec_erc20_id(s: Seq<u8>) -> Option<((Seq<u8>, u64), Seq<u8>)> {
    match dec_bytes(s) {
        Some((addr, r)) => match dec_u64(r) {
            Some((chain, r2)) => Some(((addr, chain), r2)),
            None => None,
        },
        None => None,
    }
}

/// Round-trip: decoding an encoded token identifier yields the identical one.
pub proof fn lemma_round_trip_erc20_id(k: (Seq<u8>, u64), rest: Seq<u8>)
    requires
        wf_erc20_id(k),
    ensures
        dec_erc20_id(enc_erc20_id(k) + rest) == Some((k, rest)),
{
    assert(enc_erc20_id(k) + rest =~= enc_bytes(k.0) + (enc_u64(k.1) + rest));
    lemma_bytes_round(k.0, enc_u64(k.1) + rest);
    lemma_u64_round(k.1, rest);
}

pub open spec fn wf_evm_tx(m: EvmToIcpTxModel) -> bool {
    &&& fits_u64(m.from_address.len())
    &&& fits_u64(encode_utf8(m.transaction_hash).len())
    &&& fits_u64(m.principal.len())
    &&& (m.subaccount matches Some(b) ==> fits_u64(b.len()))
    &&& fits_u64(m.erc20_contract_address.len())
    &&& (m.icrc_ledger_id matches Some(b) ==> fits_u64(b.len()))
    &&& wf_evm_status(m.status)
}

pub open spec fn enc_evm_tx(m: EvmToIcpTxModel) -> Seq<u8> {
    enc_bytes(m.from_address) + (enc_str(m.transaction_hash) + (enc_u128(m.value) + (enc_opt_u128(
        m.block_number,
    ) + (enc_opt_u128(m.actual_received) + (enc_bytes(m.principal) + (enc_opt_bytes(m.subaccount)
        + (enc_u64(m.chain_id) + (enc_opt_u128(m.total_gas_spent) + (enc_bytes(
        m.erc20_contract_address,
    ) + (enc_opt_bytes(m.icrc_ledger_id) + (enc_evm_status(m.status) + (enc_bool(m.verified)
        + (enc_u64(m.time) + enc_oprator(m.oprator))))))))))))))
}

/// The leading fields of a forward record, as decoded values.
pub struct EvmTxHead {
    pub from_address: Seq<u8>,
    pub transaction_hash: Seq<char>,
    pub value: u128,
    pub block_number: Option<u128>,
    pub actual_received: Option<u128>,
    pub principal: Seq<u8>,
    pub subaccount: Option<Seq<u8>>,
    pub chain_id: u64,
}

pub open spec fn dec_evm_head(s: Seq<u8>) -> Option<(EvmTxHead, Seq<u8>)> {
    match dec_bytes(s) {
        Some((from_address, r1)) => match dec_str(r1) {
            Some((transaction_hash, r2)) => match dec_u128(r2) {
                Some((value, r3)) => match dec_opt_u128(r3) {
                    Some((block_number, r4)) => match dec_opt_u128(r4) {
                        Some((actual_received, r5)) => match dec_bytes(r5) {
                            Some((principal, r6)) => match dec_opt_bytes(r6) {
                                Some((subaccount, r7)) => match dec_u64(r7) {
                                    Some((chain_id, r8)) => Some(
                                        (
                                            EvmTxHead {
                                                from_address,
                                                transaction_hash,
                                                value,
                                                block_number,
                                                actual_received,
                                                principal,
                                                subaccount,
                                                chain_id,
                                            },
                                            r8,
                                        ),
                                    ),
                                    None => None,
                                },
                                None => None,
                            },
                            None => None,
                        },
                        None => None,
                    },
                    None => None,
                },
                None => None,
            },
            None => None,
        },
        None => None,
    }
}

pub open spec fn dec_evm_tx(s: Seq<u8>) -> Option<(EvmToIcpTxModel, Seq<u8>)> {
    match dec_evm_head(s) {
        Some((h, r8)) => match dec_opt_u128(r8) {
            Some((total_gas_spent, r9)) => match dec_bytes(r9) {
                Some((erc20_contract_address, r10)) => match dec_opt_bytes(r10) {
                    Some((icrc_ledger_id, r11)) => match dec_evm_status(r11) {
                        Some((status, r12)) => match dec_bool(r12) {
                            Some((verified, r13)) => match dec_u64(r13) {
                                Some((time, r14)) => match dec_oprator(r14) {
                                    Some((oprator, r15)) => Some(
                                        (
                                            EvmToIcpTxModel {
                                                from_address: h.from_address,
                                                transaction_hash: h.transaction_hash,
                                                value: h.value,
                                                block_number: h.block_number,
                                                actual_received: h.actual_received,
                                                principal: h.principal,
                                                subaccount: h.subaccount,
                                                chain_id: h.chain_id,
                                                total_gas_spent,
                                                erc20_contract_address,
                                                icrc_ledger_id,
                                                status,
                                                verified,
                                                time,
                                                oprator,
                                            },
                                            r15,
                                        ),
                                    ),
                                    None => None,
                                },
                                None => None,
                            },
                            None => None,
                        },
                        None => None,
                    },
                    None => None,
                },
                None => None,
            },
            None => None,
        },
        None => None,
    }
}

/// Round-trip: decoding an encoded forward record yields the identical record
/// and consumes exactly its bytes.
#[verifier::rlimit(100)]
pub proof fn lemma_round_trip_evm_tx(m: EvmToIcpTxModel, rest: Seq<u8>)
    requires
        wf_evm_tx(m),
    ensures
        dec_evm_tx(enc_evm_tx(m) + rest) == Some((m, rest)),
{
    let e15 = enc_oprator(m.oprator);
    let t14 = enc_u64(m.time) + e15;
    let t13 = enc_bool(m.verified) + t14;
    let t12 = enc_evm_status(m.status) + t13;
    let t11 = enc_opt_bytes(m.icrc_ledger_id) + t12;
    let t10 = enc_bytes(m.erc20_contract_address) + t11;
    let t9 = enc_opt_u128(m.total_gas_spent) + t10;
    let t8 = enc_u64(m.chain_id) + t9;
    let t7 = enc_opt_bytes(m.subaccount) + t8;
    let t6 = enc_bytes(m.principal) + t7;
    let t5 = enc_opt_u128(m.actual_received) + t6;
    let t4 = enc_opt_u128(m.block_number) + t5;
    let t3 = enc_u128(m.value) + t4;
    let t2 = enc_str(m.transaction_hash) + t3;
    lemma_add_assoc(enc_bytes(m.from_address), t2, rest);
    lemma_bytes_round(m.from_address, t2 + rest);
    lemma_add_assoc(enc_str(m.transaction_hash), t3, rest);
    lemma_str_round(m.transaction_hash, t3 + rest);
    lemma_add_assoc(enc_u128(m.value), t4, rest);
    lemma_u128_round(m.value, t4 + rest);
    lemma_add_assoc(enc_opt_u128(m.block_number), t5, rest);
    lemma_opt_u128_round(m.block_number, t5 + rest);
    lemma_add_assoc(enc_opt_u128(m.actual_received), t6, rest);
    lemma_opt_u128_round(m.actual_received, t6 + rest);
    lemma_add_assoc(enc_bytes(m.principal), t7, rest);
    lemma_bytes_round(m.principal, t7 + rest);
    lemma_add_assoc(enc_opt_bytes(m.subaccount), t8, rest);
    lemma_opt_bytes_round(m.subaccount, t8 + rest);
    lemma_add_assoc(enc_u64(m.chain_id), t9, rest);
    lemma_u64_round(m.chain_id, t9 + rest);
    lemma_add_assoc(enc_opt_u128(m.total_gas_spent), t10, rest);
    lemma_opt_u128_round(m.total_gas_spent, t10 + rest);
    lemma_add_assoc(enc_bytes(m.erc20_contract_address), t11, rest);
    lemma_bytes_round(m.erc20_contract_address, t11 + rest);
    lemma_add_assoc(enc_opt_bytes(m.icrc_ledger_id), t12, rest);
    lemma_opt_bytes_round(m.icrc_ledger_id, t12 + rest);
    lemma_add_assoc(enc_evm_status(m.status), t13, rest);
    lemma_evm_status_round(m.status, t13 + rest);
    lemma_add_assoc(enc_bool(m.verified), t14, rest);
    lemma_bool_round(m.verified, t14 + rest);
    lemma_add_assoc(enc_u64(m.time), e15, rest);
    lemma_u64_round(m.time, e15 + rest);
    lemma_oprator_round(m.oprator, rest);
}

pub open spec fn wf_icp_tx(m: IcpToEvmTxModel) -> bool {
    &&& (m.transaction_hash matches Some(t) ==> fits_u64(encode_utf8(t).len()))
    &&& fits_u64(m.destination.len())
    &&& fits_u64(m.from.len())
    &&& (m.from_subaccount matches Some(b) ==> fits_u64(b.len()))
    &&& fits_u64(m.erc20_contract_address.len())
    &&& (m.icrc_ledger_id matches Some(b) ==> fits_u64(b.len()))
}

pub open spec fn enc_icp_tx(m: IcpToEvmTxModel) -> Seq<u8> {
    enc_opt_str(m.transaction_hash) + (enc_u64(m.native_ledger_burn_index) + (enc_u128(
        m.withdrawal_amount,
    ) + (enc_opt_u128(m.actual_received) + (enc_bytes(m.destination) + (enc_bytes(m.from) + (enc_u64(
        m.chain_id,
    ) + (enc_opt_bytes(m.from_subaccount) + (enc_u64(m.time) + (enc_opt_u128(m.max_transaction_fee)
        + (enc_opt_u128(m.effective_gas_price) + (enc_opt_u128(m.gas_used) + (enc_opt_u128(
        m.total_gas_spent,
    ) + (enc_opt_u64(m.erc20_ledger_burn_index) + (enc_bytes(m.erc20_contract_address)
        + (enc_opt_bytes(m.icrc_ledger_id) + (enc_bool(m.verified) + (enc_icp_status(m.status)
        + enc_oprator(m.oprator))))))))))))))))))
}

/// The leading fields of a reverse record, as decoded values.
pub struct IcpTxHead {
    pub transaction_hash: Option<Seq<char>>,
    pub native_ledger_burn_index: u64,
    pub withdrawal_amount: u128,
    pub actual_received: Option<u128>,
    pub destination: Seq<u8>,
    pub from: Seq<u8>,
    pub chain_id: u64,
    pub from_subaccount: Option<Seq<u8>>,
    pub time: u64,
    pub max_transaction_fee: Option<u128>,
}

pub open spec fn dec_icp_head(s: Seq<u8>) -> Option<(IcpTxHead, Seq<u8>)> {
    match dec_opt_str(s) {
        Some((transaction_hash, r1)) => match dec_u64(r1) {
            Some((native_ledger_burn_index, r2)) => match dec_u128(r2) {
                Some((withdrawal_amount, r3)) => match dec_opt_u128(r3) {
                    Some((actual_received, r4)) => match dec_bytes(r4) {
                        Some((destination, r5)) => match dec_bytes(r5) {
                            Some((from, r6)) => match dec_u64(r6) {
                                Some((chain_id, r7)) => match dec_opt_bytes(r7) {
                                    Some((from_subaccount, r8)) => match dec_u64(r8) {
                                        Some((time, r9)) => match dec_opt_u128(r9) {
                                            Some((max_transaction_fee, r10)) => Some(
                                                (
                                                    IcpTxHead {
                                                        transaction_hash,
                                                        native_ledger_burn_index,
                                                        withdrawal_amount,
                                                        actual_received,
                                                        destination,
                                                        from,
                                                        chain_id,
                                                        from_subaccount,
                                                        time,
                                                        max_transaction_fee,
                                                    },
                                                    r10,
                                                ),
                                            ),
                                            None => None,
                                        },
                                        None => None,
                                    },
                                    None => None,
                                },
                                None => None,
                            },
                            None => None,
                        },
                        None => None,
                    },
                    None => None,
                },
                None => None,
            },
            None => None,
        },
        None => None,
    }
}

pub open spec fn dec_icp_tx(s: Seq<u8>) -> Option<(IcpToEvmTxModel, Seq<u8>)> {
    match dec_icp_head(s) {
        Some((h, r10)) => match dec_opt_u128(r10) {
            Some((effective_gas_price, r11)) => match dec_opt_u128(r11) {
                Some((gas_used, r12)) => match dec_opt_u128(r12) {
                    Some((total_gas_spent, r13)) => match dec_opt_u64(r13) {
                        Some((erc20_ledger_burn_index, r14)) => match dec_bytes(r14) {
                            Some((erc20_contract_address, r15)) => match dec_opt_bytes(r15) {
                                Some((icrc_ledger_id, r16)) => match dec_bool(r16) {
                                    Some((verified, r17)) => match dec_icp_status(r17) {
                                        Some((status, r18)) => match dec_oprator(r18) {
                                            Some((oprator, r19)) => Some(
                                                (
                                                    IcpToEvmTxModel {
                                                        transaction_hash: h.transaction_hash,
                                                        native_ledger_burn_index:
                                                            h.native_ledger_burn_index,
                                                        withdrawal_amount: h.withdrawal_amount,
                                                        actual_received: h.actual_received,
                                                        destination: h.destination,
                                                        from: h.from,
                                                        chain_id: h.chain_id,
                                                        from_subaccount: h.from_subaccount,
                                                        time: h.time,
                                                        max_transaction_fee: h.max_transaction_fee,
                                                        effective_gas_price,
                                                        gas_used,
                                                        total_gas_spent,
                                                        erc20_ledger_burn_index,
                                                        erc20_contract_address,
                                                        icrc_ledger_id,
                                                        verified,
                                                        status,
                                                        oprator,
                                                    },
                                                    r19,
                                                ),
                                            ),
                                            None => None,
                                        },
                                        None => None,
                                    },
                                    None => None,
                                },
                                None => None,
                            },
                            None => None,
                        },
                        None => None,
                    },
                    None => None,
                },
                None => None,
            },
            None => None,
        },
        None => None,
    }
}

/// Round-trip: decoding an encoded reverse record yields the identical record
/// and consumes exactly its bytes.
#[verifier::rlimit(100)]
pub proof fn lemma_round_trip_icp_tx(m: IcpToEvmTxModel, rest: Seq<u8>)
    requires
        wf_icp_tx(m),
    ensures
        dec_icp_tx(enc_icp_tx(m) + rest) == Some((m, rest)),
{
    let e19 = enc_oprator(m.oprator);
    let t18 = enc_icp_status(m.status) + e19;
    let t17 = enc_bool(m.verified) + t18;
    let t16 = enc_opt_bytes(m.icrc_ledger_id) + t17;
    let t15 = enc_bytes(m.erc20_contract_address) + t16;
    let t14 = enc_opt_u64(m.erc20_ledger_burn_index) + t15;
    let t13 = enc_opt_u128(m.total_gas_spent) + t14;
    let t12 = enc_opt_u128(m.gas_used) + t13;
    let t11 = enc_opt_u128(m.effective_gas_price) + t12;
    let t10 = enc_opt_u128(m.max_transaction_fee) + t11;
    let t9 = enc_u64(m.time) + t10;
    let t8 = enc_opt_bytes(m.from_subaccount) + t9;
    let t7 = enc_u64(m.chain_id) + t8;
    let t6 = enc_bytes(m.from) + t7;
    let t5 = enc_bytes(m.destination) + t6;
    let t4 = enc_opt_u128(m.actual_received) + t5;
    let t3 = enc_u128(m.withdrawal_amount) + t4;
    let t2 = enc_u64(m.native_ledger_burn_index) + t3;
    lemma_add_assoc(enc_opt_str(m.transaction_hash), t2, rest);
    lemma_opt_str_round(m.transaction_hash, t2 + rest);
    lemma_add_assoc(enc_u64(m.native_ledger_burn_index), t3, rest);
    lemma_u64_round(m.native_ledger_burn_index, t3 + rest);
    lemma_add_assoc(enc_u128(m.withdrawal_amount), t4, rest);
    lemma_u128_round(m.withdrawal_amount, t4 + rest);
    lemma_add_assoc(enc_opt_u128(m.actual_received), t5, rest);
    lemma_opt_u128_round(m.actual_received, t5 + rest);
    lemma_add_assoc(enc_bytes(m.destination), t6, rest);
    lemma_bytes_round(m.destination, t6 + rest);
    lemma_add_assoc(enc_bytes(m.from), t7, rest);
    lemma_bytes_round(m.from, t7 + rest);
    lemma_add_assoc(enc_u64(m.chain_id), t8, rest);
    lemma_u64_round(m.chain_id, t8 + rest);
    lemma_add_assoc(enc_opt_bytes(m.from_subaccount), t9, rest);
    lemma_opt_bytes_round(m.from_subaccount, t9 + rest);
    lemma_add_assoc(enc_u64(m.time), t10, rest);
    lemma_u64_round(m.time, t10 + rest);
    lemma_add_assoc(enc_opt_u128(m.max_transaction_fee), t11, rest);
    lemma_opt_u128_round(m.max_transaction_fee, t11 + rest);
    lemma_add_assoc(enc_opt_u128(m.effective_gas_price), t12, rest);
    lemma_opt_u128_round(m.effective_gas_price, t12 + rest);
    lemma_add_assoc(enc_opt_u128(m.gas_used), t13, rest);
    lemma_opt_u128_round(m.gas_used, t13 + rest);
    lemma_add_assoc(enc_opt_u128(m.total_gas_spent), t14, rest);
    lemma_opt_u128_round(m.total_gas_spent, t14 + rest);
    lemma_add_assoc(enc_opt_u64(m.erc20_ledger_burn_index), t15, rest);
    lemma_opt_u64_round(m.erc20_ledger_burn_index, t15 + rest);
    lemma_add_assoc(enc_bytes(m.erc20_contract_address), t16, rest);
    lemma_bytes_round(m.erc20_contract_address, t16 + rest);
    lemma_add_assoc(enc_opt_bytes(m.icrc_ledger_id), t17, rest);
    lemma_opt_bytes_round(m.icrc_ledger_id, t17 + rest);
    lemma_add_assoc(enc_bool(m.verified), t18, rest);
    lemma_bool_round(m.verified, t18 + rest);
    lemma_add_assoc(enc_icp_status(m.status), e19, rest);
    lemma_icp_status_round(m.status, e19 + rest);
    lemma_oprator_round(m.oprator, rest);
}

// ---------------------------------------------------------------------------
// executable encoding
// ---------------------------------------------------------------------------

fn push_u64(out: &mut Vec<u8>, v: u64)
    ensures
        final(out)@ == old(out)@ + enc_u64(v),
{
    out.push(#[verifier::truncate] ((v >> 56) as u8));
    out.push(#[verifier::truncate] ((v >> 48) as u8));
    out.push(#[verifier::truncate] ((v >> 40) as u8));
    out.push(#[verifier::truncate] ((v >> 32) as u8));
    out.push(#[verifier::truncate] ((v >> 24) as u8));
    out.push(#[verifier::truncate] ((v >> 16) as u8));
    out.push(#[verifier::truncate] ((v >> 8) as u8));
    out.push(#[verifier::truncate] (v as u8));
    proof {
        assert(out@ =~= old(out)@ + enc_u64(v));
    }
}

fn push_u128(out: &mut Vec<u8>, v: u128)
    ensures
        final(out)@ == old(out)@ + enc_u128(v),
{
    push_u64(out, #[verifier::truncate] ((v >> 64) as u64));
    push_u64(out, #[verifier::truncate] (v as u64));
    proof {
        assert(out@ =~= old(out)@ + enc_u128(v));
    }
}

fn push_bool(out: &mut Vec<u8>, b: bool)
    ensures
        final(out)@ == old(out)@ + enc_bool(b),
{
    out.push(if b {
        1u8
    } else {
        0u8
    });
    proof {
        assert(out@ =~= old(out)@ + enc_bool(b));
    }
}

fn push_bytes(out: &mut Vec<u8>, b: &Vec<u8>)
    ensures
        final(out)@ == old(out)@ + enc_bytes(b@),
{
    let ghost pre = out@;
    push_u64(out, b.len() as u64);
    let mut i: usize = 0;
    while i < b.len()
        invariant
            i <= b@.len(),
            out@ == pre + enc_u64(b@.len() as u64) + b@.subrange(0, i as int),
        decreases b.len() - i,
    {
        out.push(b[i]);
        proof {
            assert(b@.subrange(0, i + 1 as int) =~= b@.subrange(0, i as int).push(b@[i as int]));
            assert(out@ =~= pre + enc_u64(b@.len() as u64) + b@.subrange(0, i + 1 as int));
        }
        i += 1;
    }
    proof {
        assert(b@.subrange(0, b@.len() as int) =~= b@);
        assert(out@ =~= pre + enc_bytes(b@));
    }
}

fn push_str(out: &mut Vec<u8>, s: &String)
    ensures
        final(out)@ == old(out)@ + enc_str(s@),
{
    let bv = s.as_str().as_bytes_vec();
    push_bytes(out, &bv);
}

fn push_opt_u64(out: &mut Vec<u8>, o: &Option<u64>)
    ensures
        final(out)@ == old(out)@ + enc_opt_u64(*o),
{
    let ghost pre = out@;
    match o {
        None => {
            out.push(0u8);
            proof {
                assert(out@ =~= pre + enc_opt_u64(*o));
            }
        },
        Some(v) => {
            out.push(1u8);
            push_u64(out, *v);
            proof {
                assert(out@ =~= pre + enc_opt_u64(*o));
            }
        },
    }
}

fn push_opt_u128(out: &mut Vec<u8>, o: &Option<u128>)
    ensures
        final(out)@ == old(out)@ + enc_opt_u128(*o),
{
    let ghost pre = out@;
    match o {
        None => {
            out.push(0u8);
            proof {
                assert(out@ =~= pre + enc_opt_u128(*o));
            }
        },
        Some(v) => {
            out.push(1u8);
            push_u128(out, *v);
            proof {
                assert(out@ =~= pre + enc_opt_u128(*o));
            }
        },
    }
}

fn push_opt_bytes(out: &mut Vec<u8>, o: &Option<Vec<u8>>)
    ensures
        final(out)@ == old(out)@ + enc_opt_bytes(o.deep_view()),
{
    let ghost pre = out@;
    match o {
        None => {
            out.push(0u8);
            proof {
                assert(out@ =~= pre + enc_opt_bytes(o.deep_view()));
            }
        },
        Some(b) => {
            out.push(1u8);
            push_bytes(out, b);
            proof {
                assert(out@ =~= pre + enc_opt_bytes(o.deep_view()));
            }
        },
    }
}

fn push_opt_str(out: &mut Vec<u8>, o: &Option<String>)
    ensures
        final(out)@ == old(out)@ + enc_opt_str(o.deep_view()),
{
    let ghost pre = out@;
    match o {
        None => {
            out.push(0u8);
            proof {
                assert(out@ =~= pre + enc_opt_str(o.deep_view()));
            }
        },
        Some(t) => {
            out.push(1u8);
            push_str(out, t);
            proof {
                assert(out@ =~= pre + enc_opt_str(o.deep_view()));
            }
        },
    }
}

fn push_oprator(out: &mut Vec<u8>, o: &Oprator)
    ensures
        final(out)@ == old(out)@ + enc_oprator(*o),
{
    out.push(match o {
        Oprator::DfinityCkEthMinter => 0u8,
        Oprator::AppicMinter => 1u8,
    });
    proof {
        assert(out@ =~= old(out)@ + enc_oprator(*o));
    }
}

fn push_evm_status(out: &mut Vec<u8>, st: &EvmToIcpStatus)
    ensures
        final(out)@ == old(out)@ + enc_evm_status(st@),
{
    let ghost pre = out@;
    match st {
        EvmToIcpStatus::PendingVerification => {
            out.push(0u8);
        },
        EvmToIcpStatus::Accepted => {
            out.push(1u8);
        },
        EvmToIcpStatus::Minted => {
            out.push(2u8);
        },
        EvmToIcpStatus::Invalid(reason) => {
            out.push(3u8);
            push_str(out, reason);
        },
        EvmToIcpStatus::Quarantined => {
            out.push(4u8);
        },
    }
    proof {
        assert(out@ =~= pre + enc_evm_status(st@));
    }
}

fn push_icp_status(out: &mut Vec<u8>, st: &IcpToEvmStatus)
    ensures
        final(out)@ == old(out)@ + enc_icp_status(*st),
{
    out.push(match st {
        IcpToEvmStatus::PendingVerification => 0u8,
        IcpToEvmStatus::Accepted => 1u8,
        IcpToEvmStatus::Created => 2u8,
        IcpToEvmStatus::SignedTransaction => 3u8,
        IcpToEvmStatus::FinalizedTransaction => 4u8,
        IcpToEvmStatus::ReplacedTransaction => 5u8,
        IcpToEvmStatus::Reimbursed => 6u8,
        IcpToEvmStatus::QuarantinedReimbursement => 7u8,
        IcpToEvmStatus::Successful => 8u8,
        IcpToEvmStatus::Failed => 9u8,
    });
    proof {
        assert(out@ =~= old(out)@ + enc_icp_status(*st));
    }
}

/// Encodes a minter key.
pub fn encode_minter_key(k: &MinterKey) -> (r: Vec<u8>)
    ensures
        r@ == enc_minter_key(k@),
{
    let mut out: Vec<u8> = Vec::new();
    push_u64(&mut out, k.0.0);
    push_oprator(&mut out, &k.1);
    proof {
        assert(out@ =~= enc_minter_key(k@));
    }
    out
}

/// Encodes a minter record.
pub fn encode_minter(m: &Minter) -> (r: Vec<u8>)
    ensures
        r@ == enc_minter(m@),
{
    let mut out: Vec<u8> = Vec::new();
    push_bytes(&mut out, &m.id.0);
    push_u64(&mut out, m.last_observed_event);
    push_u64(&mut out, m.last_scraped_event);
    push_oprator(&mut out, &m.oprator);
    push_u128(&mut out, m.evm_to_icp_fee);
    push_u128(&mut out, m.icp_to_evm_fee);
    push_u64(&mut out, m.chain_id.0);
    proof {
        assert(out@ =~= enc_minter(m@));
    }
    out
}

/// Encodes a forward-transfer identifier.
pub fn encode_evm_to_icp_identifier(k: &EvmToIcpTxIdentifier) -> (r: Vec<u8>)
    ensures
        r@ == enc_evm_id(k@),
{
    let mut out: Vec<u8> = Vec::new();
    push_str(&mut out, &k.0);
    push_u64(&mut out, k.1.0);
    proof {
        assert(out@ =~= enc_evm_id(k@));
    }
    out
}

/// Encodes a reverse-transfer identifier.
pub fn encode_icp_to_evm_identifier(k: &IcpToEvmIdentifier) -> (r: Vec<u8>)
    ensures
        r@ == enc_icp_id(k@),
{
    let mut out: Vec<u8> = Vec::new();
    push_u64(&mut out, k.0);
    push_u64(&mut out, k.1.0);
    proof {
        assert(out@ =~= enc_icp_id(k@));
    }
    out
}

/// Encodes a token identifier.
pub fn encode_erc20_identifier(k: &Erc20Identifier) -> (r: Vec<u8>)
    ensures
        r@ == enc_erc20_id(k@),
{
    let mut out: Vec<u8> = Vec::new();
    push_bytes(&mut out, &k.0.0);
    push_u64(&mut out, k.1.0);
    proof {
        assert(out@ =~= enc_erc20_id(k@));
    }
    out
}

/// Encodes an account identity.
pub fn encode_principal(p: &Principal) -> (r: Vec<u8>)
    ensures
        r@ == enc_bytes(p@),
{
    let mut out: Vec<u8> = Vec::new();
    push_bytes(&mut out, &p.0);
    proof {
        assert(out@ =~= enc_bytes(p@));
    }
    out
}

/// Encodes a forward transfer record.
pub fn encode_evm_to_icp_tx(tx: &EvmToIcpTx) -> (r: Vec<u8>)
    ensures
        r@ == enc_evm_tx(tx@),
{
    let mut out: Vec<u8> = Vec::new();
    push_bytes(&mut out, &tx.from_address.0);
    push_str(&mut out, &tx.transaction_hash);
    push_u128(&mut out, tx.value);
    push_opt_u128(&mut out, &tx.block_number);
    push_opt_u128(&mut out, &tx.actual_received);
    push_bytes(&mut out, &tx.principal.0);
    push_opt_bytes(&mut out, &tx.subaccount);
    push_u64(&mut out, tx.chain_id.0);
    push_opt_u128(&mut out, &tx.total_gas_spent);
    push_bytes(&mut out, &tx.erc20_contract_address.0);
    let icrc_bytes: Option<Vec<u8>> = match &tx.icrc_ledger_id {
        Some(p) => Some(crate::types::clone_bytes(&p.0)),
        None => None,
    };
    push_opt_bytes(&mut out, &icrc_bytes);
    push_evm_status(&mut out, &tx.status);
    push_bool(&mut out, tx.verified);
    push_u64(&mut out, tx.time);
    push_oprator(&mut out, &tx.oprator);
    proof {
        assert(icrc_bytes.deep_view() == tx@.icrc_ledger_id);
        let m = tx@;
        let e1 = enc_bytes(m.from_address);
        let e2 = enc_str(m.transaction_hash);
        let e3 = enc_u128(m.value);
        let e4 = enc_opt_u128(m.block_number);
        let e5 = enc_opt_u128(m.actual_received);
        let e6 = enc_bytes(m.principal);
        let e7 = enc_opt_bytes(m.subaccount);
        let e8 = enc_u64(m.chain_id);
        let e9 = enc_opt_u128(m.total_gas_spent);
        let e10 = enc_bytes(m.erc20_contract_address);
        let e11 = enc_opt_bytes(m.icrc_ledger_id);
        let e12 = enc_evm_status(m.status);
        let e13 = enc_bool(m.verified);
        let e14 = enc_u64(m.time);
        let e15 = enc_oprator(m.oprator);
        let t14 = e14 + e15;
        let t13 = e13 + t14;
        let t12 = e12 + t13;
        let t11 = e11 + t12;
        let t10 = e10 + t11;
        let t9 = e9 + t10;
        let t8 = e8 + t9;
        let t7 = e7 + t8;
        let t6 = e6 + t7;
        let t5 = e5 + t6;
        let t4 = e4 + t5;
        let t3 = e3 + t4;
        let t2 = e2 + t3;
        let p1 = Seq::<u8>::empty() + e1;
        let p2 = p1 + e2;
        let p3 = p2 + e3;
        let p4 = p3 + e4;
        let p5 = p4 + e5;
        let p6 = p5 + e6;
        let p7 = p6 + e7;
        let p8 = p7 + e8;
        let p9 = p8 + e9;
        let p10 = p9 + e10;
        let p11 = p10 + e11;
        let p12 = p11 + e12;
        let p13 = p12 + e13;
        let p14 = p13 + e14;
        let p15 = p14 + e15;
        assert(out@ == p15);
        assert(p1 =~= e1);
        lemma_add_assoc(p13, e14, e15);
        lemma_add_assoc(p12, e13, t14);
        lemma_add_assoc(p11, e12, t13);
        lemma_add_assoc(p10, e11, t12);
        lemma_add_assoc(p9, e10, t11);
        lemma_add_assoc(p8, e9, t10);
        lemma_add_assoc(p7, e8, t9);
        lemma_add_assoc(p6, e7, t8);
        lemma_add_assoc(p5, e6, t7);
        lemma_add_assoc(p4, e5, t6);
        lemma_add_assoc(p3, e4, t5);
        lemma_add_assoc(p2, e3, t4);
        lemma_add_assoc(p1, e2, t3);
        assert(p15 == e1 + t2);
        assert(out@ == enc_evm_tx(m));
    }
    out
}

/// Encodes a reverse transfer record.
pub fn encode_icp_to_evm_tx(tx: &IcpToEvmTx) -> (r: Vec<u8>)
    ensures
        r@ == enc_icp_tx(tx@),
{
    let mut out: Vec<u8> = Vec::new();
    push_opt_str(&mut out, &tx.transaction_hash);
    push_u64(&mut out, tx.native_ledger_burn_index);
    push_u128(&mut out, tx.withdrawal_amount);
    push_opt_u128(&mut out, &tx.actual_received);
    push_bytes(&mut out, &tx.destination.0);
    push_bytes(&mut out, &tx.from.0);
    push_u64(&mut out, tx.chain_id.0);
    push_opt_bytes(&mut out, &tx.from_subaccount);
    push_u64(&mut out, tx.time);
    push_opt_u128(&mut out, &tx.max_transaction_fee);
    push_opt_u128(&mut out, &tx.effective_gas_price);
    push_opt_u128(&mut out, &tx.gas_used);
    push_opt_u128(&mut out, &tx.total_gas_spent);
    push_opt_u64(&mut out, &tx.erc20_ledger_burn_index);
    push_bytes(&mut out, &tx.erc20_contract_address.0);
    let icrc_bytes: Option<Vec<u8>> = match &tx.icrc_ledger_id {
        Some(p) => Some(crate::types::clone_bytes(&p.0)),
        None => None,
    };
    push_opt_bytes(&mut out, &icrc_bytes);
    push_bool(&mut out, tx.verified);
    push_icp_status(&mut out, &tx.status);
    push_oprator(&mut out, &tx.oprator);
    proof {
        assert(icrc_bytes.deep_view() == tx@.icrc_ledger_id);
        let m = tx@;
        let e1 = enc_opt_str(m.transaction_hash);
        let e2 = enc_u64(m.native_ledger_burn_index);
        let e3 = enc_u128(m.withdrawal_amount);
        let e4 = enc_opt_u128(m.actual_received);
        let e5 = enc_bytes(m.destination);
        let e6 = enc_bytes(m.from);
        let e7 = enc_u64(m.chain_id);
        let e8 = enc_opt_bytes(m.from_subaccount);
        let e9 = enc_u64(m.time);
        let e10 = enc_opt_u128(m.max_transaction_fee);
        let e11 = enc_opt_u128(m.effective_gas_price);
        let e12 = enc_opt_u128(m.gas_used);
        let e13 = enc_opt_u128(m.total_gas_spent);
        let e14 = enc_opt_u64(m.erc20_ledger_burn_index);
        let e15 = enc_bytes(m.erc20_contract_address);
        let e16 = enc_opt_bytes(m.icrc_ledger_id);
        let e17 = enc_bool(m.verified);
        let e18 = enc_icp_status(m.status);
        let e19 = enc_oprator(m.oprator);
        let t18 = e18 + e19;
        let t17 = e17 + t18;
        let t16 = e16 + t17;
        let t15 = e15 + t16;
        let t14 = e14 + t15;
        let t13 = e13 + t14;
        let t12 = e12 + t13;
        let t11 = e11 + t12;
        let t10 = e10 + t11;
        let t9 = e9 + t10;
        let t8 = e8 + t9;
        let t7 = e7 + t8;
        let t6 = e6 + t7;
        let t5 = e5 + t6;
        let t4 = e4 + t5;
        let t3 = e3 + t4;
        let t2 = e2 + t3;
        let p1 = Seq::<u8>::empty() + e1;
        let p2 = p1 + e2;
        let p3 = p2 + e3;
        let p4 = p3 + e4;
        let p5 = p4 + e5;
        let p6 = p5 + e6;
        let p7 = p6 + e7;
        let p8 = p7 + e8;
        let p9 = p8 + e9;
        let p10 = p9 + e10;
        let p11 = p10 + e11;
        let p12 = p11 + e12;
        let p13 = p12 + e13;
        let p14 = p13 + e14;
        let p15 = p14 + e15;
        let p16 = p15 + e16;
        let p17 = p16 + e17;
        let p18 = p17 + e18;
        let p19 = p18 + e19;
        assert(out@ == p19);
        assert(p1 =~= e1);
        lemma_add_assoc(p17, e18, e19);
        lemma_add_assoc(p16, e17, t18);
        lemma_add_assoc(p15, e16, t17);
        lemma_add_assoc(p14, e15, t16);
        lemma_add_assoc(p13, e14, t15);
        lemma_add_assoc(p12, e13, t14);
        lemma_add_assoc(p11, e12, t13);
        lemma_add_assoc(p10, e11, t12);
        lemma_add_assoc(p9, e10, t11);
        lemma_add_assoc(p8, e9, t10);
        lemma_add_assoc(p7, e8, t9);
        lemma_add_assoc(p6, e7, t8);
        lemma_add_assoc(p5, e6, t7);
        lemma_add_assoc(p4, e5, t6);
        lemma_add_assoc(p3, e4, t5);
        lemma_add_assoc(p2, e3, t4);
        lemma_add_assoc(p1, e2, t3);
        assert(p19 == e1 + t2);
        assert(out@ == enc_icp_tx(m));
    }
    out
}

// ---------------------------------------------------------------------------
// executable decoding
// ---------------------------------------------------------------------------

/// Relies on `String::from_utf8`: it succeeds exactly on valid UTF-8 and
/// returns the string made of those bytes.
#[verifier::external_body]
fn string_from_utf8(bytes: Vec<u8>) -> (r: Option<String>)
    ensures
        (r is Some) == valid_utf8(bytes@),
        r matches Some(t) ==> t@ == decode_utf8(bytes@),
{
    match String::from_utf8(bytes) {
        Ok(t) => Some(t),
        Err(_) => None,
    }
}

fn read_u64(bytes: &Vec<u8>, pos: &mut usize) -> (r: Option<u64>)
    requires
        *old(pos) <= bytes@.len(),
    ensures
        *old(pos) <= *final(pos) <= bytes@.len(),
        r matches Some(v) ==> dec_u64(bytes@.skip(*old(pos) as int)) == Some(
            (v, bytes@.skip(*final(pos) as int)),
        ),
        r is None ==> dec_u64(bytes@.skip(*old(pos) as int)) is None,
{
    let p = *pos;
    if bytes.len() - p >= 8 {
        let v = ((bytes[p] as u64) << 56) | ((bytes[p + 1] as u64) << 48) | ((bytes[p
            + 2] as u64) << 40) | ((bytes[p + 3] as u64) << 32) | ((bytes[p + 4] as u64) << 24) | ((
        bytes[p + 5] as u64) << 16) | ((bytes[p + 6] as u64) << 8) | (bytes[p + 7] as u64);
        *pos = p + 8;
        proof {
            let s = bytes@.skip(p as int);
            assert(s.len() == bytes@.len() - p);
            assert(s[0] == bytes@[p as int] && s[1] == bytes@[p + 1] && s[2] == bytes@[p + 2]
                && s[3] == bytes@[p + 3] && s[4] == bytes@[p + 4] && s[5] == bytes@[p + 5] && s[6]
                == bytes@[p + 6] && s[7] == bytes@[p + 7]);
            assert(s.skip(8) =~= bytes@.skip(p + 8 as int));
        }
        Some(v)
    } else {
        proof {
            assert(bytes@.skip(p as int).len() < 8);
        }
        None
    }
}

fn read_u128(bytes: &Vec<u8>, pos: &mut usize) -> (r: Option<u128>)
    requires
        *old(pos) <= bytes@.len(),
    ensures
        *old(pos) <= *final(pos) <= bytes@.len(),
        r matches Some(v) ==> dec_u128(bytes@.skip(*old(pos) as int)) == Some(
            (v, bytes@.skip(*final(pos) as int)),
        ),
        r is None ==> dec_u128(bytes@.skip(*old(pos) as int)) is None,
{
    let hi = match read_u64(bytes, pos) {
        Some(v) => v,
        None => {
            return None;
        },
    };
    let lo = match read_u64(bytes, pos) {
        Some(v) => v,
        None => {
            return None;
        },
    };
    Some(((hi as u128) << 64) | (lo as u128))
}

fn read_byte(bytes: &Vec<u8>, pos: &mut usize) -> (r: Option<u8>)
    requires
        *old(pos) <= bytes@.len(),
    ensures
        *old(pos) <= *final(pos) <= bytes@.len(),
        r matches Some(b) ==> {
            &&& *old(pos) < bytes@.len()
            &&& b == bytes@.skip(*old(pos) as int)[0]
            &&& *final(pos) == *old(pos) + 1
            &&& bytes@.skip(*final(pos) as int) == bytes@.skip(*old(pos) as int).skip(1)
        },
        r is None ==> bytes@.skip(*old(pos) as int).len() == 0 && *final(pos) == *old(pos),
{
    let p = *pos;
    if p < bytes.len() {
        let b = bytes[p];
        *pos = p + 1;
        proof {
            assert(bytes@.skip(p as int)[0] == bytes@[p as int]);
            assert(bytes@.skip(p + 1 as int) =~= bytes@.skip(p as int).skip(1));
        }
        Some(b)
    } else {
        None
    }
}

fn read_bool(bytes: &Vec<u8>, pos: &mut usize) -> (r: Option<bool>)
    requires
        *old(pos) <= bytes@.len(),
    ensures
        *old(pos) <= *final(pos) <= bytes@.len(),
        r matches Some(v) ==> dec_bool(bytes@.skip(*old(pos) as int)) == Some(
            (v, bytes@.skip(*final(pos) as int)),
        ),
        r is None ==> dec_bool(bytes@.skip(*old(pos) as int)) is None,
{
    let b = match read_byte(bytes, pos) {
        Some(b) => b,
        None => {
            return None;
        },
    };
    if b == 0 {
        Some(false)
    } else if b == 1 {
        Some(true)
    } else {
        None
    }
}

fn read_bytes(bytes: &Vec<u8>, pos: &mut usize) -> (r: Option<Vec<u8>>)
    requires
        *old(pos) <= bytes@.len(),
    ensures
        *old(pos) <= *final(pos) <= bytes@.len(),
        r matches Some(b) ==> dec_bytes(bytes@.skip(*old(pos) as int)) == Some(
            (b@, bytes@.skip(*final(pos) as int)),
        ),
        r is None ==> dec_bytes(bytes@.skip(*old(pos) as int)) is None,
{
    let ghost p0 = *pos;
    let len64 = match read_u64(bytes, pos) {
        Some(v) => v,
        None => {
            return None;
        },
    };
    let p = *pos;
    let remaining = bytes.len() - p;
    if len64 <= remaining as u64 {
        let len = len64 as usize;
        let end = p + len;
        let mut out: Vec<u8> = Vec::new();
        let mut j: usize = p;
        while j < end
            invariant
                p <= j <= end,
                end == p + len,
                end <= bytes@.len(),
                out@ == bytes@.subrange(p as int, j as int),
            decreases end - j,
        {
            out.push(bytes[j]);
            proof {
                assert(bytes@.subrange(p as int, j + 1 as int) =~= bytes@.subrange(
                    p as int,
                    j as int,
                ).push(bytes@[j as int]));
            }
            j += 1;
        }
        *pos = end;
        proof {
            let s1 = bytes@.skip(p as int);
            assert(out@ =~= s1.take(len64 as int));
            assert(s1.skip(len64 as int) =~= bytes@.skip(p + len as int));
        }
        Some(out)
    } else {
        proof {
            assert(bytes@.skip(p as int).len() < len64);
        }
        None
    }
}

fn read_string(bytes: &Vec<u8>, pos: &mut usize) -> (r: Option<String>)
    requires
        *old(pos) <= bytes@.len(),
    ensures
        *old(pos) <= *final(pos) <= bytes@.len(),
        r matches Some(t) ==> dec_str(bytes@.skip(*old(pos) as int)) == Some(
            (t@, bytes@.skip(*final(pos) as int)),
        ),
        r is None ==> dec_str(bytes@.skip(*old(pos) as int)) is None,
{
    let b = match read_bytes(bytes, pos) {
        Some(b) => b,
        None => {
            return None;
        },
    };
    match string_from_utf8(b) {
        Some(t) => Some(t),
        None => None,
    }
}

fn read_opt_u64(bytes: &Vec<u8>, pos: &mut usize) -> (r: Option<Option<u64>>)
    requires
        *old(pos) <= bytes@.len(),
    ensures
        *old(pos) <= *final(pos) <= bytes@.len(),
        r matches Some(o) ==> dec_opt_u64(bytes@.skip(*old(pos) as int)) == Some(
            (o, bytes@.skip(*final(pos) as int)),
        ),
        r is None ==> dec_opt_u64(bytes@.skip(*old(pos) as int)) is None,
{
    let tag = match read_byte(bytes, pos) {
        Some(b) => b,
        None => {
            return None;
        },
    };
    if tag == 0 {
        Some(None)
    } else if tag == 1 {
        match read_u64(bytes, pos) {
            Some(v) => Some(Some(v)),
            None => None,
        }
    } else {
        None
    }
}

fn read_opt_u128(bytes: &Vec<u8>, pos: &mut usize) -> (r: Option<Option<u128>>)
    requires
        *old(pos) <= bytes@.len(),
    ensures
        *old(pos) <= *final(pos) <= bytes@.len(),
        r matches Some(o) ==> dec_opt_u128(bytes@.skip(*old(pos) as int)) == Some(
            (o, bytes@.skip(*final(pos) as int)),
        ),
        r is None ==> dec_opt_u128(bytes@.skip(*old(pos) as int)) is None,
{
    let tag = match read_byte(bytes, pos) {
        Some(b) => b,
        None => {
            return None;
        },
    };
    if tag == 0 {
        Some(None)
    } else if tag == 1 {
        match read_u128(bytes, pos) {
            Some(v) => Some(Some(v)),
            None => None,
        }
    } else {
        None
    }
}

fn read_opt_bytes(bytes: &Vec<u8>, pos: &mut usize) -> (r: Option<Option<Vec<u8>>>)
    requires
        *old(pos) <= bytes@.len(),
    ensures
        *old(pos) <= *final(pos) <= bytes@.len(),
        r matches Some(o) ==> dec_opt_bytes(bytes@.skip(*old(pos) as int)) == Some(
            (o.deep_view(), bytes@.skip(*final(pos) as int)),
        ),
        r is None ==> dec_opt_bytes(bytes@.skip(*old(pos) as int)) is None,
{
    let tag = match read_byte(bytes, pos) {
        Some(b) => b,
        None => {
            return None;
        },
    };
    if tag == 0 {
        Some(None)
    } else if tag == 1 {
        match read_bytes(bytes, pos) {
            Some(b) => Some(Some(b)),
            None => None,
        }
    } else {
        None
    }
}

fn read_opt_string(bytes: &Vec<u8>, pos: &mut usize) -> (r: Option<Option<String>>)
    requires
        *old(pos) <= bytes@.len(),
    ensures
        *old(pos) <= *final(pos) <= bytes@.len(),
        r matches Some(o) ==> dec_opt_str(bytes@.skip(*old(pos) as int)) == Some(
            (o.deep_view(), bytes@.skip(*final(pos) as int)),
        ),
        r is None ==> dec_opt_str(bytes@.skip(*old(pos) as int)) is None,
{
    let tag = match read_byte(bytes, pos) {
        Some(b) => b,
        None => {
            return None;
        },
    };
    if tag == 0 {
        Some(None)
    } else if tag == 1 {
        match read_string(bytes, pos) {
            Some(t) => Some(Some(t)),
            None => None,
        }
    } else {
        None
    }
}

fn read_oprator(bytes: &Vec<u8>, pos: &mut usize) -> (r: Option<Oprator>)
    requires
        *old(pos) <= bytes@.len(),
    ensures
        *old(pos) <= *final(pos) <= bytes@.len(),
        r matches Some(o) ==> dec_oprator(bytes@.skip(*old(pos) as int)) == Some(
            (o, bytes@.skip(*final(pos) as int)),
        ),
        r is None ==> dec_oprator(bytes@.skip(*old(pos) as int)) is None,
{
    let tag = match read_byte(bytes, pos) {
        Some(b) => b,
        None => {
            return None;
        },
    };
    if tag == 0 {
        Some(Oprator::DfinityCkEthMinter)
    } else if tag == 1 {
        Some(Oprator::AppicMinter)
    } else {
        None
    }
}

fn read_evm_status(bytes: &Vec<u8>, pos: &mut usize) -> (r: Option<EvmToIcpStatus>)
    requires
        *old(pos) <= bytes@.len(),
    ensures
        *old(pos) <= *final(pos) <= bytes@.len(),
        r matches Some(st) ==> dec_evm_status(bytes@.skip(*old(pos) as int)) == Some(
            (st@, bytes@.skip(*final(pos) as int)),
        ),
        r is None ==> dec_evm_status(bytes@.skip(*old(pos) as int)) is None,
{
    let tag = match read_byte(bytes, pos) {
        Some(b) => b,
        None => {
            return None;
        },
    };
    if tag == 0 {
        Some(EvmToIcpStatus::PendingVerification)
    } else if tag == 1 {
        Some(EvmToIcpStatus::Accepted)
    } else if tag == 2 {
        Some(EvmToIcpStatus::Minted)
    } else if tag == 3 {
        match read_string(bytes, pos) {
            Some(reason) => Some(EvmToIcpStatus::Invalid(reason)),
            None => None,
        }
    } else if tag == 4 {
        Some(EvmToIcpStatus::Quarantined)
    } else {
        None
    }
}

fn read_icp_status(bytes: &Vec<u8>, pos: &mut usize) -> (r: Option<IcpToEvmStatus>)
    requires
        *old(pos) <= bytes@.len(),
    ensures
        *old(pos) <= *final(pos) <= bytes@.len(),
        r matches Some(st) ==> dec_icp_status(bytes@.skip(*old(pos) as int)) == Some(
            (st, bytes@.skip(*final(pos) as int)),
        ),
        r is None ==> dec_icp_status(bytes@.skip(*old(pos) as int)) is None,
{
    let tag = match read_byte(bytes, pos) {
        Some(b) => b,
        None => {
            return None;
        },
    };
    if tag == 0 {
        Some(IcpToEvmStatus::PendingVerification)
    } else if tag == 1 {
        Some(IcpToEvmStatus::Accepted)
    } else if tag == 2 {
        Some(IcpToEvmStatus::Created)
    } else if tag == 3 {
        Some(IcpToEvmStatus::SignedTransaction)
    } else if tag == 4 {
        Some(IcpToEvmStatus::FinalizedTransaction)
    } else if tag == 5 {
        Some(IcpToEvmStatus::ReplacedTransaction)
    } else if tag == 6 {
        Some(IcpToEvmStatus::Reimbursed)
    } else if tag == 7 {
        Some(IcpToEvmStatus::QuarantinedReimbursement)
    } else if tag == 8 {
        Some(IcpToEvmStatus::Successful)
    } else if tag == 9 {
        Some(IcpToEvmStatus::Failed)
    } else {
        None
    }
}

/// Decodes a minter key; the bytes must be one whole encoding.
pub fn decode_minter_key(bytes: &Vec<u8>) -> (r: Option<MinterKey>)
    ensures
        r matches Some(k) ==> dec_minter_key(bytes@) matches Some(p) && p.0 == k@ && p.1.len()
            == 0,
        r is None ==> dec_minter_key(bytes@) is None || (dec_minter_key(bytes@) matches Some(p)
            && p.1.len() != 0),
{
    proof {
        assert(bytes@.skip(0) =~= bytes@);
    }
    let mut pos: usize = 0;
    let chain = match read_u64(bytes, &mut pos) {
        Some(v) => v,
        None => {
            return None;
        },
    };
    let oprator = match read_oprator(bytes, &mut pos) {
        Some(o) => o,
        None => {
            return None;
        },
    };
    if pos != bytes.len() {
        return None;
    }
    Some(MinterKey(ChainId(chain), oprator))
}

/// Decodes a minter record; the bytes must be one whole encoding.
#[verifier::rlimit(100)]
pub fn decode_minter(bytes: &Vec<u8>) -> (r: Option<Minter>)
    ensures
        r matches Some(m) ==> dec_minter(bytes@) matches Some(p) && p.0 == m@ && p.1.len() == 0,
        r is None ==> dec_minter(bytes@) is None || (dec_minter(bytes@) matches Some(p)
            && p.1.len() != 0),
{
    proof {
        assert(bytes@.skip(0) =~= bytes@);
    }
    let mut pos: usize = 0;
    let id = match read_bytes(bytes, &mut pos) {
        Some(b) => b,
        None => {
            return None;
        },
    };
    let last_observed_event = match read_u64(bytes, &mut pos) {
        Some(v) => v,
        None => {
            return None;
        },
    };
    let last_scraped_event = match read_u64(bytes, &mut pos) {
        Some(v) => v,
        None => {
            return None;
        },
    };
    let oprator = match read_oprator(bytes, &mut pos) {
        Some(o) => o,
        None => {
            return None;
        },
    };
    let evm_to_icp_fee = match read_u128(bytes, &mut pos) {
        Some(v) => v,
        None => {
            return None;
        },
    };
    let icp_to_evm_fee = match read_u128(bytes, &mut pos) {
        Some(v) => v,
        None => {
            return None;
        },
    };
    let chain_id = match read_u64(bytes, &mut pos) {
        Some(v) => v,
        None => {
            return None;
        },
    };
    if pos != bytes.len() {
        return None;
    }
    Some(
        Minter {
            id: Principal(id),
            last_observed_event,
            last_scraped_event,
            oprator,
            evm_to_icp_fee,
            icp_to_evm_fee,
            chain_id: ChainId(chain_id),
        },
    )
}

/// Decodes a forward-transfer identifier; the bytes must be one whole encoding.
pub fn decode_evm_to_icp_identifier(bytes: &Vec<u8>) -> (r: Option<EvmToIcpTxIdentifier>)
    ensures
        r matches Some(k) ==> dec_evm_id(bytes@) matches Some(p) && p.0 == k@ && p.1.len() == 0,
        r is None ==> dec_evm_id(bytes@) is None || (dec_evm_id(bytes@) matches Some(p)
            && p.1.len() != 0),
{
    proof {
        assert(bytes@.skip(0) =~= bytes@);
    }
    let mut pos: usize = 0;
    let hash = match read_string(bytes, &mut pos) {
        Some(t) => t,
        None => {
            return None;
        },
    };
    let chain = match read_u64(bytes, &mut pos) {
        Some(v) => v,
        None => {
            return None;
        },
    };
    if pos != bytes.len() {
        return None;
    }
    Some(EvmToIcpTxIdentifier(hash, ChainId(chain)))
}

/// Decodes a reverse-transfer identifier; the bytes must be one whole encoding.
pub fn decode_icp_to_evm_identifier(bytes: &Vec<u8>) -> (r: Option<IcpToEvmIdentifier>)
    ensures
        r matches Some(k) ==> dec_icp_id(bytes@) matches Some(p) && p.0 == k@ && p.1.len() == 0,
        r is None ==> dec_icp_id(bytes@) is None || (dec_icp_id(bytes@) matches Some(p)
            && p.1.len() != 0),
{
    proof {
        assert(bytes@.skip(0) =~= bytes@);
    }
    let mut pos: usize = 0;
    let burn = match read_u64(bytes, &mut pos) {
        Some(v) => v,
        None => {
            return None;
        },
    };
    let chain = match read_u64(bytes, &mut pos) {
        Some(v) => v,
        None => {
            return None;
        },
    };
    if pos != bytes.len() {
        return None;
    }
    Some(IcpToEvmIdentifier(burn, ChainId(chain)))
}

/// Decodes a token identifier; the bytes must be one whole encoding.
pub fn decode_erc20_identifier(bytes: &Vec<u8>) -> (r: Option<Erc20Identifier>)
    ensures
        r matches Some(k) ==> dec_erc20_id(bytes@) matches Some(p) && p.0 == k@ && p.1.len() == 0,
        r is None ==> dec_erc20_id(bytes@) is None || (dec_erc20_id(bytes@) matches Some(p)
            && p.1.len() != 0),
{
    proof {
        assert(bytes@.skip(0) =~= bytes@);
    }
    let mut pos: usize = 0;
    let addr = match read_bytes(bytes, &mut pos) {
        Some(b) => b,
        None => {
            return None;
        },
    };
    let chain = match read_u64(bytes, &mut pos) {
        Some(v) => v,
        None => {
            return None;
        },
    };
    if pos != bytes.len() {
        return None;
    }
    Some(Erc20Identifier(Address(addr), ChainId(chain)))
}

/// Decodes an account identity; the bytes must be one whole encoding.
pub fn decode_principal(bytes: &Vec<u8>) -> (r: Option<Principal>)
    ensures
        r matches Some(pr) ==> dec_bytes(bytes@) matches Some(p) && p.0 == pr@ && p.1.len() == 0,
        r is None ==> dec_bytes(bytes@) is None || (dec_bytes(bytes@) matches Some(p) && p.1.len()
            != 0),
{
    proof {
        assert(bytes@.skip(0) =~= bytes@);
    }
    let mut pos: usize = 0;
    let b = match read_bytes(bytes, &mut pos) {
        Some(b) => b,
        None => {
            return None;
        },
    };
    if pos != bytes.len() {
        return None;
    }
    Some(Principal(b))
}

/// The leading fields of a forward record, as read from bytes.
pub struct EvmTxHeadExec {
    pub from_address: Vec<u8>,
    pub transaction_hash: String,
    pub value: u128,
    pub block_number: Option<u128>,
    pub actual_received: Option<u128>,
    pub principal: Vec<u8>,
    pub subaccount: Option<Vec<u8>>,
    pub chain_id: u64,
}

impl View for EvmTxHeadExec {
    type V = EvmTxHead;

    open spec fn view(&self) -> EvmTxHead {
        EvmTxHead {
            from_address: self.from_address@,
            transaction_hash: self.transaction_hash@,
            value: self.value,
            block_number: self.block_number,
            actual_received: self.actual_received,
            principal: self.principal@,
            subaccount: self.subaccount.deep_view(),
            chain_id: self.chain_id,
        }
    }
}

#[verifier::rlimit(100)]
fn read_evm_head(bytes: &Vec<u8>, pos: &mut usize) -> (r: Option<EvmTxHeadExec>)
    requires
        *old(pos) <= bytes@.len(),
    ensures
        *old(pos) <= *final(pos) <= bytes@.len(),
        r matches Some(h) ==> dec_evm_head(bytes@.skip(*old(pos) as int)) == Some(
            (h@, bytes@.skip(*final(pos) as int)),
        ),
        r is None ==> dec_evm_head(bytes@.skip(*old(pos) as int)) is None,
{
    let from_address = match read_bytes(bytes, pos) {
        Some(b) => b,
        None => {
            return None;
        },
    };
    let transaction_hash = match read_string(bytes, pos) {
        Some(t) => t,
        None => {
            return None;
        },
    };
    let value = match read_u128(bytes, pos) {
        Some(v) => v,
        None => {
            return None;
        },
    };
    let block_number = match read_opt_u128(bytes, pos) {
        Some(o) => o,
        None => {
            return None;
        },
    };
    let actual_received = match read_opt_u128(bytes, pos) {
        Some(o) => o,
        None => {
            return None;
        },
    };
    let principal = match read_bytes(bytes, pos) {
        Some(b) => b,
        None => {
            return None;
        },
    };
    let subaccount = match read_opt_bytes(bytes, pos) {
        Some(o) => o,
        None => {
            return None;
        },
    };
    let chain_id = match read_u64(bytes, pos) {
        Some(v) => v,
        None => {
            return None;
        },
    };
    Some(
        EvmTxHeadExec {
            from_address,
            transaction_hash,
            value,
            block_number,
            actual_received,
            principal,
            subaccount,
            chain_id,
        },
    )
}

/// Decodes a forward transfer record; the bytes must be one whole encoding.
#[verifier::rlimit(100)]
pub fn decode_evm_to_icp_tx(bytes: &Vec<u8>) -> (r: Option<EvmToIcpTx>)
    ensures
        r matches Some(tx) ==> dec_evm_tx(bytes@) matches Some(p) && p.0 == tx@ && p.1.len() == 0,
        r is None ==> dec_evm_tx(bytes@) is None || (dec_evm_tx(bytes@) matches Some(p)
            && p.1.len() != 0),
{
    proof {
        assert(bytes@.skip(0) =~= bytes@);
    }
    let mut pos: usize = 0;
    let head = match read_evm_head(bytes, &mut pos) {
        Some(h) => h,
        None => {
            return None;
        },
    };
    let total_gas_spent = match read_opt_u128(bytes, &mut pos) {
        Some(o) => o,
        None => {
            return None;
        },
    };
    let erc20_contract_address = match read_bytes(bytes, &mut pos) {
        Some(b) => b,
        None => {
            return None;
        },
    };
    let icrc_bytes = match read_opt_bytes(bytes, &mut pos) {
        Some(o) => o,
        None => {
            return None;
        },
    };
    let status = match read_evm_status(bytes, &mut pos) {
        Some(st) => st,
        None => {
            return None;
        },
    };
    let verified = match read_bool(bytes, &mut pos) {
        Some(v) => v,
        None => {
            return None;
        },
    };
    let time = match read_u64(bytes, &mut pos) {
        Some(v) => v,
        None => {
            return None;
        },
    };
    let oprator = match read_oprator(bytes, &mut pos) {
        Some(o) => o,
        None => {
            return None;
        },
    };
    let ghost hm = head@;
    let ghost ibv = icrc_bytes.deep_view();
    let icrc_ledger_id = match icrc_bytes {
        Some(b) => Some(Principal(b)),
        None => None,
    };
    proof {
        let mm = EvmToIcpTxModel {
            from_address: hm.from_address,
            transaction_hash: hm.transaction_hash,
            value: hm.value,
            block_number: hm.block_number,
            actual_received: hm.actual_received,
            principal: hm.principal,
            subaccount: hm.subaccount,
            chain_id: hm.chain_id,
            total_gas_spent: total_gas_spent,
            erc20_contract_address: erc20_contract_address@,
            icrc_ledger_id: ibv,
            status: status@,
            verified: verified,
            time: time,
            oprator: oprator,
        };
        assert(icrc_ledger_id.deep_view() == ibv);
        assert(dec_evm_tx(bytes@) == Some((mm, bytes@.skip(pos as int))));
    }
    if pos != bytes.len() {
        return None;
    }
    Some(
        EvmToIcpTx {
            from_address: Address(head.from_address),
            transaction_hash: head.transaction_hash,
            value: head.value,
            block_number: head.block_number,
            actual_received: head.actual_received,
            principal: Principal(head.principal),
            subaccount: head.subaccount,
            chain_id: ChainId(head.chain_id),
            total_gas_spent,
            erc20_contract_address: Address(erc20_contract_address),
            icrc_ledger_id,
            status,
            verified,
            time,
            oprator,
        },
    )
}

/// The leading fields of a reverse record, as read from bytes.
pub struct IcpTxHeadExec {
    pub transaction_hash: Option<String>,
    pub native_ledger_burn_index: u64,
    pub withdrawal_amount: u128,
    pub actual_received: Option<u128>,
    pub destination: Vec<u8>,
    pub from: Vec<u8>,
    pub chain_id: u64,
    pub from_subaccount: Option<Vec<u8>>,
    pub time: u64,
    pub max_transaction_fee: Option<u128>,
}

impl View for IcpTxHeadExec {
    type V = IcpTxHead;

    open spec fn view(&self) -> IcpTxHead {
        IcpTxHead {
            transaction_hash: self.transaction_hash.deep_view(),
            native_ledger_burn_index: self.native_ledger_burn_index,
            withdrawal_amount: self.withdrawal_amount,
            actual_received: self.actual_received,
            destination: self.destination@,
            from: self.from@,
            chain_id: self.chain_id,
            from_subaccount: self.from_subaccount.deep_view(),
            time: self.time,
            max_transaction_fee: self.max_transaction_fee,
        }
    }
}

#[verifier::rlimit(100)]
fn read_icp_head(bytes: &Vec<u8>, pos: &mut usize) -> (r: Option<IcpTxHeadExec>)
    requires
        *old(pos) <= bytes@.len(),
    ensures
        *old(pos) <= *final(pos) <= bytes@.len(),
        r matches Some(h) ==> dec_icp_head(bytes@.skip(*old(pos) as int)) == Some(
            (h@, bytes@.skip(*final(pos) as int)),
        ),
        r is None ==> dec_icp_head(bytes@.skip(*old(pos) as int)) is None,
{
    let transaction_hash = match read_opt_string(bytes, pos) {
        Some(o) => o,
        None => {
            return None;
        },
    };
    let native_ledger_burn_index = match read_u64(bytes, pos) {
        Some(v) => v,
        None => {
            return None;
        },
    };
    let withdrawal_amount = match read_u128(bytes, pos) {
        Some(v) => v,
        None => {
            return None;
        },
    };
    let actual_received = match read_opt_u128(bytes, pos) {
        Some(o) => o,
        None => {
            return None;
        },
    };
    let destination = match read_bytes(bytes, pos) {
        Some(b) => b,
        None => {
            return None;
        },
    };
    let from = match read_bytes(bytes, pos) {
        Some(b) => b,
        None => {
            return None;
        },
    };
    let chain_id = match read_u64(bytes, pos) {
        Some(v) => v,
        None => {
            return None;
        },
    };
    let from_subaccount = match read_opt_bytes(bytes, pos) {
        Some(o) => o,
        None => {
            return None;
        },
    };
    let time = match read_u64(bytes, pos) {
        Some(v) => v,
        None => {
            return None;
        },
    };
    let max_transaction_fee = match read_opt_u128(bytes, pos) {
        Some(o) => o,
        None => {
            return None;
        },
    };
    Some(
        IcpTxHeadExec {
            transaction_hash,
            native_ledger_burn_index,
            withdrawal_amount,
            actual_received,
            destination,
            from,
            chain_id,
            from_subaccount,
            time,
            max_transaction_fee,
        },
    )
}

/// Decodes a reverse transfer record; the bytes must be one whole encoding.
#[verifier::rlimit(100)]
pub fn decode_icp_to_evm_tx(bytes: &Vec<u8>) -> (r: Option<IcpToEvmTx>)
    ensures
        r matches Some(tx) ==> dec_icp_tx(bytes@) matches Some(p) && p.0 == tx@ && p.1.len() == 0,
        r is None ==> dec_icp_tx(bytes@) is None || (dec_icp_tx(bytes@) matches Some(p)
            && p.1.len() != 0),
{
    proof {
        assert(bytes@.skip(0) =~= bytes@);
    }
    let mut pos: usize = 0;
    let head = match read_icp_head(bytes, &mut pos) {
        Some(h) => h,
        None => {
            return None;
        },
    };
    let effective_gas_price = match read_opt_u128(bytes, &mut pos) {
        Some(o) => o,
        None => {
            return None;
        },
    };
    let gas_used = match read_opt_u128(bytes, &mut pos) {
        Some(o) => o,
        None => {
            return None;
        },
    };
    let total_gas_spent = match read_opt_u128(bytes, &mut pos) {
        Some(o) => o,
        None => {
            return None;
        },
    };
    let erc20_ledger_burn_index = match read_opt_u64(bytes, &mut pos) {
        Some(o) => o,
        None => {
            return None;
        },
    };
    let erc20_contract_address = match read_bytes(bytes, &mut pos) {
        Some(b) => b,
        None => {
            return None;
        },
    };
    let icrc_bytes = match read_opt_bytes(bytes, &mut pos) {
        Some(o) => o,
        None => {
            return None;
        },
    };
    let verified = match read_bool(bytes, &mut pos) {
        Some(v) => v,
        None => {
            return None;
        },
    };
    let status = match read_icp_status(bytes, &mut pos) {
        Some(st) => st,
        None => {
            return None;
        },
    };
    let oprator = match read_oprator(bytes, &mut pos) {
        Some(o) => o,
        None => {
            return None;
        },
    };
    let ghost hm = head@;
    let ghost ibv = icrc_bytes.deep_view();
    let icrc_ledger_id = match icrc_bytes {
        Some(b) => Some(Principal(b)),
        None => None,
    };
    proof {
        let mm = IcpToEvmTxModel {
            transaction_hash: hm.transaction_hash,
            native_ledger_burn_index: hm.native_ledger_burn_index,
            withdrawal_amount: hm.withdrawal_amount,
            actual_received: hm.actual_received,
            destination: hm.destination,
            from: hm.from,
            chain_id: hm.chain_id,
            from_subaccount: hm.from_subaccount,
            time: hm.time,
            max_transaction_fee: hm.max_transaction_fee,
            effective_gas_price: effective_gas_price,
            gas_used: gas_used,
            total_gas_spent: total_gas_spent,
            erc20_ledger_burn_index: erc20_ledger_burn_index,
            erc20_contract_address: erc20_contract_address@,
            icrc_ledger_id: ibv,
            verified: verified,
            status: status,
            oprator: oprator,
        };
        assert(icrc_ledger_id.deep_view() == ibv);
        assert(dec_icp_tx(bytes@) == Some((mm, bytes@.skip(pos as int))));
    }
    if pos != bytes.len() {
        return None;
    }
    Some(
        IcpToEvmTx {
            transaction_hash: head.transaction_hash,
            native_ledger_burn_index: head.native_ledger_burn_index,
            withdrawal_amount: head.withdrawal_amount,
            actual_received: head.actual_received,
            destination: Address(head.destination),
            from: Principal(head.from),
            chain_id: ChainId(head.chain_id),
            from_subaccount: head.from_subaccount,
            time: head.time,
            max_transaction_fee: head.max_transaction_fee,
            effective_gas_price,
            gas_used,
            total_gas_spent,
            erc20_ledger_burn_index,
            erc20_contract_address: Address(erc20_contract_address),
            icrc_ledger_id,
            verified,
            status,
            oprator,
        },
    )
}

} // verus!
