//! Ordered key-value store.
//!
//! Each persistent table is an `OrderedMap<K, V>`: an association vector kept
//! strictly sorted by key, viewed abstractly as a `Map` from key models to
//! value models. Keys implement [`StoreKey`], which fixes a strict total
//! order on key models; iteration therefore visits entries in ascending key
//! order, independent of insertion order.

use vstd::prelude::*;
use crate::types::{Erc20Identifier, EvmToIcpTxIdentifier, IcpToEvmIdentifier, MinterKey,
    Oprator};

verus! {

/// Lexicographic strict order on sequences, comparing elements through `key`.
pub open spec fn lex_lt<T>(a: Seq<T>, b: Seq<T>, key: spec_fn(T) -> u32) -> bool
    decreases a.len(),
{
    if b.len() == 0 {
        false
    } else if a.len() == 0 {
        true
    } else if key(a[0]) < key(b[0]) {
        true
    } else if key(a[0]) > key(b[0]) {
        false
    } else {
        lex_lt(a.drop_first(), b.drop_first(), key)
    }
}

pub proof fn lemma_lex_lt_asymmetric<T>(a: Seq<T>, b: Seq<T>, key: spec_fn(T) -> u32)
    ensures
        lex_lt(a, b, key) ==> !lex_lt(b, a, key),
    decreases a.len(),
{
    if a.len() > 0 && b.len() > 0 && key(a[0]) == key(b[0]) {
        lemma_lex_lt_asymmetric(a.drop_first(), b.drop_first(), key);
    }
}

pub proof fn lemma_lex_lt_connected<T>(a: Seq<T>, b: Seq<T>, key: spec_fn(T) -> u32)
    requires
        forall|x: T, y: T| #![trigger key(x), key(y)] key(x) == key(y) ==> x == y,
    ensures
        !lex_lt(a, b, key) && !lex_lt(b, a, key) ==> a == b,
    decreases a.len(),
{
    if a.len() == 0 && b.len() == 0 {
        assert(a =~= b);
    } else if a.len() > 0 && b.len() > 0 {
        if key(a[0]) == key(b[0]) {
            lemma_lex_lt_connected(a.drop_first(), b.drop_first(), key);
            if !lex_lt(a, b, key) && !lex_lt(b, a, key) {
                assert(a[0] == b[0]);
                assert(a.drop_first() == b.drop_first());
                assert forall|i: int| 0 <= i < a.len() implies a[i] == b[i] by {
                    if i > 0 {
                        assert(a[i] == a.drop_first()[i - 1]);
                        assert(b[i] == b.drop_first()[i - 1]);
                    }
                }
                assert(a =~= b);
            }
        }
    }
}

pub proof fn lemma_lex_lt_transitive<T>(a: Seq<T>, b: Seq<T>, c: Seq<T>, key: spec_fn(T) -> u32)
    ensures
        lex_lt(a, b, key) && lex_lt(b, c, key) ==> lex_lt(a, c, key),
    decreases a.len(),
{
    if lex_lt(a, b, key) && lex_lt(b, c, key) {
        if a.len() > 0 && b.len() > 0 && c.len() > 0 {
            lemma_lex_lt_transitive(a.drop_first(), b.drop_first(), c.drop_first(), key);
        }
    }
}

/// A key of a persistent table: its model carries a strict total order.
pub trait StoreKey: View + Sized {
    /// Strict order on key models; tables keep entries ascending in it.
    spec fn key_lt(a: Self::V, b: Self::V) -> bool;

    /// The order is asymmetric, connected and transitive.
    proof fn lemma_strict_total_order()
        ensures
            forall|a: Self::V, b: Self::V| #[trigger]
                Self::key_lt(a, b) ==> !Self::key_lt(b, a),
            forall|a: Self::V, b: Self::V| #![trigger Self::key_lt(a, b)]
                !Self::key_lt(a, b) && !Self::key_lt(b, a) ==> a == b,
            forall|a: Self::V, b: Self::V, c: Self::V| #![trigger Self::key_lt(a, b), Self::key_lt(b, c)]
                Self::key_lt(a, b) && Self::key_lt(b, c) ==> Self::key_lt(a, c),
        ;

    /// Decides the order on concrete keys.
    fn key_lt_exec(&self, other: &Self) -> (r: bool)
        ensures
            r == Self::key_lt(self@, other@),
        ;

    /// Decides equality of key models on concrete keys.
    fn key_eq_exec(&self, other: &Self) -> (r: bool)
        ensures
            r == (self@ == other@),
        ;
}

/// Rank of an operator in the fixed order of the registry.
pub open spec fn oprator_rank(o: Oprator) -> u32 {
    match o {
        Oprator::DfinityCkEthMinter => 0u32,
        Oprator::AppicMinter => 1u32,
    }
}

/// Decides the rank of an operator.
pub fn oprator_rank_exec(o: &Oprator) -> (r: u32)
    ensures
        r == oprator_rank(*o),
{
    match o {
        Oprator::DfinityCkEthMinter => 0u32,
        Oprator::AppicMinter => 1u32,
    }
}

impl View for MinterKey {
    type V = (u64, Oprator);

    open spec fn view(&self) -> (u64, Oprator) {
        (self.0.0, self.1)
    }
}

impl StoreKey for MinterKey {
    open spec fn key_lt(a: (u64, Oprator), b: (u64, Oprator)) -> bool {
        a.0 < b.0 || (a.0 == b.0 && oprator_rank(a.1) < oprator_rank(b.1))
    }

    proof fn lemma_strict_total_order() {
        assert forall|x: Oprator, y: Oprator| oprator_rank(x) == oprator_rank(y) implies x == y by {
            match x {
                Oprator::DfinityCkEthMinter => {},
                Oprator::AppicMinter => {},
            }
        }
    }

    fn key_lt_exec(&self, other: &Self) -> (r: bool) {
        self.0.0 < other.0.0 || (self.0.0 == other.0.0 && oprator_rank_exec(&self.1)
            < oprator_rank_exec(&other.1))
    }

    fn key_eq_exec(&self, other: &Self) -> (r: bool) {
        self.0.0 == other.0.0 && oprator_rank_exec(&self.1) == oprator_rank_exec(&other.1)
    }
}

/// Code-point key used for the lexicographic order on text.
pub open spec fn char_key() -> spec_fn(char) -> u32 {
    |c: char| c as u32
}

/// Identity-like key used for the lexicographic order on bytes.
pub open spec fn byte_key() -> spec_fn(u8) -> u32 {
    |b: u8| b as u32
}

/// Compares the tails of two strings, from character position `i` on,
/// in lexicographic code-point order.
fn str_tail_lt(a: &String, b: &String, i: usize) -> (r: bool)
    requires
        i <= a@.len(),
        i <= b@.len(),
    ensures
        r == lex_lt(a@.skip(i as int), b@.skip(i as int), char_key()),
    decreases a@.len() - i,
{
    let b_done: bool = i >= b.as_str().unicode_len();
    if b_done {
        false
    } else if i >= a.as_str().unicode_len() {
        true
    } else {
        let ca: char = a.as_str().get_char(i);
        let cb: char = b.as_str().get_char(i);
        proof {
            assert(a@.skip(i as int)[0] == a@[i as int]);
            assert(b@.skip(i as int)[0] == b@[i as int]);
            assert(a@.skip(i as int).drop_first() =~= a@.skip(i + 1 as int));
            assert(b@.skip(i as int).drop_first() =~= b@.skip(i + 1 as int));
        }
        if (ca as u32) < (cb as u32) {
            true
        } else if (ca as u32) > (cb as u32) {
            false
        } else {
            str_tail_lt(a, b, i + 1)
        }
    }
}

/// Compares two strings in lexicographic code-point order.
pub fn str_lt(a: &String, b: &String) -> (r: bool)
    ensures
        r == lex_lt(a@, b@, char_key()),
{
    proof {
        assert(a@.skip(0) =~= a@);
        assert(b@.skip(0) =~= b@);
    }
    str_tail_lt(a, b, 0)
}

/// Compares the tails of two byte vectors, from position `i` on,
/// in lexicographic order.
fn bytes_tail_lt(a: &Vec<u8>, b: &Vec<u8>, i: usize) -> (r: bool)
    requires
        i <= a@.len(),
        i <= b@.len(),
    ensures
        r == lex_lt(a@.skip(i as int), b@.skip(i as int), byte_key()),
    decreases a@.len() - i,
{
    if i >= b.len() {
        false
    } else if i >= a.len() {
        true
    } else {
        proof {
            assert(a@.skip(i as int)[0] == a@[i as int]);
            assert(b@.skip(i as int)[0] == b@[i as int]);
            assert(a@.skip(i as int).drop_first() =~= a@.skip(i + 1 as int));
            assert(b@.skip(i as int).drop_first() =~= b@.skip(i + 1 as int));
        }
        if a[i] < b[i] {
            true
        } else if a[i] > b[i] {
            false
        } else {
            bytes_tail_lt(a, b, i + 1)
        }
    }
}

/// Compares two byte vectors in lexicographic order.
pub fn bytes_lt(a: &Vec<u8>, b: &Vec<u8>) -> (r: bool)
    ensures
        r == lex_lt(a@, b@, byte_key()),
{
    proof {
        assert(a@.skip(0) =~= a@);
        assert(b@.skip(0) =~= b@);
    }
    bytes_tail_lt(a, b, 0)
}

/// Decides equality of two byte vectors.
pub fn bytes_eq(a: &Vec<u8>, b: &Vec<u8>) -> (r: bool)
    ensures
        r == (a@ == b@),
{
    if a.len() != b.len() {
        return false;
    }
    let mut i: usize = 0;
    while i < a.len()
        invariant
            i <= a.len(),
            a@.len() == b@.len(),
            forall|j: int| 0 <= j < i ==> a@[j] == b@[j],
        decreases a.len() - i,
    {
        if a[i] != b[i] {
            return false;
        }
        i += 1;
    }
    proof {
        assert(a@ =~= b@);
    }
    true
}

impl StoreKey for EvmToIcpTxIdentifier {
    open spec fn key_lt(a: (Seq<char>, u64), b: (Seq<char>, u64)) -> bool {
        lex_lt(a.0, b.0, char_key()) || (a.0 == b.0 && a.1 < b.1)
    }

    proof fn lemma_strict_total_order() {
        assert forall|x: char, y: char| #![trigger char_key()(x), char_key()(y)]
            char_key()(x) == char_key()(y) implies x == y by {
            vstd::utf8::char_u32_cast(x, x as u32);
            vstd::utf8::char_u32_cast(y, y as u32);
        }
        assert forall|a: (Seq<char>, u64), b: (Seq<char>, u64)| #[trigger]
            Self::key_lt(a, b) implies !Self::key_lt(b, a) by {
            lemma_lex_lt_asymmetric(a.0, b.0, char_key());
        }
        assert forall|a: (Seq<char>, u64), b: (Seq<char>, u64)| #![trigger Self::key_lt(a, b)]
            !Self::key_lt(a, b) && !Self::key_lt(b, a) implies a == b by {
            lemma_lex_lt_connected(a.0, b.0, char_key());
        }
        assert forall|a: (Seq<char>, u64), b: (Seq<char>, u64), c: (Seq<char>, u64)|
            #![trigger Self::key_lt(a, b), Self::key_lt(b, c)]
            Self::key_lt(a, b) && Self::key_lt(b, c) implies Self::key_lt(a, c) by {
            lemma_lex_lt_transitive(a.0, b.0, c.0, char_key());
            lemma_lex_lt_asymmetric(a.0, b.0, char_key());
            lemma_lex_lt_asymmetric(b.0, c.0, char_key());
            lemma_lex_lt_connected(a.0, b.0, char_key());
            lemma_lex_lt_connected(b.0, c.0, char_key());
        }
    }

    fn key_lt_exec(&self, other: &Self) -> (r: bool) {
        if str_lt(&self.0, &other.0) {
            true
        } else {
            self.0 == other.0 && self.1.0 < other.1.0
        }
    }

    fn key_eq_exec(&self, other: &Self) -> (r: bool) {
        self.0 == other.0 && self.1.0 == other.1.0
    }
}

impl StoreKey for IcpToEvmIdentifier {
    open spec fn key_lt(a: (u64, u64), b: (u64, u64)) -> bool {
        a.0 < b.0 || (a.0 == b.0 && a.1 < b.1)
    }

    proof fn lemma_strict_total_order() {
    }

    fn key_lt_exec(&self, other: &Self) -> (r: bool) {
        self.0 < other.0 || (self.0 == other.0 && self.1.0 < other.1.0)
    }

    fn key_eq_exec(&self, other: &Self) -> (r: bool) {
        self.0 == other.0 && self.1.0 == other.1.0
    }
}

impl StoreKey for Erc20Identifier {
    open spec fn key_lt(a: (Seq<u8>, u64), b: (Seq<u8>, u64)) -> bool {
        lex_lt(a.0, b.0, byte_key()) || (a.0 == b.0 && a.1 < b.1)
    }

    proof fn lemma_strict_total_order() {
        assert forall|a: (Seq<u8>, u64), b: (Seq<u8>, u64)| #[trigger]
            Self::key_lt(a, b) implies !Self::key_lt(b, a) by {
            lemma_lex_lt_asymmetric(a.0, b.0, byte_key());
        }
        assert forall|a: (Seq<u8>, u64), b: (Seq<u8>, u64)| #![trigger Self::key_lt(a, b)]
            !Self::key_lt(a, b) && !Self::key_lt(b, a) implies a == b by {
            lemma_lex_lt_connected(a.0, b.0, byte_key());
        }
        assert forall|a: (Seq<u8>, u64), b: (Seq<u8>, u64), c: (Seq<u8>, u64)|
            #![trigger Self::key_lt(a, b), Self::key_lt(b, c)]
            Self::key_lt(a, b) && Self::key_lt(b, c) implies Self::key_lt(a, c) by {
            lemma_lex_lt_transitive(a.0, b.0, c.0, byte_key());
            lemma_lex_lt_asymmetric(a.0, b.0, byte_key());
            lemma_lex_lt_asymmetric(b.0, c.0, byte_key());
            lemma_lex_lt_connected(a.0, b.0, byte_key());
            lemma_lex_lt_connected(b.0, c.0, byte_key());
        }
    }

    fn key_lt_exec(&self, other: &Self) -> (r: bool) {
        if bytes_lt(&self.0.0, &other.0.0) {
            true
        } else {
            bytes_eq(&self.0.0, &other.0.0) && self.1.0 < other.1.0
        }
    }

    fn key_eq_exec(&self, other: &Self) -> (r: bool) {
        bytes_eq(&self.0.0, &other.0.0) && self.1.0 == other.1.0
    }
}

/// A durable table: an association vector kept strictly sorted by key.
pub struct OrderedMap<K, V> {
    entries: Vec<(K, V)>,
}

impl<K: StoreKey, V: View> OrderedMap<K, V> {
    /// The entries of the table, as key and value models, in storage order.
    pub closed spec fn kv_seq(self) -> Seq<(K::V, V::V)> {
        self.entries@.map_values(|p: (K, V)| (p.0@, p.1@))
    }

    /// Entries are strictly ascending in the key order.
    pub closed spec fn wf(self) -> bool {
        forall|i: int, j: int|
            #![trigger self.kv_seq()[i], self.kv_seq()[j]]
            0 <= i < j < self.kv_seq().len() ==> K::key_lt(self.kv_seq()[i].0, self.kv_seq()[j].0)
    }

    pub closed spec fn spec_contains_key(self, k: K::V) -> bool {
        exists|i: int| 0 <= i < self.kv_seq().len() && #[trigger] self.kv_seq()[i].0 == k
    }

    pub closed spec fn spec_index_of(self, k: K::V) -> int {
        choose|i: int| 0 <= i < self.kv_seq().len() && #[trigger] self.kv_seq()[i].0 == k
    }

    proof fn lemma_kv_index(self)
        ensures
            self.kv_seq().len() == self.entries@.len(),
            forall|i: int|
                0 <= i < self.entries@.len() ==> #[trigger] self.kv_seq()[i] == (
                self.entries@[i].0@,
                self.entries@[i].1@,
            ),
    {
        assert forall|i: int| 0 <= i < self.entries@.len() implies #[trigger] self.kv_seq()[i] == (
            self.entries@[i].0@,
            self.entries@[i].1@,
        ) by {}
    }

    /// In a well-formed table the entries ascend strictly in the key order.
    pub proof fn lemma_kv_sorted(self)
        requires
            self.wf(),
        ensures
            forall|i: int, j: int|
                #![trigger self.kv_seq()[i], self.kv_seq()[j]]
                0 <= i < j < self.kv_seq().len() ==> K::key_lt(
                    self.kv_seq()[i].0,
                    self.kv_seq()[j].0,
                ),
    {
    }

    /// No two entries share a key.
    pub proof fn lemma_wf_unique(self)
        requires
            self.wf(),
        ensures
            forall|i: int, j: int|
                #![trigger self.kv_seq()[i], self.kv_seq()[j]]
                0 <= i < self.kv_seq().len() && 0 <= j < self.kv_seq().len() && i != j
                    ==> self.kv_seq()[i].0 != self.kv_seq()[j].0,
    {
        K::lemma_strict_total_order();
    }

    /// An entry's key is in the view, mapped to the entry's value.
    pub proof fn lemma_at_index(self, i: int)
        requires
            self.wf(),
            0 <= i < self.kv_seq().len(),
        ensures
            self@.contains_key(self.kv_seq()[i].0),
            self@[self.kv_seq()[i].0] == self.kv_seq()[i].1,
            self.spec_index_of(self.kv_seq()[i].0) == i,
    {
        self.lemma_wf_unique();
        assert(self.spec_contains_key(self.kv_seq()[i].0));
    }

    /// Every key of the view is the key of some entry.
    pub proof fn lemma_view_kv(self)
        requires
            self.wf(),
        ensures
            forall|i: int|
                0 <= i < self.kv_seq().len() ==> self@.contains_key(#[trigger] self.kv_seq()[i].0)
                    && self@[self.kv_seq()[i].0] == self.kv_seq()[i].1,
            forall|k: K::V| #[trigger]
                self@.contains_key(k) ==> exists|i: int|
                    0 <= i < self.kv_seq().len() && #[trigger] self.kv_seq()[i].0 == k,
    {
        assert forall|i: int| 0 <= i < self.kv_seq().len() implies self@.contains_key(
            #[trigger] self.kv_seq()[i].0,
        ) && self@[self.kv_seq()[i].0] == self.kv_seq()[i].1 by {
            self.lemma_at_index(i);
        }
    }

    /// Creates an empty table.
    pub fn new() -> (r: Self)
        ensures
            r.wf(),
            r@ == Map::<K::V, V::V>::empty(),
            r.kv_seq() == Seq::<(K::V, V::V)>::empty(),
    {
        let r = OrderedMap { entries: Vec::new() };
        proof {
            assert(r.kv_seq() =~= Seq::<(K::V, V::V)>::empty());
            assert(r@ =~= Map::<K::V, V::V>::empty());
        }
        r
    }

    /// Number of entries.
    pub fn len(&self) -> (r: usize)
        ensures
            r == self.kv_seq().len(),
    {
        proof {
            self.lemma_kv_index();
        }
        self.entries.len()
    }

    /// The key of the entry at storage position `i`.
    pub fn key_ref(&self, i: usize) -> (r: &K)
        requires
            i < self.kv_seq().len(),
        ensures
            r@ == self.kv_seq()[i as int].0,
    {
        proof {
            self.lemma_kv_index();
        }
        &self.entries[i].0
    }

    /// The value of the entry at storage position `i`.
    pub fn val_ref(&self, i: usize) -> (r: &V)
        requires
            i < self.kv_seq().len(),
        ensures
            r@ == self.kv_seq()[i as int].1,
    {
        proof {
            self.lemma_kv_index();
        }
        &self.entries[i].1
    }

    /// Looks a key up.
    pub fn get(&self, key: &K) -> (r: Option<&V>)
        requires
            self.wf(),
        ensures
            match r {
                Some(v) => self@.contains_key(key@) && v@ == self@[key@],
                None => !self@.contains_key(key@),
            },
    {
        let mut i: usize = 0;
        while i < self.entries.len()
            invariant
                self.wf(),
                i <= self.kv_seq().len(),
                forall|j: int| 0 <= j < i ==> (#[trigger] self.kv_seq()[j]).0 != key@,
            decreases self.entries.len() - i,
        {
            proof {
                self.lemma_kv_index();
            }
            if self.entries[i].0.key_eq_exec(key) {
                proof {
                    self.lemma_at_index(i as int);
                }
                return Some(&self.entries[i].1);
            }
            i += 1;
        }
        proof {
            self.lemma_kv_index();
            assert(!self.spec_contains_key(key@));
        }
        None
    }

    /// True iff the key is present.
    pub fn contains_key(&self, key: &K) -> (r: bool)
        requires
            self.wf(),
        ensures
            r == self@.contains_key(key@),
    {
        match self.get(key) {
            Some(_) => true,
            None => false,
        }
    }

    /// Inserts or fully replaces the entry under `key`.
    pub fn insert(&mut self, key: K, value: V)
        requires
            old(self).wf(),
        ensures
            final(self).wf(),
            final(self)@ == old(self)@.insert(key@, value@),
    {
        let ghost pre: Self = *self;
        let ghost old_kv: Seq<(K::V, V::V)> = self.kv_seq();
        let ghost kmodel: K::V = key@;
        proof {
            K::lemma_strict_total_order();
            self.lemma_wf_unique();
            self.lemma_kv_index();
        }
        let mut p: usize = 0;
        loop
            invariant
                *self == pre,
                self.wf(),
                kmodel == key@,
                p <= old_kv.len(),
                old_kv == self.kv_seq(),
                forall|j: int| 0 <= j < p ==> K::key_lt((#[trigger] old_kv[j]).0, kmodel),
            ensures
                *self == pre,
                p <= old_kv.len(),
                forall|j: int| 0 <= j < p ==> K::key_lt((#[trigger] old_kv[j]).0, kmodel),
                p == old_kv.len() || !K::key_lt(old_kv[p as int].0, kmodel),
            decreases old_kv.len() - p,
        {
            proof {
                self.lemma_kv_index();
            }
            if p == self.entries.len() {
                break;
            }
            let below: bool = self.entries[p].0.key_lt_exec(&key);
            if !below {
                break;
            }
            p += 1;
        }
        let replace: bool = p < self.entries.len() && self.entries[p].0.key_eq_exec(&key);
        proof {
            K::lemma_strict_total_order();
            if p < old_kv.len() && !(old_kv[p as int].0 == kmodel) {
                // the entry at p is strictly above the new key
                assert(!K::key_lt(old_kv[p as int].0, kmodel));
                assert(K::key_lt(kmodel, old_kv[p as int].0));
            }
        }
        proof {
            self.lemma_kv_index();
        }
        if replace {
            self.entries.remove(p);
        }
        let ghost mid_kv: Seq<(K::V, V::V)> = self.kv_seq();
        proof {
            self.lemma_kv_index();
            if replace {
                assert forall|i: int| 0 <= i < mid_kv.len() implies #[trigger] mid_kv[i] == (if i
                    < p {
                    old_kv[i]
                } else {
                    old_kv[i + 1]
                }) by {}
            }
        }
        self.entries.insert(p, (key, value));
        proof {
            self.lemma_kv_index();
            let new_kv = self.kv_seq();
            let shift: int = if replace { 1int } else { 0int };
            assert(new_kv.len() == old_kv.len() + 1 - shift);
            assert forall|i: int| 0 <= i < new_kv.len() implies #[trigger] new_kv[i] == (if i < p {
                old_kv[i]
            } else if i == p {
                (kmodel, value@)
            } else {
                old_kv[i - 1 + shift]
            }) by {
                if i != p {
                    assert(new_kv[i] == mid_kv[if i < p { i } else { i - 1 }]);
                }
            }
            // sortedness
            assert forall|i: int, j: int|
                #![trigger new_kv[i], new_kv[j]]
                0 <= i < j < new_kv.len() implies K::key_lt(new_kv[i].0, new_kv[j].0) by {
                if i == p {
                    let oj: int = j - 1 + shift;
                    assert(new_kv[j] == old_kv[oj]);
                    if replace {
                        assert(old_kv[p as int].0 == kmodel);
                        assert(K::key_lt(old_kv[p as int].0, old_kv[oj].0));
                    } else {
                        if p < old_kv.len() {
                            assert(K::key_lt(kmodel, old_kv[p as int].0));
                            if oj > p {
                                assert(K::key_lt(old_kv[p as int].0, old_kv[oj].0));
                            }
                        }
                    }
                } else if j == p {
                    assert(K::key_lt(old_kv[i].0, kmodel));
                } else {
                    let oi: int = if i < p { i } else { i - 1 + shift };
                    let oj: int = if j < p { j } else { j - 1 + shift };
                    assert(oi < oj);
                    assert(new_kv[i] == old_kv[oi]);
                    assert(new_kv[j] == old_kv[oj]);
                    assert(K::key_lt(old_kv[oi].0, old_kv[oj].0));
                }
            }
            // view equality
            assert forall|k: K::V| #[trigger] self@.contains_key(k) == pre@.insert(
                kmodel,
                value@,
            ).contains_key(k) && (self@.contains_key(k) ==> self@[k] == pre@.insert(
                kmodel,
                value@,
            )[k]) by {
                self.lemma_wf_unique();
                pre.lemma_wf_unique();
                if k == kmodel {
                    self.lemma_at_index(p as int);
                } else {
                    if self.spec_contains_key(k) {
                        let i = choose|i: int|
                            0 <= i < new_kv.len() && #[trigger] new_kv[i].0 == k;
                        self.lemma_at_index(i);
                        let oi: int = if i < p { i } else { i - 1 + shift };
                        assert(old_kv[oi].0 == k);
                        pre.lemma_at_index(oi);
                    }
                    if pre.spec_contains_key(k) {
                        let oi = choose|i: int|
                            0 <= i < old_kv.len() && #[trigger] old_kv[i].0 == k;
                        pre.lemma_at_index(oi);
                        let i: int = if oi < p { oi } else { oi + 1 - shift };
                        if replace && oi == p {
                            assert(old_kv[oi].0 == kmodel);
                        } else {
                            assert(new_kv[i].0 == k);
                            self.lemma_at_index(i);
                        }
                    }
                }
            }
            assert(self@ =~= pre@.insert(kmodel, value@));
        }
    }

    /// Removes the entry under `key`, if any.
    pub fn remove(&mut self, key: &K)
        requires
            old(self).wf(),
        ensures
            final(self).wf(),
            final(self)@ == old(self)@.remove(key@),
    {
        let ghost pre: Self = *self;
        let ghost old_kv: Seq<(K::V, V::V)> = self.kv_seq();
        let ghost kmodel: K::V = key@;
        proof {
            self.lemma_wf_unique();
            self.lemma_kv_index();
        }
        let mut i: usize = 0;
        while i < self.entries.len()
            invariant
                pre == *old(self),
                *self == pre,
                self.wf(),
                kmodel == key@,
                old_kv == self.kv_seq(),
                i <= old_kv.len(),
                forall|j: int| 0 <= j < i ==> (#[trigger] old_kv[j]).0 != kmodel,
            decreases self.entries.len() - i,
        {
            proof {
                self.lemma_kv_index();
            }
            if self.entries[i].0.key_eq_exec(key) {
                self.entries.remove(i);
                proof {
                    self.lemma_kv_index();
                    let new_kv = self.kv_seq();
                    assert forall|j: int| 0 <= j < new_kv.len() implies #[trigger] new_kv[j] == (
                    if j < i {
                        old_kv[j]
                    } else {
                        old_kv[j + 1]
                    }) by {}
                    assert forall|k: K::V| #[trigger] self@.contains_key(k) == pre@.remove(
                        kmodel,
                    ).contains_key(k) && (self@.contains_key(k) ==> self@[k] == pre@.remove(
                        kmodel,
                    )[k]) by {
                        self.lemma_wf_unique();
                        pre.lemma_wf_unique();
                        assert(pre.kv_seq() == old_kv);
                        assert(old_kv[i as int].0 == kmodel);
                        if self.spec_contains_key(k) {
                            let j = choose|j: int|
                                0 <= j < new_kv.len() && #[trigger] new_kv[j].0 == k;
                            self.lemma_at_index(j);
                            let oj: int = if j < i { j } else { j + 1 };
                            assert(new_kv[j] == old_kv[oj]);
                            assert(old_kv[oj].0 == k);
                            assert(oj != i);
                            assert(k != kmodel);
                            pre.lemma_at_index(oj);
                        }
                        if k != kmodel && pre.spec_contains_key(k) {
                            let oj = choose|j: int|
                                0 <= j < old_kv.len() && #[trigger] old_kv[j].0 == k;
                            pre.lemma_at_index(oj);
                            assert(oj != i);
                            let j: int = if oj < i { oj } else { oj - 1 };
                            assert(new_kv[j].0 == k);
                            self.lemma_at_index(j);
                        }
                    }
                    assert(self@ =~= pre@.remove(kmodel));
                }
                return;
            }
            i += 1;
        }
        proof {
            self.lemma_kv_index();
            assert(!self.spec_contains_key(kmodel));
            assert(self@ =~= pre@.remove(kmodel));
        }
    }
}

impl<K: StoreKey, V: View> View for OrderedMap<K, V> {
    type V = Map<K::V, V::V>;

    closed spec fn view(&self) -> Map<K::V, V::V> {
        Map::new(
            |k: K::V| self.spec_contains_key(k),
            |k: K::V| self.kv_seq()[self.spec_index_of(k)].1,
        )
    }
}

} // verus!
