//! Builds the RPC receipt response of one transaction from the execution output
//! of its block.

use vstd::prelude::*;

verus! {

/// A 20-byte account address.
#[derive(Clone, Copy, Debug, PartialEq, Eq)]
pub struct Address(pub [u8; 20]);

/// What a transaction does: create a contract or call an address.
#[derive(Clone, Copy, Debug, PartialEq, Eq)]
pub enum TxKind {
    Create,
    Call(Address),
}

/// A log emitted during execution.
#[derive(Debug, PartialEq, Eq)]
pub struct Log {
    pub address: Address,
    pub topics: Vec<[u8; 32]>,
    pub data: Vec<u8>,
}

/// The mathematical value of a log: its address, topics and data as sequences.
pub type LogValue = (Seq<u8>, Seq<Seq<u8>>, Seq<u8>);

/// The topics of a log as byte sequences.
pub open spec fn topics_view(topics: Seq<[u8; 32]>) -> Seq<Seq<u8>> {
    topics.map_values(|t: [u8; 32]| t@)
}

impl Log {
    pub open spec fn value(&self) -> LogValue {
        (self.address.0@, topics_view(self.topics@), self.data@)
    }

    /// A copy of the log.
    pub fn duplicate(&self) -> (r: Log)
        ensures
            r.value() == self.value(),
            r.address == self.address,
            r.topics@ == self.topics@,
    {
        let mut topics: Vec<[u8; 32]> = Vec::new();
        let mut i: usize = 0;
        while i < self.topics.len()
            invariant
                i <= self.topics@.len(),
                topics@ == self.topics@.subrange(0, i as int),
            decreases self.topics@.len() - i,
        {
            topics.push(self.topics[i]);
            i = i + 1;
        }
        let mut data: Vec<u8> = Vec::new();
        let mut j: usize = 0;
        while j < self.data.len()
            invariant
                j <= self.data@.len(),
                data@ == self.data@.subrange(0, j as int),
            decreases self.data@.len() - j,
        {
            data.push(self.data[j]);
            j = j + 1;
        }
        assert(topics@ =~= self.topics@);
        assert(data@ =~= self.data@);
        Log { address: self.address, topics, data }
    }
}

/// The execution receipt of one transaction.
#[derive(Debug)]
pub struct Receipt {
    /// The transaction type byte.
    pub tx_type: u8,
    pub success: bool,
    /// Gas used by this and all preceding transactions of the block.
    pub cumulative_gas_used: u64,
    pub logs: Vec<Log>,
}

/// A secp256k1 signature: `r`, `s` as big-endian integers and the parity of
/// the curve point's y coordinate.
#[derive(Clone, Copy, Debug, PartialEq, Eq)]
pub struct TxSignature {
    pub r: [u8; 32],
    pub s: [u8; 32],
    pub y_parity: bool,
}

/// A signed transaction as far as its receipt needs it.
#[derive(Debug)]
pub struct TransactionSigned {
    pub signature: TxSignature,
    /// The hash the transaction was signed over.
    pub signature_hash: [u8; 32],
    pub kind: TxKind,
    pub nonce: u64,
    pub tx_type: u8,
    /// The gas price, or the maximum fee per gas for a dynamic-fee transaction.
    pub max_fee_per_gas: u128,
    /// The priority fee cap of a dynamic-fee transaction; `None` for legacy ones.
    pub max_priority_fee_per_gas: Option<u128>,
    /// The blob gas the transaction pays for; `Some` only when it carries blob data.
    pub blob_gas_used: Option<u64>,
}

/// Where a transaction stands in its block.
#[derive(Clone, Copy, Debug)]
pub struct TransactionMeta {
    pub tx_hash: [u8; 32],
    /// Index of the transaction in the block.
    pub index: u64,
    pub block_hash: [u8; 32],
    pub block_number: u64,
    pub base_fee: Option<u64>,
    pub excess_blob_gas: Option<u64>,
    pub timestamp: u64,
}

/// A log as the RPC surface shows it, with its place in the block.
#[derive(Debug)]
pub struct RpcLog {
    pub inner: Log,
    pub block_hash: Option<[u8; 32]>,
    pub block_number: Option<u64>,
    pub block_timestamp: Option<u64>,
    pub transaction_hash: Option<[u8; 32]>,
    pub transaction_index: Option<u64>,
    pub log_index: Option<u64>,
    pub removed: bool,
}

/// The base (L1) fields of a receipt response.
#[derive(Debug)]
pub struct TransactionReceipt {
    pub status: bool,
    pub cumulative_gas_used: u128,
    pub logs: Vec<RpcLog>,
    pub logs_bloom: [u8; 256],
    pub tx_type: u8,
    pub transaction_hash: [u8; 32],
    pub transaction_index: Option<u64>,
    pub block_hash: Option<[u8; 32]>,
    pub block_number: Option<u64>,
    pub from: Address,
    pub to: Option<Address>,
    pub gas_used: u128,
    pub contract_address: Option<Address>,
    pub effective_gas_price: u128,
    pub state_root: Option<[u8; 32]>,
    pub blob_gas_price: Option<u128>,
    pub blob_gas_used: Option<u128>,
}

/// A field as name and value.
pub type FieldValue = (Seq<char>, Seq<char>);

/// Whether some field of `s` has the name `k`.
pub open spec fn has_key(s: Seq<FieldValue>, k: Seq<char>) -> bool {
    exists|i: int| 0 <= i < s.len() && (#[trigger] s[i]).0 == k
}

/// Whether no two fields of `s` share a name.
pub open spec fn keys_unique(s: Seq<FieldValue>) -> bool {
    forall|i: int, j: int| 0 <= i < j < s.len() ==> (#[trigger] s[i]).0 != (#[trigger] s[j]).0
}

/// The fields of `s`, in order, whose names `t` does not hold.
pub open spec fn without_keys(s: Seq<FieldValue>, t: Seq<FieldValue>) -> Seq<FieldValue>
    decreases s.len(),
{
    if s.len() == 0 {
        Seq::empty()
    } else {
        let rest = without_keys(s.drop_last(), t);
        if has_key(t, s.last().0) {
            rest
        } else {
            rest.push(s.last())
        }
    }
}

/// Additional (L2) fields of a receipt response, by name, with a JSON text
/// each. No two fields share a name.
#[derive(Debug)]
pub struct OtherFields {
    entries: Vec<(String, String)>,
}

impl View for OtherFields {
    type V = Seq<FieldValue>;

    closed spec fn view(&self) -> Seq<FieldValue> {
        self.entries@.map_values(|p: (String, String)| (p.0@, p.1@))
    }
}

impl OtherFields {
    pub open spec fn wf(&self) -> bool {
        keys_unique(self@)
    }

    /// No fields.
    pub fn new() -> (r: OtherFields)
        ensures
            r.wf(),
            r@ == Seq::<FieldValue>::empty(),
    {
        let r = OtherFields { entries: Vec::new() };
        assert(r@ =~= Seq::<FieldValue>::empty());
        r
    }

    /// The number of fields.
    pub fn len(&self) -> (r: usize)
        ensures
            r == self@.len(),
    {
        self.entries.len()
    }

    /// The value of the field named `key`, if there is one.
    pub fn get(&self, key: &String) -> (r: Option<String>)
        requires
            self.wf(),
        ensures
            r is Some <==> has_key(self@, key@),
            r matches Some(v) ==> self@.contains((key@, v@)),
    {
        let mut i: usize = 0;
        while i < self.entries.len()
            invariant
                i <= self@.len(),
                self@.len() == self.entries@.len(),
                forall|j: int| 0 <= j < i ==> (#[trigger] self@[j]).0 != key@,
            decreases self.entries@.len() - i,
        {
            assert(self@[i as int] == (self.entries@[i as int].0@, self.entries@[i as int].1@));
            if self.entries[i].0 == *key {
                let v = self.entries[i].1.clone();
                assert(self@[i as int] == (key@, v@));
                return Some(v);
            }
            i = i + 1;
        }
        None
    }

    /// Sets the field `key` to `value`, replacing the value it had.
    pub fn insert(&mut self, key: String, value: String)
        requires
            old(self).wf(),
        ensures
            final(self).wf(),
            final(self)@ == without_keys(old(self)@, seq![(key@, value@)]) + seq![(key@, value@)],
    {
        let mut one = OtherFields::new();
        one.entries.push((key, value));
        proof {
            assert(one@ =~= seq![(key@, value@)]);
        }
        self.append(one);
    }

    /// Whether a field of `self` is named `key`.
    fn contains_key(&self, key: &String) -> (r: bool)
        ensures
            r == has_key(self@, key@),
    {
        let mut i: usize = 0;
        while i < self.entries.len()
            invariant
                i <= self@.len(),
                self@.len() == self.entries@.len(),
                forall|j: int| 0 <= j < i ==> (#[trigger] self@[j]).0 != key@,
            decreases self.entries@.len() - i,
        {
            assert(self@[i as int].0 == self.entries@[i as int].0@);
            if self.entries[i].0 == *key {
                return true;
            }
            i = i + 1;
        }
        false
    }

    /// Adds every field of `other`; a name both hold takes `other`'s value.
    pub fn append(&mut self, other: OtherFields)
        requires
            old(self).wf(),
            other.wf(),
        ensures
            final(self).wf(),
            final(self)@ == without_keys(old(self)@, other@) + other@,
    {
        let ghost s = self@;
        let ghost t = other@;
        let mut kept: Vec<(String, String)> = Vec::new();
        let mut i: usize = 0;
        while i < self.entries.len()
            invariant
                i <= s.len(),
                s == self@,
                t == other@,
                s.len() == self.entries@.len(),
                kept@.map_values(|p: (String, String)| (p.0@, p.1@)) == without_keys(s.subrange(0, i as int), t),
            decreases s.len() - i,
        {
            assert(s.subrange(0, i + 1).drop_last() =~= s.subrange(0, i as int));
            assert(s[i as int] == (self.entries@[i as int].0@, self.entries@[i as int].1@));
            if !other.contains_key(&self.entries[i].0) {
                let k = self.entries[i].0.clone();
                let v = self.entries[i].1.clone();
                let ghost before = kept@;
                kept.push((k, v));
                assert(kept@.map_values(|p: (String, String)| (p.0@, p.1@)) =~= before.map_values(
                    |p: (String, String)| (p.0@, p.1@),
                ).push(s[i as int]));
            }
            i = i + 1;
        }
        assert(s.subrange(0, i as int) =~= s);
        let mut j: usize = 0;
        let ghost base = kept@.map_values(|p: (String, String)| (p.0@, p.1@));
        while j < other.entries.len()
            invariant
                j <= t.len(),
                t == other@,
                t.len() == other.entries@.len(),
                base == without_keys(s, t),
                kept@.map_values(|p: (String, String)| (p.0@, p.1@)) == base + t.subrange(0, j as int),
            decreases t.len() - j,
        {
            assert(t[j as int] == (other.entries@[j as int].0@, other.entries@[j as int].1@));
            let k = other.entries[j].0.clone();
            let v = other.entries[j].1.clone();
            let ghost before = kept@;
            kept.push((k, v));
            assert(kept@.map_values(|p: (String, String)| (p.0@, p.1@)) =~= before.map_values(
                |p: (String, String)| (p.0@, p.1@),
            ).push(t[j as int]));
            assert(base + t.subrange(0, j + 1) =~= (base + t.subrange(0, j as int)).push(t[j as int]));
            j = j + 1;
        }
        assert(t.subrange(0, j as int) =~= t);
        self.entries = kept;
        proof {
            lemma_append_unique(s, t);
        }
    }
}

/// Every field kept from `s` is a field of `s` whose name `t` does not hold.
proof fn lemma_without_keys_members(s: Seq<FieldValue>, t: Seq<FieldValue>)
    ensures
        forall|i: int| 0 <= i < without_keys(s, t).len() ==> s.contains(#[trigger] without_keys(s, t)[i])
            && !has_key(t, without_keys(s, t)[i].0),
        keys_unique(s) ==> keys_unique(without_keys(s, t)),
    decreases s.len(),
{
    if s.len() > 0 {
        lemma_without_keys_members(s.drop_last(), t);
        let rest = without_keys(s.drop_last(), t);
        assert forall|i: int| 0 <= i < without_keys(s, t).len() implies s.contains(#[trigger] without_keys(s, t)[i])
            && !has_key(t, without_keys(s, t)[i].0) by {
            if i < rest.len() {
                assert(s.drop_last().contains(rest[i]));
                let k = choose|k: int| 0 <= k < s.drop_last().len() && s.drop_last()[k] == rest[i];
                assert(s[k] == rest[i]);
            } else {
                assert(s[s.len() - 1] == s.last());
            }
        }
        if keys_unique(s) {
            assert forall|i: int, j: int| 0 <= i < j < without_keys(s, t).len() implies (#[trigger] without_keys(s, t)[i]).0
                != (#[trigger] without_keys(s, t)[j]).0 by {
                let w = without_keys(s, t);
                if j < rest.len() {
                    assert(keys_unique(s.drop_last())) by {
                        assert forall|a: int, b: int| 0 <= a < b < s.drop_last().len() implies (#[trigger] s.drop_last()[a]).0
                            != (#[trigger] s.drop_last()[b]).0 by {
                            assert(s.drop_last()[a] == s[a] && s.drop_last()[b] == s[b]);
                        }
                    }
                } else {
                    assert(w[j] == s.last());
                    assert(s.drop_last().contains(rest[i]));
                    let k = choose|k: int| 0 <= k < s.drop_last().len() && s.drop_last()[k] == rest[i];
                    assert(s[k] == rest[i]);
                    assert(s[k].0 != s[s.len() - 1].0);
                }
            }
        }
    }
}

/// After adding `t` to `s`, a name that `t` holds has exactly `t`'s value.
pub proof fn lemma_added_field_wins(s: Seq<FieldValue>, t: Seq<FieldValue>, k: Seq<char>, v: Seq<char>)
    requires
        keys_unique(s),
        keys_unique(t),
        t.contains((k, v)),
    ensures
        (without_keys(s, t) + t).contains((k, v)),
        forall|i: int|
            0 <= i < (without_keys(s, t) + t).len() && (#[trigger] (without_keys(s, t) + t)[i]).0 == k
                ==> (without_keys(s, t) + t)[i] == (k, v),
{
    lemma_without_keys_members(s, t);
    let w = without_keys(s, t);
    let r = w + t;
    let m = choose|m: int| 0 <= m < t.len() && t[m] == (k, v);
    assert(r[w.len() + m] == (k, v));
    assert forall|i: int| 0 <= i < r.len() && (#[trigger] r[i]).0 == k implies r[i] == (k, v) by {
        if i < w.len() {
            assert(r[i] == w[i]);
            assert(t[m].0 == k);
        } else {
            assert(r[i] == t[i - w.len()]);
            if i - w.len() != m {
                if i - w.len() < m {
                    assert(t[i - w.len()].0 != t[m].0);
                } else {
                    assert(t[m].0 != t[i - w.len()].0);
                }
            }
        }
    }
}

/// Appending fields to those kept keeps the names unique.
proof fn lemma_append_unique(s: Seq<FieldValue>, t: Seq<FieldValue>)
    requires
        keys_unique(s),
        keys_unique(t),
    ensures
        keys_unique(without_keys(s, t) + t),
{
    lemma_without_keys_members(s, t);
    let w = without_keys(s, t);
    let r = w + t;
    assert forall|i: int, j: int| 0 <= i < j < r.len() implies (#[trigger] r[i]).0 != (#[trigger] r[j]).0 by {
        if j < w.len() {
            assert(r[i] == w[i] && r[j] == w[j]);
        } else if i >= w.len() {
            assert(r[i] == t[i - w.len()] && r[j] == t[j - w.len()]);
        } else {
            assert(r[i] == w[i]);
            assert(r[j] == t[j - w.len()]);
            assert(!has_key(t, w[i].0));
        }
    }
}

/// A receipt response: base fields and additional ones.
#[derive(Debug)]
pub struct AnyTransactionReceipt {
    pub inner: TransactionReceipt,
    pub other: OtherFields,
}

/// Errors of the receipt builder.
#[derive(Debug, Clone, Copy, PartialEq, Eq)]
pub enum ReceiptError {
    /// The transaction's signer could not be recovered.
    InvalidTransactionSignature,
}

/// The address a contract created by `sender` with `nonce` gets.
pub uninterp spec fn create_address_of(sender: Seq<u8>, nonce: u64) -> Seq<u8>;

/// The address that signed `prehash` with the signature (`r`, `s`,
/// `y_parity`); `None` when no key recovers from it.
pub uninterp spec fn recovered_signer_of(r: Seq<u8>, s: Seq<u8>, y_parity: bool, prehash: Seq<u8>) -> Option<Seq<u8>>;

/// The signer of a transaction, as an address value, if it recovers.
pub open spec fn signer_of(tx: TransactionSigned) -> Option<Seq<u8>> {
    recovered_signer_of(tx.signature.r@, tx.signature.s@, tx.signature.y_parity, tx.signature_hash@)
}

/// The blob gas price that a block's excess blob gas sets.
pub uninterp spec fn blob_gasprice_of(excess_blob_gas: u64) -> u128;

/// The bloom filter after a log with `address` and `topics` is added to `bloom`.
pub uninterp spec fn bloom_accrue_of(bloom: Seq<u8>, address: Seq<u8>, topics: Seq<Seq<u8>>) -> Seq<u8>;

/// Relies on `alloy_primitives::Address::create`: keccak256(rlp([sender, nonce]))[12..].
#[verifier::external_body]
fn create_address(sender: &Address, nonce: u64) -> (r: Address)
    ensures
        r.0@ == create_address_of(sender.0@, nonce),
{
    Address(alloy_primitives::Address::from(sender.0).create(nonce).into_array())
}

/// Relies on `alloy_primitives::Signature::recover_address_from_prehash`: the
/// secp256k1 public key recovered from the signature (high `s` accepted),
/// as an address; an error when no key recovers.
#[verifier::external_body]
fn recover_signer(sig: &TxSignature, prehash: &[u8; 32]) -> (r: Option<Address>)
    ensures
        match r {
            Some(a) => recovered_signer_of(sig.r@, sig.s@, sig.y_parity, prehash@) == Some(a.0@),
            None => recovered_signer_of(sig.r@, sig.s@, sig.y_parity, prehash@) is None,
        },
{
    let r = alloy_primitives::U256::from_be_bytes(sig.r);
    let s = alloy_primitives::U256::from_be_bytes(sig.s);
    let signature = alloy_primitives::Signature::new(r, s, sig.y_parity);
    match signature.recover_address_from_prehash(&alloy_primitives::B256::from(*prehash)) {
        Ok(a) => Some(Address(a.into_array())),
        Err(_) => None,
    }
}

/// Relies on `alloy_eips::eip4844::calc_blob_gasprice`, the EIP-4844 price
/// under the Cancun parameters, which saturates instead of overflowing.
#[verifier::external_body]
fn calc_blob_gasprice(excess_blob_gas: u64) -> (r: u128)
    ensures
        r == blob_gasprice_of(excess_blob_gas),
{
    alloy_eips::eip4844::calc_blob_gasprice(excess_blob_gas)
}

/// Relies on `alloy_primitives::Bloom::accrue_raw_log`: adds an address and its
/// topics to a 2048-bit bloom filter.
#[verifier::external_body]
fn accrue_raw_log(bloom: &mut [u8; 256], address: &Address, topics: &Vec<[u8; 32]>)
    ensures
        final(bloom)@ == bloom_accrue_of(old(bloom)@, address.0@, topics_view(topics@)),
{
    let mut b = alloy_primitives::Bloom::from(*bloom);
    let ts: Vec<alloy_primitives::B256> = topics.iter().map(|t| alloy_primitives::B256::from(*t)).collect();
    b.accrue_raw_log(alloy_primitives::Address::from(address.0), &ts);
    *bloom = b.0.0;
}

/// The empty bloom filter.
pub open spec fn empty_bloom() -> Seq<u8> {
    Seq::new(256, |i: int| 0u8)
}

/// The bloom filter of the first `n` logs.
pub open spec fn logs_bloom_spec(logs: Seq<Log>, n: int) -> Seq<u8>
    decreases n,
{
    if n <= 0 {
        empty_bloom()
    } else {
        let l = logs[n - 1];
        bloom_accrue_of(logs_bloom_spec(logs, n - 1), l.address.0@, topics_view(l.topics@))
    }
}

/// The number of logs in the first `n` receipts.
pub open spec fn logs_before(receipts: Seq<Receipt>, n: int) -> int
    decreases n,
{
    if n <= 0 {
        0
    } else {
        logs_before(receipts, n - 1) + receipts[n - 1].logs@.len()
    }
}

/// The gas a transaction used: its cumulative gas less that of the transaction
/// before it; zero when that receipt is missing.
pub open spec fn gas_used_spec(index: u64, receipt: Receipt, all: Seq<Receipt>) -> int {
    if index == 0 {
        receipt.cumulative_gas_used as int
    } else if index - 1 < all.len() {
        receipt.cumulative_gas_used - all[index - 1].cumulative_gas_used
    } else {
        0
    }
}

/// The price per gas a transaction pays under a block's base fee.
pub open spec fn effective_gas_price_spec(tx: TransactionSigned, base_fee: Option<u64>) -> u128 {
    match tx.max_priority_fee_per_gas {
        None => tx.max_fee_per_gas,
        Some(priority) => match base_fee {
            None => tx.max_fee_per_gas,
            Some(b) => {
                if tx.max_fee_per_gas > b && tx.max_fee_per_gas - b > priority {
                    (priority + b) as u128
                } else {
                    tx.max_fee_per_gas
                }
            },
        },
    }
}

impl TransactionSigned {
    /// The price per gas the transaction pays under `base_fee`.
    pub fn effective_gas_price(&self, base_fee: Option<u64>) -> (r: u128)
        ensures
            r == effective_gas_price_spec(*self, base_fee),
    {
        match self.max_priority_fee_per_gas {
            None => self.max_fee_per_gas,
            Some(priority) => match base_fee {
                None => self.max_fee_per_gas,
                Some(b) => {
                    let b = b as u128;
                    if self.max_fee_per_gas > b && self.max_fee_per_gas - b > priority {
                        priority + b
                    } else {
                        self.max_fee_per_gas
                    }
                },
            },
        }
    }
}

/// The bloom filter of a list of logs.
pub fn logs_bloom(logs: &Vec<Log>) -> (r: [u8; 256])
    ensures
        r@ == logs_bloom_spec(logs@, logs@.len() as int),
{
    let mut bloom: [u8; 256] = [0u8; 256];
    assert(bloom@ =~= empty_bloom());
    let mut i: usize = 0;
    while i < logs.len()
        invariant
            i <= logs@.len(),
            bloom@ == logs_bloom_spec(logs@, i as int),
        decreases logs@.len() - i,
    {
        accrue_raw_log(&mut bloom, &logs[i].address, &logs[i].topics);
        i = i + 1;
    }
    bloom
}

/// Receipt response builder.
#[derive(Debug)]
pub struct ReceiptBuilder {
    /// The base response body, with the L1 fields.
    pub base: TransactionReceipt,
    /// Additional L2 fields.
    pub other: OtherFields,
}

/// The logs of a receipt as the RPC surface shows them: each keeps its content
/// and carries the block's metadata and its index in the block, counted from
/// `first_index`.
pub open spec fn rpc_logs_spec(
    rpc: Seq<RpcLog>,
    logs: Seq<Log>,
    meta: TransactionMeta,
    first_index: int,
) -> bool {
    &&& rpc.len() == logs.len()
    &&& forall|i: int|
        0 <= i < rpc.len() ==> {
            let l = #[trigger] rpc[i];
            &&& l.inner.value() == logs[i].value()
            &&& l.block_hash == Some(meta.block_hash)
            &&& l.block_number == Some(meta.block_number)
            &&& l.block_timestamp == Some(meta.timestamp)
            &&& l.transaction_hash == Some(meta.tx_hash)
            &&& l.transaction_index == Some(meta.index)
            &&& l.log_index == Some((first_index + i) as u64)
            &&& !l.removed
        }
}

impl ReceiptBuilder {
    /// Returns a new builder with the base response body set.
    ///
    /// It takes all receipts of the block: the gas a transaction used is the
    /// difference of its cumulative gas and that of the receipt before it, and
    /// its log indices follow the logs of the receipts before it.
    pub fn new(
        transaction: &TransactionSigned,
        meta: TransactionMeta,
        receipt: &Receipt,
        all_receipts: &[Receipt],
    ) -> (r: Result<Self, ReceiptError>)
        requires
            meta.index > 0 && meta.index - 1 < all_receipts@.len() ==>
                all_receipts@[meta.index - 1].cumulative_gas_used <= receipt.cumulative_gas_used,
            logs_before(
                all_receipts@,
                if meta.index < all_receipts@.len() { meta.index as int } else { all_receipts@.len() as int },
            ) + receipt.logs@.len() <= u64::MAX,
        ensures
            signer_of(*transaction) is None <==> r is Err,
            r is Err ==> r == Err::<Self, ReceiptError>(ReceiptError::InvalidTransactionSignature),
            r matches Ok(b) ==> {
                let base = b.base;
                let from = signer_of(*transaction).unwrap();
                let n = if meta.index < all_receipts@.len() {
                    meta.index as int
                } else {
                    all_receipts@.len() as int
                };
                &&& b.other@.len() == 0
                &&& b.other.wf()
                &&& base.status == receipt.success
                &&& base.cumulative_gas_used == receipt.cumulative_gas_used as u128
                &&& rpc_logs_spec(base.logs@, receipt.logs@, meta, logs_before(all_receipts@, n))
                &&& base.logs_bloom@ == logs_bloom_spec(receipt.logs@, receipt.logs@.len() as int)
                &&& base.tx_type == transaction.tx_type
                &&& base.transaction_hash == meta.tx_hash
                &&& base.transaction_index == Some(meta.index)
                &&& base.block_hash == Some(meta.block_hash)
                &&& base.block_number == Some(meta.block_number)
                &&& base.from.0@ == from
                &&& base.gas_used == gas_used_spec(meta.index, *receipt, all_receipts@)
                &&& base.effective_gas_price == effective_gas_price_spec(*transaction, meta.base_fee)
                &&& base.state_root is None
                &&& base.blob_gas_used == match transaction.blob_gas_used {
                    Some(g) => Some(g as u128),
                    None => None,
                }
                &&& base.blob_gas_price == match (transaction.blob_gas_used, meta.excess_blob_gas) {
                    (Some(_), Some(e)) => Some(blob_gasprice_of(e)),
                    _ => None,
                }
                &&& match transaction.kind {
                    TxKind::Create => base.to is None && (base.contract_address matches Some(a)
                        && a.0@ == create_address_of(from, transaction.nonce)),
                    TxKind::Call(to) => base.to == Some(to) && base.contract_address is None,
                }
            },
    {
        let from = match recover_signer(&transaction.signature, &transaction.signature_hash) {
            Some(a) => a,
            None => {
                return Err(ReceiptError::InvalidTransactionSignature);
            },
        };

        // the gas used is the difference to the previous transaction's cumulative gas
        let gas_used: u64 = if meta.index == 0 {
            receipt.cumulative_gas_used
        } else {
            let prev_tx_idx = meta.index - 1;
            if prev_tx_idx < all_receipts.len() as u64 {
                receipt.cumulative_gas_used - all_receipts[prev_tx_idx as usize].cumulative_gas_used
            } else {
                0
            }
        };

        // the blob gas price is only present for a blob transaction
        let blob_gas_price: Option<u128> = match transaction.blob_gas_used {
            Some(_) => match meta.excess_blob_gas {
                Some(e) => Some(calc_blob_gasprice(e)),
                None => None,
            },
            None => None,
        };
        let blob_gas_used: Option<u128> = match transaction.blob_gas_used {
            Some(g) => Some(g as u128),
            None => None,
        };
        let logs_bloom = logs_bloom(&receipt.logs);

        // the number of logs in the block before this transaction
        let mut num_logs: u64 = 0;
        let mut k: usize = 0;
        while k < all_receipts.len() && (k as u64) < meta.index
            invariant
                k <= all_receipts@.len(),
                k <= meta.index,
                num_logs == logs_before(all_receipts@, k as int),
                logs_before(
                    all_receipts@,
                    if meta.index < all_receipts@.len() { meta.index as int } else { all_receipts@.len() as int },
                ) + receipt.logs@.len() <= u64::MAX,
            decreases all_receipts@.len() - k,
        {
            proof {
                lemma_logs_before_monotone(
                    all_receipts@,
                    k + 1,
                    if meta.index < all_receipts@.len() { meta.index as int } else { all_receipts@.len() as int },
                );
            }
            num_logs = num_logs + all_receipts[k].logs.len() as u64;
            k = k + 1;
        }

        let mut logs: Vec<RpcLog> = Vec::new();
        let mut i: usize = 0;
        while i < receipt.logs.len()
            invariant
                i <= receipt.logs@.len(),
                num_logs + receipt.logs@.len() <= u64::MAX,
                logs@.len() == i,
                rpc_logs_spec(logs@, receipt.logs@.subrange(0, i as int), meta, num_logs as int),
            decreases receipt.logs@.len() - i,
        {
            let rpclog = RpcLog {
                inner: receipt.logs[i].duplicate(),
                block_hash: Some(meta.block_hash),
                block_number: Some(meta.block_number),
                block_timestamp: Some(meta.timestamp),
                transaction_hash: Some(meta.tx_hash),
                transaction_index: Some(meta.index),
                log_index: Some(num_logs + i as u64),
                removed: false,
            };
            logs.push(rpclog);
            i = i + 1;
        }
        assert(receipt.logs@.subrange(0, i as int) =~= receipt.logs@);

        let (contract_address, to) = match transaction.kind {
            TxKind::Create => (Some(create_address(&from, transaction.nonce)), None),
            TxKind::Call(addr) => (None, Some(addr)),
        };

        let base = TransactionReceipt {
            status: receipt.success,
            cumulative_gas_used: receipt.cumulative_gas_used as u128,
            logs,
            logs_bloom,
            tx_type: transaction.tx_type,
            transaction_hash: meta.tx_hash,
            transaction_index: Some(meta.index),
            block_hash: Some(meta.block_hash),
            block_number: Some(meta.block_number),
            from,
            to,
            gas_used: gas_used as u128,
            contract_address,
            effective_gas_price: transaction.effective_gas_price(meta.base_fee),
            state_root: None,
            blob_gas_price,
            blob_gas_used,
        };
        Ok(ReceiptBuilder { base, other: OtherFields::new() })
    }

    /// Adds fields to the response body; a name already set takes the value
    /// from `fields`.
    pub fn add_other_fields(self, fields: OtherFields) -> (r: Self)
        requires
            self.other.wf(),
            fields.wf(),
        ensures
            r.base == self.base,
            r.other.wf(),
            r.other@ == without_keys(self.other@, fields@) + fields@,
    {
        let mut other = self.other;
        other.append(fields);
        ReceiptBuilder { base: self.base, other }
    }

    /// Builds a receipt response from the base body and the additional fields.
    pub fn build(self) -> (r: AnyTransactionReceipt)
        ensures
            r.inner == self.base,
            r.other == self.other,
    {
        let ReceiptBuilder { base, other } = self;
        AnyTransactionReceipt { inner: base, other }
    }
}

/// Counting logs over more receipts never gives fewer.
proof fn lemma_logs_before_monotone(receipts: Seq<Receipt>, a: int, b: int)
    requires
        0 <= a <= b,
    ensures
        logs_before(receipts, a) <= logs_before(receipts, b),
    decreases b - a,
{
    if a < b {
        lemma_logs_before_monotone(receipts, a, b - 1);
    }
}

} // verus!
