//! The wire format of an extrinsic: one byte for the shape, thirteen
//! little-endian words of sixteen bytes for the fixed fields, then the
//! payload.

use vstd::prelude::*;
use vstd::bytes::{
    lemma_auto_spec_u128_to_from_le_bytes, spec_u128_from_le_bytes, spec_u128_to_le_bytes,
    u128_from_le_bytes, u128_to_le_bytes,
};
use vstd::slice::{slice_subrange, slice_to_vec};
use crate::account::{AccountId, Address};
use crate::config::H256;
use crate::extrinsic::{
    EthereumSignature, EthereumTransaction, Extrinsic, NativeExtrinsic, SignedExtra,
};
use crate::validation::Era;
use crate::weight::{DispatchClass, Weight};

verus! {

/// `words` laid out one after another, each in sixteen little-endian bytes.
pub open spec fn spec_pack(words: Seq<u128>) -> Seq<u8>
    decreases words.len(),
{
    if words.len() == 0 {
        Seq::empty()
    } else {
        spec_pack(words.drop_last()) + spec_u128_to_le_bytes(words.last())
    }
}

/// The first `n` words that `bytes` holds.
pub open spec fn spec_unpack(bytes: Seq<u8>, n: int) -> Seq<u128>
    decreases n,
{
    if n <= 0 {
        Seq::empty()
    } else {
        spec_unpack(bytes, n - 1).push(
            spec_u128_from_le_bytes(bytes.subrange(16 * (n - 1), 16 * n)),
        )
    }
}

/// Packed words take sixteen bytes each.
pub proof fn lemma_pack_len(words: Seq<u128>)
    ensures
        spec_pack(words).len() == 16 * words.len(),
    decreases words.len(),
{
    lemma_auto_spec_u128_to_from_le_bytes();
    if words.len() > 0 {
        lemma_pack_len(words.drop_last());
    }
}

/// `n` words were unpacked.
pub proof fn lemma_unpack_len(bytes: Seq<u8>, n: int)
    requires
        0 <= n,
    ensures
        spec_unpack(bytes, n).len() == n,
    decreases n,
{
    if n > 0 {
        lemma_unpack_len(bytes, n - 1);
    }
}

/// Unpacking what was packed gives the words back, whatever follows them.
pub proof fn lemma_unpack_pack(words: Seq<u128>, rest: Seq<u8>)
    ensures
        spec_unpack(spec_pack(words) + rest, words.len() as int) == words,
    decreases words.len(),
{
    lemma_auto_spec_u128_to_from_le_bytes();
    if words.len() > 0 {
        let front = words.drop_last();
        let last = spec_u128_to_le_bytes(words.last());
        let all = spec_pack(words) + rest;
        lemma_pack_len(front);
        lemma_unpack_pack(front, last + rest);
        assert(all =~= spec_pack(front) + (last + rest));
        assert(all.subrange(16 * (words.len() - 1), 16 * (words.len() as int)) =~= last);
        assert(spec_unpack(all, words.len() as int) =~= words);
    }
}

/// Packing what was unpacked gives the bytes back.
pub proof fn lemma_pack_unpack(bytes: Seq<u8>, n: int)
    requires
        0 <= n,
        16 * n <= bytes.len(),
    ensures
        spec_pack(spec_unpack(bytes, n)) == bytes.subrange(0, 16 * n),
    decreases n,
{
    lemma_auto_spec_u128_to_from_le_bytes();
    if n > 0 {
        let m = n - 1;
        lemma_pack_unpack(bytes, m);
        lemma_unpack_len(bytes, m);
        let words = spec_unpack(bytes, n);
        assert(words.drop_last() =~= spec_unpack(bytes, m));
        assert(spec_pack(words) =~= bytes.subrange(0, 16 * m) + bytes.subrange(16 * m, 16 * n));
        assert(spec_pack(words) =~= bytes.subrange(0, 16 * n));
    } else {
        assert(spec_pack(spec_unpack(bytes, n)) =~= bytes.subrange(0, 0));
    }
}

/// Appends `words` to `out`, sixteen bytes each.
pub fn pack(words: &Vec<u128>, out: &mut Vec<u8>)
    ensures
        final(out)@ == old(out)@ + spec_pack(words@),
{
    let ghost before = out@;
    let mut i: usize = 0;
    assert(out@ =~= before + spec_pack(words@.subrange(0, 0)));
    while i < words.len()
        invariant
            i <= words.len(),
            out@ == before + spec_pack(words@.subrange(0, i as int)),
        decreases words.len() - i,
    {
        let mut bytes = u128_to_le_bytes(words[i]);
        out.append(&mut bytes);
        proof {
            let next = words@.subrange(0, i as int + 1);
            assert(next.drop_last() =~= words@.subrange(0, i as int));
            assert(next.last() == words@[i as int]);
            assert(out@ =~= before + spec_pack(next));
        }
        i = i + 1;
    }
    assert(words@.subrange(0, i as int) =~= words@);
}

/// Reads the first `n` words of `bytes`.
pub fn unpack(bytes: &[u8], n: usize) -> (words: Vec<u128>)
    requires
        16 * n <= bytes@.len(),
    ensures
        words@ == spec_unpack(bytes@, n as int),
{
    let mut words: Vec<u128> = Vec::new();
    let mut i: usize = 0;
    let len: usize = bytes.len();
    while i < n
        invariant
            i <= n,
            16 * n <= bytes@.len() == len,
            words@ == spec_unpack(bytes@, i as int),
        decreases n - i,
    {
        let word = u128_from_le_bytes(slice_subrange(bytes, 16 * i, 16 * i + 16));
        words.push(word);
        i = i + 1;
    }
    words
}

/// The number of words in the fixed part of an encoded extrinsic.
pub const HEADER_WORDS: usize = 13;

/// The number of bytes before the payload: the shape and the words.
pub const HEADER_BYTES: usize = 209;

/// The three words of an era: whether it is mortal, then birth and period.
pub open spec fn spec_era_words(era: Era) -> (u128, u128, u128) {
    match era {
        Era::Immortal => (0, 0, 0),
        Era::Mortal { birth, period } => (1, birth as u128, period as u128),
    }
}

/// The word of a dispatch class.
pub open spec fn spec_class_word(class: DispatchClass) -> u128 {
    match class {
        DispatchClass::Normal => 0,
        DispatchClass::Operational => 1,
        DispatchClass::Mandatory => 2,
    }
}

/// The three words of a destination: whether there is one, then its parts.
pub open spec fn spec_destination_words(to: Option<Address>) -> (u128, u128, u128) {
    match to {
        None => (0, 0, 0),
        Some(a) => (1, a.head as u128, a.tail),
    }
}

/// The words of a native extrinsic are in the range of their fields, and an
/// immortal era is followed by zeros.
pub open spec fn spec_native_words_ok(w: Seq<u128>) -> bool {
    &&& w.len() == 13
    &&& w[2] <= u32::MAX
    &&& w[3] <= u32::MAX
    &&& (w[6] == 0 && w[7] == 0 && w[8] == 0) || (w[6] == 1 && w[7] <= u32::MAX && w[8]
        <= u32::MAX)
    &&& w[9] <= u32::MAX
    &&& w[10] <= 2
    &&& w[11] <= u64::MAX
    &&& w[12] <= u64::MAX
}

/// The words of an Ethereum transaction are in the range of their fields,
/// and a missing destination is followed by zeros.
pub open spec fn spec_ethereum_words_ok(w: Seq<u128>) -> bool {
    &&& w.len() == 13
    &&& w[0] <= u32::MAX
    &&& w[2] <= u64::MAX
    &&& (w[3] == 0 && w[4] == 0 && w[5] == 0) || (w[3] == 1 && w[4] <= u32::MAX)
    &&& w[7] <= u64::MAX
    &&& w[8] <= u64::MAX
}

impl NativeExtrinsic {
    /// The fixed fields as words.
    pub open spec fn spec_words(self) -> Seq<u128> {
        seq![
            self.signer.high,
            self.signer.low,
            self.extra.spec_version as u128,
            self.extra.transaction_version as u128,
            self.extra.genesis_hash.high,
            self.extra.genesis_hash.low,
            spec_era_words(self.extra.era).0,
            spec_era_words(self.extra.era).1,
            spec_era_words(self.extra.era).2,
            self.extra.nonce as u128,
            spec_class_word(self.class),
            self.weight.ref_time as u128,
            self.weight.proof_size as u128,
        ]
    }

    fn words(&self) -> (w: Vec<u128>)
        ensures
            w@ == self.spec_words(),
    {
        let (era, birth, period): (u128, u128, u128) = match self.extra.era {
            Era::Immortal => (0, 0, 0),
            Era::Mortal { birth, period } => (1, birth as u128, period as u128),
        };
        let class: u128 = match self.class {
            DispatchClass::Normal => 0,
            DispatchClass::Operational => 1,
            DispatchClass::Mandatory => 2,
        };
        let w = vec![
            self.signer.high,
            self.signer.low,
            self.extra.spec_version as u128,
            self.extra.transaction_version as u128,
            self.extra.genesis_hash.high,
            self.extra.genesis_hash.low,
            era,
            birth,
            period,
            self.extra.nonce as u128,
            class,
            self.weight.ref_time as u128,
            self.weight.proof_size as u128,
        ];
        assert(w@ =~= self.spec_words());
        w
    }

    fn from_words(w: &Vec<u128>, payload: Vec<u8>) -> (r: Option<NativeExtrinsic>)
        ensures
            r is Some == spec_native_words_ok(w@),
            r is Some ==> r.unwrap().spec_words() == w@ && r.unwrap().call@ == payload@,
    {
        if w.len() != 13 {
            return None;
        }
        let small: u128 = u32::MAX as u128;
        let large: u128 = u64::MAX as u128;
        let era = if w[6] == 0 && w[7] == 0 && w[8] == 0 {
            Era::Immortal
        } else if w[6] == 1 && w[7] <= small && w[8] <= small {
            Era::Mortal { birth: w[7] as u32, period: w[8] as u32 }
        } else {
            return None;
        };
        let class = if w[10] == 0 {
            DispatchClass::Normal
        } else if w[10] == 1 {
            DispatchClass::Operational
        } else if w[10] == 2 {
            DispatchClass::Mandatory
        } else {
            return None;
        };
        if w[2] > small || w[3] > small || w[9] > small || w[11] > large || w[12] > large {
            return None;
        }
        let x = NativeExtrinsic {
            signer: AccountId { high: w[0], low: w[1] },
            call: payload,
            extra: SignedExtra {
                spec_version: w[2] as u32,
                transaction_version: w[3] as u32,
                genesis_hash: H256 { high: w[4], low: w[5] },
                era,
                nonce: w[9] as u32,
            },
            class,
            weight: Weight { ref_time: w[11] as u64, proof_size: w[12] as u64 },
        };
        assert(x.spec_words() =~= w@);
        Some(x)
    }
}

impl EthereumTransaction {
    /// The fixed fields as words.
    pub open spec fn spec_words(self) -> Seq<u128> {
        seq![
            self.nonce as u128,
            self.gas_price,
            self.gas_limit as u128,
            spec_destination_words(self.to).0,
            spec_destination_words(self.to).1,
            spec_destination_words(self.to).2,
            self.value,
            self.chain_id as u128,
            self.signature.v as u128,
            self.signature.r.high,
            self.signature.r.low,
            self.signature.s.high,
            self.signature.s.low,
        ]
    }

    fn words(&self) -> (w: Vec<u128>)
        ensures
            w@ == self.spec_words(),
    {
        let (some, head, tail): (u128, u128, u128) = match self.to {
            None => (0, 0, 0),
            Some(a) => (1, a.head as u128, a.tail),
        };
        let w = vec![
            self.nonce as u128,
            self.gas_price,
            self.gas_limit as u128,
            some,
            head,
            tail,
            self.value,
            self.chain_id as u128,
            self.signature.v as u128,
            self.signature.r.high,
            self.signature.r.low,
            self.signature.s.high,
            self.signature.s.low,
        ];
        assert(w@ =~= self.spec_words());
        w
    }

    fn from_words(w: &Vec<u128>, payload: Vec<u8>) -> (r: Option<EthereumTransaction>)
        ensures
            r is Some == spec_ethereum_words_ok(w@),
            r is Some ==> r.unwrap().spec_words() == w@ && r.unwrap().data@ == payload@,
    {
        if w.len() != 13 {
            return None;
        }
        let small: u128 = u32::MAX as u128;
        let large: u128 = u64::MAX as u128;
        let to = if w[3] == 0 && w[4] == 0 && w[5] == 0 {
            None
        } else if w[3] == 1 && w[4] <= small {
            Some(Address { head: w[4] as u32, tail: w[5] })
        } else {
            return None;
        };
        if w[0] > small || w[2] > large || w[7] > large || w[8] > large {
            return None;
        }
        let t = EthereumTransaction {
            nonce: w[0] as u32,
            gas_price: w[1],
            gas_limit: w[2] as u64,
            to,
            value: w[6],
            data: payload,
            chain_id: w[7] as u64,
            signature: EthereumSignature {
                v: w[8] as u64,
                r: H256 { high: w[9], low: w[10] },
                s: H256 { high: w[11], low: w[12] },
            },
        };
        assert(t.spec_words() =~= w@);
        Some(t)
    }
}

impl Extrinsic {
    /// The byte that tells the shape.
    pub open spec fn spec_tag(self) -> u8 {
        match self {
            Extrinsic::Native(_) => 0,
            Extrinsic::SelfContained(_) => 1,
        }
    }

    /// The fixed fields as words.
    pub open spec fn spec_words(self) -> Seq<u128> {
        match self {
            Extrinsic::Native(x) => x.spec_words(),
            Extrinsic::SelfContained(t) => t.spec_words(),
        }
    }

    /// The bytes of variable length: the call, or the transaction's data.
    pub open spec fn spec_payload(self) -> Seq<u8> {
        match self {
            Extrinsic::Native(x) => x.call@,
            Extrinsic::SelfContained(t) => t.data@,
        }
    }

    /// The encoding: the shape, the words, the payload.
    pub open spec fn spec_encode(self) -> Seq<u8> {
        seq![self.spec_tag()] + spec_pack(self.spec_words()) + self.spec_payload()
    }

    /// The two extrinsics hold the same values.
    pub open spec fn spec_same(self, other: Extrinsic) -> bool {
        &&& self.spec_tag() == other.spec_tag()
        &&& self.spec_words() == other.spec_words()
        &&& self.spec_payload() == other.spec_payload()
    }

    /// The bytes that stand for this extrinsic.
    pub fn encode(&self) -> (out: Vec<u8>)
        ensures
            out@ == self.spec_encode(),
    {
        let mut out: Vec<u8> = Vec::new();
        match self {
            Extrinsic::Native(x) => {
                out.push(0);
                let w = x.words();
                pack(&w, &mut out);
                let ghost head = out@;
                out.extend_from_slice(x.call.as_slice());
                assert(out@ =~= head + x.call@);
            },
            Extrinsic::SelfContained(t) => {
                out.push(1);
                let w = t.words();
                pack(&w, &mut out);
                let ghost head = out@;
                out.extend_from_slice(t.data.as_slice());
                assert(out@ =~= head + t.data@);
            },
        }
        assert(out@ =~= self.spec_encode());
        out
    }

    /// The extrinsic that `bytes` stand for. Bytes that no extrinsic encodes
    /// to are refused.
    pub fn decode(bytes: &[u8]) -> (r: Option<Extrinsic>)
        ensures
            match r {
                Some(x) => x.spec_encode() == bytes@,
                None => forall|y: Extrinsic| #[trigger] y.spec_encode() != bytes@,
            },
    {
        let len: usize = bytes.len();
        proof {
            assert forall|y: Extrinsic| #[trigger] y.spec_encode() == bytes@ implies len >= 209
                && bytes@[0] == y.spec_tag() && spec_unpack(bytes@.subrange(1, len as int), 13)
                == y.spec_words() && bytes@.subrange(209, len as int) == y.spec_payload() by {
                lemma_encoding_parts(y);
            }
        }
        if len < 209 {
            return None;
        }
        let rest = slice_subrange(bytes, 1, len);
        let w = unpack(rest, 13);
        let payload = slice_to_vec(slice_subrange(bytes, 209, len));
        proof {
            lemma_pack_unpack(rest@, 13);
            lemma_unpack_len(rest@, 13);
            assert(bytes@ =~= seq![bytes@[0]] + rest@.subrange(0, 208) + payload@);
            assert forall|y: NativeExtrinsic| true implies spec_native_words_ok(
                #[trigger] y.spec_words(),
            ) by {}
            assert forall|t: EthereumTransaction| true implies spec_ethereum_words_ok(
                #[trigger] t.spec_words(),
            ) by {}
        }
        if bytes[0] == 0 {
            match NativeExtrinsic::from_words(&w, payload) {
                Some(x) => Some(Extrinsic::Native(x)),
                None => {
                    assert forall|y: Extrinsic| #[trigger] y.spec_encode() != bytes@ by {
                        if y.spec_encode() == bytes@ {
                            assert(y is Native);
                            assert(spec_native_words_ok(y->Native_0.spec_words()));
                        }
                    }
                    None
                },
            }
        } else if bytes[0] == 1 {
            match EthereumTransaction::from_words(&w, payload) {
                Some(t) => Some(Extrinsic::SelfContained(t)),
                None => {
                    assert forall|y: Extrinsic| #[trigger] y.spec_encode() != bytes@ by {
                        if y.spec_encode() == bytes@ {
                            assert(y is SelfContained);
                            assert(spec_ethereum_words_ok(y->SelfContained_0.spec_words()));
                        }
                    }
                    None
                },
            }
        } else {
            None
        }
    }
}

/// Where the parts of an extrinsic stand in its encoding.
pub proof fn lemma_encoding_parts(x: Extrinsic)
    ensures
        x.spec_encode().len() == 209 + x.spec_payload().len(),
        x.spec_encode()[0] == x.spec_tag(),
        spec_unpack(x.spec_encode().subrange(1, x.spec_encode().len() as int), 13)
            == x.spec_words(),
        x.spec_encode().subrange(209, x.spec_encode().len() as int) == x.spec_payload(),
{
    let e = x.spec_encode();
    let w = x.spec_words();
    assert(w.len() == 13);
    lemma_pack_len(w);
    lemma_unpack_pack(w, x.spec_payload());
    assert(e.subrange(1, e.len() as int) =~= spec_pack(w) + x.spec_payload());
    assert(e.subrange(209, e.len() as int) =~= x.spec_payload());
}

/// Encoding loses nothing: extrinsics with the same bytes hold the same
/// values, so decoding an encoding gives the extrinsic back.
pub proof fn lemma_encoding_injective(x: Extrinsic, y: Extrinsic)
    requires
        x.spec_encode() == y.spec_encode(),
    ensures
        x.spec_same(y),
{
    lemma_encoding_parts(x);
    lemma_encoding_parts(y);
}

} // verus!
