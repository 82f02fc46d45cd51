//! The persisted envelope: commitment-parameter bytes and public outputs in
//! one length-delimited record.
//!
//! The record has two sections. Each is an eight-byte little-endian length
//! followed by that many bytes. The first section holds the commitment
//! parameters in their own serialization; the second is the concatenation of
//! the 32-byte encodings of the public outputs, in order.

use crate::error::Error;
use crate::field::{is_canonical, FieldElement, FIELD_BYTES};
use vstd::bytes::{
    lemma_auto_spec_u64_to_from_le_bytes, spec_u64_from_le_bytes, spec_u64_to_le_bytes,
};
use vstd::prelude::*;

verus! {

/// One section: the length of `body` as eight little-endian bytes, then `body`.
pub open spec fn section(body: Seq<u8>) -> Seq<u8> {
    spec_u64_to_le_bytes(body.len() as u64) + body
}

/// The record made of two sections.
pub open spec fn frame(params: Seq<u8>, vals: Seq<u8>) -> Seq<u8> {
    section(params) + section(vals)
}

/// Reads one section from the front of `b`: its body and what follows it.
/// `None` when `b` is too short for the length prefix or for the body.
pub open spec fn take_section(b: Seq<u8>) -> Option<(Seq<u8>, Seq<u8>)> {
    if b.len() < 8 {
        None
    } else {
        let n = spec_u64_from_le_bytes(b.subrange(0, 8)) as int;
        if b.len() - 8 < n {
            None
        } else {
            Some((b.subrange(8, 8 + n), b.subrange(8 + n, b.len() as int)))
        }
    }
}

/// Reads a record of two sections from the front of `b`. Bytes after the
/// second section are ignored.
pub open spec fn unframe(b: Seq<u8>) -> Option<(Seq<u8>, Seq<u8>)> {
    match take_section(b) {
        None => None,
        Some((params, rest)) => match take_section(rest) {
            None => None,
            Some((vals, _)) => Some((params, vals)),
        },
    }
}

/// The encodings of `vals` laid end to end.
pub open spec fn concat_elements(vals: Seq<Seq<u8>>) -> Seq<u8>
    decreases vals.len(),
{
    if vals.len() == 0 {
        Seq::empty()
    } else {
        concat_elements(vals.drop_last()) + vals.last()
    }
}

/// The `i`-th 32-byte chunk of `raw`.
pub open spec fn chunk(raw: Seq<u8>, i: int) -> Seq<u8> {
    raw.subrange(32 * i, 32 * i + 32)
}

/// `raw` cut into 32-byte chunks.
pub open spec fn split_elements(raw: Seq<u8>) -> Seq<Seq<u8>> {
    Seq::new((raw.len() / 32) as nat, |i: int| chunk(raw, i))
}

/// Every entry is a canonical field-element encoding.
pub open spec fn all_canonical(vals: Seq<Seq<u8>>) -> bool {
    forall|i: int| 0 <= i < vals.len() ==> is_canonical(#[trigger] vals[i])
}

/// What an envelope holds: the parameter bytes and the encodings of the
/// public outputs.
pub ghost struct EnvelopeView {
    pub params: Seq<u8>,
    pub public_vals: Seq<Seq<u8>>,
}

/// The bytes of the envelope that holds `params` and `vals`.
pub open spec fn encode_envelope(params: Seq<u8>, vals: Seq<Seq<u8>>) -> Seq<u8> {
    frame(params, concat_elements(vals))
}

/// What decoding `b` yields.
pub open spec fn decode_envelope(b: Seq<u8>) -> Result<EnvelopeView, Error> {
    match unframe(b) {
        None => Err(Error::MalformedParameters),
        Some((params, raw)) => if raw.len() % 32 != 0 {
            Err(Error::MalformedParameters)
        } else if !all_canonical(split_elements(raw)) {
            Err(Error::InvalidFieldElement)
        } else {
            Ok(EnvelopeView { params, public_vals: split_elements(raw) })
        },
    }
}

/// The encodings of a sequence of field elements.
pub open spec fn element_views(s: Seq<FieldElement>) -> Seq<Seq<u8>> {
    Seq::new(s.len(), |i: int| s[i]@)
}

/// Calls `bincode::serialize` on the pair of byte vectors. Trusted: with the
/// default options (fixed-width little-endian integers, no size limit) the
/// call cannot fail on byte vectors, and it writes each vector as its length
/// in eight bytes followed by its contents.
#[verifier::external_body]
fn frame_sections(params: &Vec<u8>, vals: &Vec<u8>) -> (r: Option<Vec<u8>>)
    ensures
        r is Some,
        r.unwrap()@ == frame(params@, vals@),
{
    bincode::serialize(&(params, vals)).ok()
}

/// Calls `bincode::deserialize` for a pair of byte vectors. Trusted: the call
/// succeeds exactly when the input starts with two well-formed sections,
/// yields their bodies, and ignores trailing bytes.
#[verifier::external_body]
fn unframe_sections(bytes: &[u8]) -> (r: Option<(Vec<u8>, Vec<u8>)>)
    ensures
        r is Some <==> unframe(bytes@) is Some,
        r matches Some(pair) ==> unframe(bytes@) == Some((pair.0@, pair.1@)),
{
    bincode::deserialize::<(Vec<u8>, Vec<u8>)>(bytes).ok()
}

/// Commitment parameters in serialized form, with the public outputs they
/// were used with.
#[derive(Clone, Debug, PartialEq, Eq)]
pub struct MlParams {
    params: Vec<u8>,
    public_vals: Vec<FieldElement>,
}

impl View for MlParams {
    type V = EnvelopeView;

    closed spec fn view(&self) -> EnvelopeView {
        EnvelopeView { params: self.params@, public_vals: element_views(self.public_vals@) }
    }
}

impl MlParams {
    /// Pairs parameter bytes with public outputs.
    pub fn new(params: Vec<u8>, public_vals: Vec<FieldElement>) -> (r: MlParams)
        ensures
            r@.params == params@,
            r@.public_vals == element_views(public_vals@),
    {
        MlParams { params, public_vals }
    }

    /// The serialized commitment parameters.
    pub fn params(&self) -> (p: &Vec<u8>)
        ensures
            p@ == self@.params,
    {
        &self.params
    }

    /// The public outputs, in order.
    pub fn public_vals(&self) -> (v: &Vec<FieldElement>)
        ensures
            element_views(v@) == self@.public_vals,
    {
        &self.public_vals
    }

    /// Decodes an envelope. Fails with `MalformedParameters` when the record
    /// is truncated or its public-values section is not a whole number of
    /// 32-byte chunks, and with `InvalidFieldElement` when a chunk is not
    /// canonical.
    pub fn from_reader(bytes: &[u8]) -> (r: Result<MlParams, Error>)
        ensures
            r matches Ok(m) ==> decode_envelope(bytes@) == Ok::<EnvelopeView, Error>(m@),
            r matches Err(e) ==> decode_envelope(bytes@) == Err::<EnvelopeView, Error>(e),
    {
        let (params, raw) = match unframe_sections(bytes) {
            None => { return Err(Error::MalformedParameters); },
            Some(pair) => pair,
        };
        if raw.len() % FIELD_BYTES != 0 {
            return Err(Error::MalformedParameters);
        }
        let n: usize = raw.len() / FIELD_BYTES;
        let mut vals: Vec<FieldElement> = Vec::new();
        let mut i: usize = 0;
        while i < n
            invariant
                unframe(bytes@) == Some((params@, raw@)),
                raw.len() % 32 == 0,
                raw.len() == 32 * n,
                i <= n,
                vals.len() == i,
                forall|k: int| 0 <= k < i ==> (#[trigger] vals[k])@ == chunk(raw@, k),
                forall|k: int| 0 <= k < i ==> is_canonical(#[trigger] chunk(raw@, k)),
            decreases n - i,
        {
            let mut buf: [u8; 32] = [0u8; 32];
            let mut j: usize = 0;
            while j < FIELD_BYTES
                invariant
                    raw.len() == 32 * n,
                    i < n,
                    j <= 32,
                    forall|t: int| 0 <= t < j ==> buf@[t] == raw@[32 * i + t],
                decreases 32 - j,
            {
                buf[j] = raw[i * FIELD_BYTES + j];
                j += 1;
            }
            assert(buf@ =~= chunk(raw@, i as int));
            match FieldElement::from_bytes(buf) {
                None => {
                    assert(split_elements(raw@).len() == n);
                    assert(split_elements(raw@)[i as int] == chunk(raw@, i as int));
                    assert(!is_canonical(split_elements(raw@)[i as int]));
                    return Err(Error::InvalidFieldElement);
                },
                Some(f) => {
                    vals.push(f);
                },
            }
            i += 1;
        }
        assert(element_views(vals@) =~= split_elements(raw@));
        Ok(MlParams { params, public_vals: vals })
    }

    /// Encodes the envelope. Encoding cannot fail, and what it yields decodes
    /// to this envelope again.
    pub fn to_vec(&self) -> (r: Result<Vec<u8>, Error>)
        ensures
            r is Ok,
            r.unwrap()@ == encode_envelope(self@.params, self@.public_vals),
            decode_envelope(r.unwrap()@) == Ok::<EnvelopeView, Error>(self@),
    {
        let mut raw: Vec<u8> = Vec::new();
        let mut i: usize = 0;
        while i < self.public_vals.len()
            invariant
                i <= self.public_vals.len(),
                raw@ == concat_elements(self@.public_vals.subrange(0, i as int)),
                forall|k: int| 0 <= k < i ==> is_canonical(#[trigger] self@.public_vals[k]),
            decreases self.public_vals.len() - i,
        {
            let b = self.public_vals[i].to_bytes();
            raw.extend_from_slice(b.as_slice());
            proof {
                let next = self@.public_vals.subrange(0, i + 1);
                assert(next.drop_last() =~= self@.public_vals.subrange(0, i as int));
                assert(next.last() == b@);
            }
            i += 1;
        }
        proof {
            assert(self@.public_vals.subrange(0, i as int) =~= self@.public_vals);
            lemma_split_concat(self@.public_vals);
            assert(self@.params.len() == self.params.len() <= usize::MAX <= u64::MAX);
            assert(32 * self@.public_vals.len() == raw.len() <= usize::MAX <= u64::MAX);
            lemma_envelope_round_trip(self@.params, self@.public_vals);
        }
        match frame_sections(&self.params, &raw) {
            Some(v) => Ok(v),
            None => Err(Error::MalformedParameters),
        }
    }
}

/// A section read back from the front of a byte string is the section that
/// was written there.
pub proof fn lemma_take_section(body: Seq<u8>, rest: Seq<u8>)
    requires
        body.len() <= u64::MAX,
    ensures
        take_section(section(body) + rest) == Some((body, rest)),
{
    lemma_auto_spec_u64_to_from_le_bytes();
    let n = body.len() as u64;
    let b = section(body) + rest;
    assert(b.subrange(0, 8) =~= spec_u64_to_le_bytes(n));
    assert(b.subrange(8, 8 + n) =~= body);
    assert(b.subrange(8 + n, b.len() as int) =~= rest);
}

/// Framing two sections and reading them back gives the two sections.
pub proof fn lemma_unframe_frame(params: Seq<u8>, vals: Seq<u8>)
    requires
        params.len() <= u64::MAX,
        vals.len() <= u64::MAX,
    ensures
        unframe(frame(params, vals)) == Some((params, vals)),
{
    lemma_take_section(params, section(vals));
    lemma_take_section(vals, Seq::empty());
    assert(section(vals) + Seq::<u8>::empty() =~= section(vals));
}

/// Concatenating 32-byte strings and cutting the result into chunks gives
/// the strings back.
pub proof fn lemma_split_concat(vals: Seq<Seq<u8>>)
    requires
        forall|i: int| 0 <= i < vals.len() ==> (#[trigger] vals[i]).len() == 32,
    ensures
        concat_elements(vals).len() == 32 * vals.len(),
        split_elements(concat_elements(vals)) == vals,
    decreases vals.len(),
{
    if vals.len() > 0 {
        let front = vals.drop_last();
        lemma_split_concat(front);
        let all = concat_elements(vals);
        let pre = concat_elements(front);
        assert(all == pre + vals.last());
        assert forall|i: int| 0 <= i < vals.len() implies #[trigger] split_elements(all)[i]
            == vals[i] by {
            if i < front.len() {
                assert(chunk(all, i) =~= chunk(pre, i));
                assert(split_elements(pre)[i] == front[i]);
            } else {
                assert(chunk(all, i) =~= vals.last());
            }
        }
        assert(split_elements(all) =~= vals);
    } else {
        assert(split_elements(concat_elements(vals)) =~= vals);
    }
}

/// Round trip: decoding the envelope that encodes parameter bytes and
/// canonical public outputs yields exactly those bytes and outputs.
pub proof fn lemma_envelope_round_trip(params: Seq<u8>, vals: Seq<Seq<u8>>)
    requires
        params.len() <= u64::MAX,
        32 * vals.len() <= u64::MAX,
        all_canonical(vals),
    ensures
        decode_envelope(encode_envelope(params, vals)) == Ok::<EnvelopeView, Error>(
            EnvelopeView { params, public_vals: vals },
        ),
{
    lemma_split_concat(vals);
    lemma_unframe_frame(params, concat_elements(vals));
}

/// Envelopes that hold different contents differ: equal envelope bytes mean
/// equal parameter bytes and equal public outputs.
pub proof fn lemma_encode_injective(
    params: Seq<u8>,
    vals: Seq<Seq<u8>>,
    other_params: Seq<u8>,
    other_vals: Seq<Seq<u8>>,
)
    requires
        params.len() <= u64::MAX,
        other_params.len() <= u64::MAX,
        32 * vals.len() <= u64::MAX,
        32 * other_vals.len() <= u64::MAX,
        all_canonical(vals),
        all_canonical(other_vals),
        encode_envelope(params, vals) == encode_envelope(other_params, other_vals),
    ensures
        params == other_params,
        vals == other_vals,
{
    lemma_envelope_round_trip(params, vals);
    lemma_envelope_round_trip(other_params, other_vals);
}

} // verus!
