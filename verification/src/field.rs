//! Canonical 32-byte encoding of elements of the BN254 scalar field.

use halo2curves::bn256::Fr;
use vstd::prelude::*;

verus! {

/// Width in bytes of one encoded field element.
pub const FIELD_BYTES: usize = 32;

/// Two to the power 64: the weight of one 64-bit limb.
pub open spec fn limb_base() -> nat {
    0x1_0000_0000_0000_0000
}

/// The order of the scalar field, written limb by limb from the lowest:
/// 0x30644e72e131a029_b85045b68181585d_2833e84879b97091_43e1f593f0000001.
pub open spec fn scalar_modulus() -> nat {
    0x43e1f593f0000001nat + limb_base() * (0x2833e84879b97091nat + limb_base() * (
    0xb85045b68181585dnat + limb_base() * 0x30644e72e131a029nat))
}

/// The number that a little-endian byte string denotes.
pub open spec fn le_value(s: Seq<u8>) -> nat
    decreases s.len(),
{
    if s.len() == 0 {
        0
    } else {
        s[0] as nat + 256 * le_value(s.drop_first())
    }
}

/// A byte string is canonical when it is 32 bytes long and denotes a number
/// below the field's order.
pub open spec fn is_canonical(s: Seq<u8>) -> bool {
    s.len() == 32 && le_value(s) < scalar_modulus()
}

/// Byte strings of one length that denote the same number are the same
/// string: an element has one canonical encoding.
pub proof fn lemma_le_value_injective(a: Seq<u8>, b: Seq<u8>)
    requires
        a.len() == b.len(),
        le_value(a) == le_value(b),
    ensures
        a == b,
    decreases a.len(),
{
    if a.len() > 0 {
        let x = le_value(a.drop_first());
        let y = le_value(b.drop_first());
        assert(a[0] as nat + 256 * x == b[0] as nat + 256 * y);
        assert(a[0] == b[0] && x == y) by (nonlinear_arith)
            requires
                a[0] as nat + 256 * x == b[0] as nat + 256 * y,
                a[0] < 256,
                b[0] < 256,
        ;
        lemma_le_value_injective(a.drop_first(), b.drop_first());
        assert(a =~= seq![a[0]] + a.drop_first());
        assert(b =~= seq![b[0]] + b.drop_first());
    } else {
        assert(a =~= b);
    }
}

/// Calls `halo2curves::bn256::Fr::from_bytes` and reports whether it yielded
/// an element. Trusted: the call accepts exactly the little-endian encodings
/// of numbers below the field's order.
#[verifier::external_body]
fn scalar_decodes(bytes: &[u8; 32]) -> (ok: bool)
    ensures
        ok == is_canonical(bytes@),
{
    bool::from(Fr::from_bytes(bytes).is_some())
}

/// An element of the scalar field, held as its canonical encoding.
#[derive(Clone, Copy, Debug, PartialEq, Eq)]
pub struct FieldElement {
    bytes: [u8; 32],
}

impl View for FieldElement {
    type V = Seq<u8>;

    closed spec fn view(&self) -> Seq<u8> {
        self.bytes@
    }
}

impl FieldElement {
    #[verifier::type_invariant]
    spec fn canonical(self) -> bool {
        is_canonical(self.bytes@)
    }

    /// The number this element stands for.
    pub open spec fn value(self) -> nat {
        le_value(self@)
    }

    /// Decodes 32 bytes; `None` when they are not canonical.
    pub fn from_bytes(bytes: [u8; 32]) -> (r: Option<FieldElement>)
        ensures
            r is Some <==> is_canonical(bytes@),
            r matches Some(f) ==> f@ == bytes@,
    {
        if scalar_decodes(&bytes) {
            Some(FieldElement { bytes })
        } else {
            None
        }
    }

    /// The canonical encoding.
    pub fn to_bytes(&self) -> (b: [u8; 32])
        ensures
            b@ == self@,
            is_canonical(b@),
    {
        proof {
            use_type_invariant(self);
        }
        self.bytes
    }
}

} // verus!
