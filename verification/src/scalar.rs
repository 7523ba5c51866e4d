//! Base-field scalars, modelled by their canonical little-endian encoding.
//!
//! The layer never computes field arithmetic itself: a scalar is carried as
//! its 32 canonical bytes, whose little-endian integer value is the
//! mathematical model. The one field operation the layer needs, negation,
//! is delegated to `dusk_bls12_381`.

use vstd::prelude::*;

verus! {

/// `dusk_bls12_381`'s base-field element type, opaque to this crate.
#[verifier::external_type_specification]
#[verifier::external_body]
pub struct ExBlsScalar(dusk_bls12_381::BlsScalar);

/// `dusk_jubjub`'s embedded-curve scalar type, opaque to this crate.
#[verifier::external_type_specification]
#[verifier::external_body]
pub struct ExJubJubScalar(dusk_jubjub::JubJubScalar);

/// `dusk_jubjub`'s affine embedded-curve point type, opaque to this crate.
#[verifier::external_type_specification]
#[verifier::external_body]
pub struct ExJubJubAffine(dusk_jubjub::JubJubAffine);

/// Little-endian integer value of a byte string.
pub open spec fn le_val(s: Seq<u8>) -> nat
    decreases s.len(),
{
    if s.len() == 0 {
        0
    } else {
        s[0] as nat + 256 * le_val(s.drop_first())
    }
}

/// Order of the BLS12-381 scalar field.
pub open spec fn scalar_modulus() -> nat {
    (((0x73eda753299d7d48 * 0x10000000000000000 + 0x3339d80809a1d805) * 0x10000000000000000
        + 0x53bda402fffe5bfe) * 0x10000000000000000 + 0xffffffff00000001) as nat
}

/// Field negation on the mathematical model.
pub open spec fn neg_val(v: nat) -> nat
    recommends
        v < scalar_modulus(),
{
    if v == 0 {
        0
    } else {
        (scalar_modulus() - v) as nat
    }
}

/// A base-field scalar, held as its canonical little-endian encoding.
#[derive(Clone, Copy)]
pub struct Scalar {
    bytes: [u8; 32],
}

impl View for Scalar {
    type V = nat;

    /// The mathematical value of the scalar.
    closed spec fn view(&self) -> nat {
        le_val(self.bytes@)
    }
}

/// Appending a zero byte does not change the little-endian value.
proof fn lemma_le_val_push_zero(s: Seq<u8>)
    ensures
        le_val(s.push(0u8)) == le_val(s),
    decreases s.len(),
{
    if s.len() == 0 {
        assert(s.push(0u8).drop_first() =~= Seq::<u8>::empty());
        assert(s.push(0u8)[0] == 0u8);
        assert(le_val(s.push(0u8)) == 0u8 as nat + 256 * le_val(Seq::<u8>::empty()));
    } else {
        assert(s.push(0u8).drop_first() =~= s.drop_first().push(0u8));
        lemma_le_val_push_zero(s.drop_first());
        assert(s.push(0u8)[0] == s[0]);
        assert(le_val(s.push(0u8)) == s[0] as nat + 256 * le_val(s.drop_first().push(0u8)));
    }
}

impl Scalar {
    /// The encoding is canonical: its value lies below the field order.
    pub closed spec fn wf(&self) -> bool {
        le_val(self.bytes@) < scalar_modulus()
    }

    /// The additive identity: all bytes zero.
    pub fn zero() -> (r: Scalar)
        ensures
            r@ == 0,
            r.wf(),
    {
        let bytes: [u8; 32] = [
            0u8, 0u8, 0u8, 0u8, 0u8, 0u8, 0u8, 0u8, 0u8, 0u8, 0u8, 0u8, 0u8, 0u8, 0u8, 0u8,
            0u8, 0u8, 0u8, 0u8, 0u8, 0u8, 0u8, 0u8, 0u8, 0u8, 0u8, 0u8, 0u8, 0u8, 0u8, 0u8,
        ];
        proof {
            lemma_all_zero_le_val(bytes@);
        }
        Scalar { bytes }
    }

    /// Embeds a machine word; every `u64` lies below the field order.
    pub fn from_u64(v: u64) -> (r: Scalar)
        ensures
            r@ == v as nat,
            r.wf(),
    {
        let bytes: [u8; 32] = [
            (v & 0xff) as u8,
            ((v >> 8) & 0xff) as u8,
            ((v >> 16) & 0xff) as u8,
            ((v >> 24) & 0xff) as u8,
            ((v >> 32) & 0xff) as u8,
            ((v >> 40) & 0xff) as u8,
            ((v >> 48) & 0xff) as u8,
            ((v >> 56) & 0xff) as u8,
            0u8, 0u8, 0u8, 0u8, 0u8, 0u8, 0u8, 0u8,
            0u8, 0u8, 0u8, 0u8, 0u8, 0u8, 0u8, 0u8,
            0u8, 0u8, 0u8, 0u8, 0u8, 0u8, 0u8, 0u8,
        ];
        proof {
            lemma_from_u64_le_val(v, bytes@);
        }
        Scalar { bytes }
    }

    /// Field negation.
    ///
    /// Relies on `dusk_bls12_381::BlsScalar`'s `Neg`: for a canonical
    /// element `v` it returns the canonical encoding of `0` when `v == 0`
    /// and of `modulus - v` otherwise; `from_bytes` accepts every canonical
    /// encoding and `to_bytes` yields one.
    #[verifier::external_body]
    pub fn neg(&self) -> (r: Scalar)
        requires
            self.wf(),
        ensures
            r@ == neg_val(self@),
            r.wf(),
    {
        let s = dusk_bls12_381::BlsScalar::from_bytes(&self.bytes).unwrap();
        Scalar { bytes: (-s).to_bytes() }
    }

    /// The canonical little-endian encoding of the scalar.
    pub fn to_bytes(&self) -> (r: [u8; 32])
        ensures
            le_val(r@) == self@,
    {
        self.bytes
    }
}

/// A byte string of zeros has value zero.
proof fn lemma_all_zero_le_val(s: Seq<u8>)
    requires
        forall|i: int| 0 <= i < s.len() ==> s[i] == 0u8,
    ensures
        le_val(s) == 0,
    decreases s.len(),
{
    if s.len() > 0 {
        lemma_all_zero_le_val(s.drop_first());
    }
}

/// The eight little-endian bytes of a `u64`, zero-extended to 32 bytes,
/// encode exactly its value.
proof fn lemma_from_u64_le_val(v: u64, s: Seq<u8>)
    requires
        s.len() == 32,
        s[0] == (v & 0xff) as u8,
        s[1] == ((v >> 8) & 0xff) as u8,
        s[2] == ((v >> 16) & 0xff) as u8,
        s[3] == ((v >> 24) & 0xff) as u8,
        s[4] == ((v >> 32) & 0xff) as u8,
        s[5] == ((v >> 40) & 0xff) as u8,
        s[6] == ((v >> 48) & 0xff) as u8,
        s[7] == ((v >> 56) & 0xff) as u8,
        forall|i: int| 8 <= i < 32 ==> s[i] == 0u8,
    ensures
        le_val(s) == v as nat,
        le_val(s) < scalar_modulus(),
{
    let low = seq![
        (v & 0xff) as u8,
        ((v >> 8) & 0xff) as u8,
        ((v >> 16) & 0xff) as u8,
        ((v >> 24) & 0xff) as u8,
        ((v >> 32) & 0xff) as u8,
        ((v >> 40) & 0xff) as u8,
        ((v >> 48) & 0xff) as u8,
        ((v >> 56) & 0xff) as u8,
    ];
    lemma_extend_zero(low, 32);
    let v1 = v >> 8;
    let v2 = v >> 16;
    let v3 = v >> 24;
    let v4 = v >> 32;
    let v5 = v >> 40;
    let v6 = v >> 48;
    let v7 = v >> 56;
    assert((v & 0xff) == v % 256 && (v >> 8) == v / 256) by (bit_vector);
    assert((v1 & 0xff) == v1 % 256 && (v1 >> 8) == v1 / 256 && (v >> 8) >> 8 == v >> 16)
        by (bit_vector);
    assert((v2 & 0xff) == v2 % 256 && (v2 >> 8) == v2 / 256 && (v >> 16) >> 8 == v >> 24)
        by (bit_vector);
    assert((v3 & 0xff) == v3 % 256 && (v3 >> 8) == v3 / 256 && (v >> 24) >> 8 == v >> 32)
        by (bit_vector);
    assert((v4 & 0xff) == v4 % 256 && (v4 >> 8) == v4 / 256 && (v >> 32) >> 8 == v >> 40)
        by (bit_vector);
    assert((v5 & 0xff) == v5 % 256 && (v5 >> 8) == v5 / 256 && (v >> 40) >> 8 == v >> 48)
        by (bit_vector);
    assert((v6 & 0xff) == v6 % 256 && (v6 >> 8) == v6 / 256 && (v >> 48) >> 8 == v >> 56)
        by (bit_vector);
    assert((v >> 56) < 256 && ((v >> 56) & 0xff) == (v >> 56)) by (bit_vector);
    assert(le_val(low) == v as nat) by {
        reveal_with_fuel(le_val, 9);
        assert(low.drop_first() =~= low.subrange(1, 8));
        assert(low.subrange(1, 8).drop_first() =~= low.subrange(2, 8));
        assert(low.subrange(2, 8).drop_first() =~= low.subrange(3, 8));
        assert(low.subrange(3, 8).drop_first() =~= low.subrange(4, 8));
        assert(low.subrange(4, 8).drop_first() =~= low.subrange(5, 8));
        assert(low.subrange(5, 8).drop_first() =~= low.subrange(6, 8));
        assert(low.subrange(6, 8).drop_first() =~= low.subrange(7, 8));
        assert(low.subrange(7, 8).drop_first() =~= Seq::<u8>::empty());
        assert(le_val(low.subrange(7, 8)) == v7 as nat);
        assert(le_val(low.subrange(6, 8)) == v6 as nat);
        assert(le_val(low.subrange(5, 8)) == v5 as nat);
        assert(le_val(low.subrange(4, 8)) == v4 as nat);
        assert(le_val(low.subrange(3, 8)) == v3 as nat);
        assert(le_val(low.subrange(2, 8)) == v2 as nat);
        assert(le_val(low.subrange(1, 8)) == v1 as nat);
    }
    assert(s =~= extend_zero(low, 32));
    assert((v as nat) < scalar_modulus());
}

/// Pads a byte string with zeros up to the given length.
pub open spec fn extend_zero(s: Seq<u8>, n: nat) -> Seq<u8>
    recommends
        s.len() <= n,
    decreases n - s.len(),
{
    if s.len() >= n {
        s
    } else {
        extend_zero(s.push(0u8), n)
    }
}

proof fn lemma_extend_zero(s: Seq<u8>, n: nat)
    requires
        s.len() <= n,
    ensures
        le_val(extend_zero(s, n)) == le_val(s),
        extend_zero(s, n).len() == n,
        forall|i: int| 0 <= i < s.len() ==> extend_zero(s, n)[i] == s[i],
        forall|i: int| s.len() <= i < n ==> extend_zero(s, n)[i] == 0u8,
    decreases n - s.len(),
{
    if s.len() < n {
        lemma_le_val_push_zero(s);
        lemma_extend_zero(s.push(0u8), n);
        assert(extend_zero(s, n) == extend_zero(s.push(0u8), n));
        assert forall|i: int| 0 <= i < s.len() implies extend_zero(s, n)[i] == s[i] by {
            assert(extend_zero(s.push(0u8), n)[i] == s.push(0u8)[i]);
        }
        assert forall|i: int| s.len() <= i < n implies extend_zero(s, n)[i] == 0u8 by {
            if i == s.len() {
                assert(extend_zero(s.push(0u8), n)[i] == s.push(0u8)[i]);
            } else {
                assert(extend_zero(s.push(0u8), n)[i] == 0u8);
            }
        }
    }
}

/// Carries a `dusk_bls12_381` base-field element into this crate's model.
///
/// Relies on `dusk_bls12_381::BlsScalar::to_bytes`: the canonical (below
/// the field order) little-endian encoding of the element.
#[verifier::external_body]
pub fn scalar_from_bls(s: &dusk_bls12_381::BlsScalar) -> (r: Scalar)
    ensures
        r.wf(),
{
    Scalar { bytes: s.to_bytes() }
}

/// Embeds an embedded-curve scalar into the base field by its canonical
/// integer representative.
///
/// Relies on `dusk_jubjub`'s `From<Fr> for BlsScalar`: it reads the
/// scalar's canonical bytes back as a base-field element, so the value is
/// kept and stays below both field orders.
#[verifier::external_body]
pub fn scalar_from_jubjub(s: &dusk_jubjub::JubJubScalar) -> (r: Scalar)
    ensures
        r.wf(),
{
    let embedded: dusk_bls12_381::BlsScalar = (*s).into();
    Scalar { bytes: embedded.to_bytes() }
}

/// The x-coordinate of the embedded curve's fixed generator point.
///
/// Relies on `dusk_jubjub::GENERATOR` and the canonical `to_bytes`
/// encoding of its `get_u` coordinate.
#[verifier::external_body]
pub fn generator_x() -> (r: Scalar)
    ensures
        r.wf(),
{
    Scalar { bytes: dusk_jubjub::GENERATOR.get_u().to_bytes() }
}

/// The y-coordinate of the embedded curve's fixed generator point.
///
/// Relies on `dusk_jubjub::GENERATOR` and the canonical `to_bytes`
/// encoding of its `get_v` coordinate.
#[verifier::external_body]
pub fn generator_y() -> (r: Scalar)
    ensures
        r.wf(),
{
    Scalar { bytes: dusk_jubjub::GENERATOR.get_v().to_bytes() }
}

/// The `u`-coordinate (conventionally the x-coordinate) of an affine
/// embedded-curve point.
///
/// Relies on `dusk_jubjub::JubJubAffine::get_u` and the canonical
/// `to_bytes` encoding of the returned base-field element.
#[verifier::external_body]
pub fn affine_x(p: &dusk_jubjub::JubJubAffine) -> (r: Scalar)
    ensures
        r.wf(),
{
    Scalar { bytes: p.get_u().to_bytes() }
}

/// The `v`-coordinate (conventionally the y-coordinate) of an affine
/// embedded-curve point.
///
/// Relies on `dusk_jubjub::JubJubAffine::get_v` and the canonical
/// `to_bytes` encoding of the returned base-field element.
#[verifier::external_body]
pub fn affine_y(p: &dusk_jubjub::JubJubAffine) -> (r: Scalar)
    ensures
        r.wf(),
{
    Scalar { bytes: p.get_v().to_bytes() }
}

} // verus!
