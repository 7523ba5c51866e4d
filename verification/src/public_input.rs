//! Encoding of domain-level public values into base-field scalars.

use vstd::prelude::*;

use crate::scalar::{affine_x, affine_y, scalar_from_bls, scalar_from_jubjub, Scalar};

verus! {

/// One logical public input, converted into its ordered base-field scalar
/// representation: one scalar for a base-field or embedded-curve scalar,
/// two (x-coordinate then y-coordinate) for an affine embedded-curve point.
#[derive(Clone)]
pub struct PublicInputValue(pub(crate) Vec<Scalar>);

impl View for PublicInputValue {
    type V = Seq<nat>;

    /// The ordered mathematical values of the encoded scalars.
    closed spec fn view(&self) -> Seq<nat> {
        self.0@.map_values(|s: Scalar| s@)
    }
}

impl PublicInputValue {
    /// Every encoded scalar is canonical.
    pub closed spec fn wf(&self) -> bool {
        forall|i: int| 0 <= i < self.0@.len() ==> (#[trigger] self.0@[i]).wf()
    }

    /// Encodes a base-field scalar: a single element.
    pub fn from_bls(s: &dusk_bls12_381::BlsScalar) -> (r: Self)
        ensures
            r@.len() == 1,
            r.wf(),
    {
        let v = scalar_from_bls(s);
        let r = PublicInputValue(vec![v]);
        proof {
            assert(r.0@ =~= seq![v]);
        }
        r
    }

    /// Encodes an embedded-curve scalar: a single element, the canonical
    /// embedding into the base field.
    pub fn from_jubjub_scalar(s: &dusk_jubjub::JubJubScalar) -> (r: Self)
        ensures
            r@.len() == 1,
            r.wf(),
    {
        let v = scalar_from_jubjub(s);
        let r = PublicInputValue(vec![v]);
        proof {
            assert(r.0@ =~= seq![v]);
        }
        r
    }

    /// Encodes an affine embedded-curve point: exactly two elements, the
    /// x-coordinate followed by the y-coordinate.
    pub fn from_jubjub_affine(p: &dusk_jubjub::JubJubAffine) -> (r: Self)
        ensures
            r@.len() == 2,
            r.wf(),
    {
        let x = affine_x(p);
        let y = affine_y(p);
        let r = PublicInputValue(vec![x, y]);
        proof {
            assert(r.0@ =~= seq![x, y]);
        }
        r
    }

    /// Builds a public input directly from already-encoded scalars.
    pub fn from_scalars(scalars: Vec<Scalar>) -> (r: Self)
        requires
            forall|i: int| 0 <= i < scalars@.len() ==> (#[trigger] scalars@[i]).wf(),
        ensures
            r@ == scalars@.map_values(|s: Scalar| s@),
            r.wf(),
    {
        PublicInputValue(scalars)
    }

    /// The `j`-th encoded scalar.
    pub fn scalar_at(&self, j: usize) -> (r: Scalar)
        requires
            (j as nat) < self@.len(),
        ensures
            r@ == self@[j as int],
            self.wf() ==> r.wf(),
    {
        self.0[j]
    }

    /// How many base-field scalars this value contributes to the flat
    /// public-input vector.
    pub fn scalar_count(&self) -> (n: usize)
        ensures
            n == self@.len(),
    {
        self.0.len()
    }
}

} // verus!
