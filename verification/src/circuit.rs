//! The circuit contract and the compilation / proving / verification
//! pipeline around it.
//!
//! A circuit describes its relation once, by emitting gates into a fresh
//! [`Composer`]; compilation runs that routine twice — once to shape the
//! proving key, once to shape the verifying key — and records where the
//! declared public inputs landed. The contract on [`Circuit::gadget`] makes
//! the soundness-critical symmetry explicit: on a fresh composer the
//! routine must always emit the sequence of gates, wire assignments and
//! public-input positions given by the circuit's own shape functions, so
//! the two passes — and the later proving pass — cannot drift apart.

use vstd::prelude::*;

use crate::composer::{gate_views, lemma_positions_bounded, Composer, GateModel};
use crate::error::{Error, RejectReason};
use crate::public_input::PublicInputValue;
use crate::scalar::{neg_val, Scalar};

verus! {

/// The per-value scalar sequences of a list of public inputs, in
/// declaration order.
pub open spec fn views_of(vs: Seq<PublicInputValue>) -> Seq<Seq<nat>> {
    vs.map_values(|p: PublicInputValue| p@)
}

/// Flattens the declared public inputs in declaration order.
pub open spec fn flat_values(vs: Seq<Seq<nat>>) -> Seq<nat>
    decreases vs.len(),
{
    if vs.len() == 0 {
        Seq::empty()
    } else {
        flat_values(vs.drop_last()) + vs.last()
    }
}

/// Every public input holds only canonical scalars.
pub open spec fn all_wf(vs: Seq<PublicInputValue>) -> bool {
    forall|i: int| 0 <= i < vs.len() ==> (#[trigger] vs[i]).wf()
}

/// The flat public-input vector: zero-filled of length `n`, then, in
/// lockstep order, the negation of the `k`-th flattened scalar written at
/// position `pos[k]`.
pub open spec fn spec_build_pi(flat: Seq<nat>, pos: Seq<usize>, n: nat) -> Seq<nat>
    recommends
        flat.len() == pos.len(),
    decreases flat.len(),
{
    if flat.len() == 0 || pos.len() == 0 {
        Seq::<nat>::new(n, |i: int| 0)
    } else {
        spec_build_pi(flat.drop_last(), pos.drop_last(), n).update(
            pos.last() as int,
            neg_val(flat.last()),
        )
    }
}

/// Declared values and recorded positions line up: the flattening yields
/// exactly one scalar per position, and every position lies inside the
/// vector.
pub open spec fn structure_ok(vs: Seq<PublicInputValue>, pos: Seq<usize>, n: nat) -> bool {
    &&& flat_values(views_of(vs)).len() == pos.len()
    &&& forall|i: int| 0 <= i < pos.len() ==> ((#[trigger] pos[i]) as nat) < n
}

/// Scattering one more pair updates one more slot.
proof fn lemma_spec_build_pi_step(flat: Seq<nat>, pos: Seq<usize>, n: nat, k: int)
    requires
        0 <= k,
        k + 1 <= flat.len(),
        k + 1 <= pos.len(),
    ensures
        spec_build_pi(flat.take(k + 1), pos.take(k + 1), n) == spec_build_pi(
            flat.take(k),
            pos.take(k),
            n,
        ).update(pos[k] as int, neg_val(flat[k])),
{
    assert(flat.take(k + 1).drop_last() =~= flat.take(k));
    assert(pos.take(k + 1).drop_last() =~= pos.take(k));
    assert(flat.take(k + 1).last() == flat[k]);
    assert(pos.take(k + 1).last() == pos[k]);
}

/// The mathematical values of a sequence of scalars.
pub open spec fn vals_of(s: Seq<Scalar>) -> Seq<nat> {
    s.map_values(|x: Scalar| x@)
}

/// Taking values commutes with appending.
pub proof fn lemma_vals_push(s: Seq<Scalar>, v: Scalar)
    ensures
        vals_of(s.push(v)) == vals_of(s).push(v@),
{
    assert(vals_of(s.push(v)) =~= vals_of(s).push(v@));
}

/// Taking values commutes with an in-range update.
proof fn lemma_vals_update(s: Seq<Scalar>, i: int, v: Scalar)
    requires
        0 <= i < s.len(),
    ensures
        vals_of(s.update(i, v)) == vals_of(s).update(i, v@),
{
    assert(vals_of(s.update(i, v)) =~= vals_of(s).update(i, v@));
}

/// Flattening one more declared value appends its scalars.
proof fn lemma_flat_step(vs: Seq<Seq<nat>>, i: int)
    requires
        0 <= i < vs.len(),
    ensures
        flat_values(vs.take(i + 1)) == flat_values(vs.take(i)) + vs[i],
{
    assert(vs.take(i + 1).drop_last() =~= vs.take(i));
    assert(vs.take(i + 1).last() == vs[i]);
}

/// The flattening is at least as long as any prefix's flattening plus the
/// next value's contribution.
proof fn lemma_flat_len_lower(vs: Seq<Seq<nat>>, i: int)
    requires
        0 <= i < vs.len(),
    ensures
        flat_values(vs).len() >= flat_values(vs.take(i)).len() + vs[i].len(),
    decreases vs.len(),
{
    if i == vs.len() - 1 {
        assert(vs.take(i) =~= vs.drop_last());
    } else {
        lemma_flat_len_lower(vs.drop_last(), i);
        assert(vs.drop_last().take(i) =~= vs.take(i));
        assert(vs.drop_last()[i] == vs[i]);
    }
}

/// Negation convention: one declared scalar `v` at position `p` yields a
/// vector that is the additive identity everywhere except index `p`,
/// which holds the field negation of `v`.
pub proof fn lemma_negation_convention(v: nat, p: usize, n: nat)
    requires
        (p as nat) < n,
    ensures
        spec_build_pi(seq![v], seq![p], n).len() == n,
        spec_build_pi(seq![v], seq![p], n)[p as int] == neg_val(v),
        forall|j: int|
            0 <= j < n && j != (p as int) ==> spec_build_pi(seq![v], seq![p], n)[j] == 0,
{
    reveal_with_fuel(spec_build_pi, 3);
    let one_flat = seq![v];
    let one_pos = seq![p];
    assert(one_flat.drop_last() =~= Seq::<nat>::empty());
    assert(one_pos.drop_last() =~= Seq::<usize>::empty());
    assert(spec_build_pi(one_flat, one_pos, n) == Seq::<nat>::new(n, |i: int| 0).update(
        p as int,
        neg_val(v),
    ));
}

/// Idempotent compilation: the constraint system and position list a
/// compilation pass hands the backend are functions of the circuit
/// instance alone, so compiling equal instances of a circuit kind twice
/// preprocesses identical constraint systems and returns identical
/// position lists. Whether the backend then derives identically-behaving
/// keys from identical systems is the backend's own promise: the keys are
/// opaque to this layer.
pub proof fn lemma_compilation_deterministic<B: ProofBackend, C: Circuit<B>>(c1: C, c2: C)
    requires
        c1 == c2,
    ensures
        c1.shape_gates() == c2.shape_gates(),
        c1.shape_witness() == c2.shape_witness(),
        c1.shape_positions() == c2.shape_positions(),
{
}

/// The transcript tag both compilation passes hand to the backend: the
/// ASCII bytes of `CircuitCompilation`.
pub open spec fn compilation_tag() -> Seq<u8> {
    seq![
        67u8, 105u8, 114u8, 99u8, 117u8, 105u8, 116u8, 67u8, 111u8, 109u8, 112u8, 105u8, 108u8,
        97u8, 116u8, 105u8, 111u8, 110u8,
    ]
}

/// Builds the compilation transcript tag.
pub fn compilation_transcript_tag() -> (t: Vec<u8>)
    ensures
        t@ == compilation_tag(),
{
    let t = vec![
        67u8, 105u8, 114u8, 99u8, 117u8, 105u8, 116u8, 67u8, 111u8, 109u8, 112u8, 105u8, 108u8,
        97u8, 116u8, 105u8, 111u8, 110u8,
    ];
    proof {
        assert(t@ =~= compilation_tag());
    }
    t
}

/// The external cryptographic capability: a commitment scheme's public
/// parameters together with the prover/verifier protocol engines. The
/// artifacts it yields are opaque; this layer only moves them between
/// calls. Nothing is assumed of these operations: every caller in this
/// crate states only what holds whatever they return.
pub trait ProofBackend: Sized {
    /// Key for committing, cut down to one circuit's size.
    type CommitterKey;

    /// Key for opening commitments at verification time.
    type OpenerKey;

    /// Precomputed artifact for generating proofs of one compiled circuit.
    type ProverKey;

    /// Precomputed artifact for checking proofs of one compiled circuit.
    type VerifierKey;

    /// A succinct proof.
    type Proof;

    /// Trims the universal parameters to a circuit-specific key pair;
    /// fails if the requested size exceeds what the parameters support.
    fn trim(&self, trim_size: usize) -> Result<(Self::CommitterKey, Self::OpenerKey), Error>;

    /// Preprocesses the recorded constraint system into a proving key.
    fn preprocess_prover(
        &self,
        cs: &Composer,
        transcript_init: &Vec<u8>,
        ck: &Self::CommitterKey,
    ) -> Result<Self::ProverKey, Error>;

    /// Preprocesses the recorded constraint system into a verifying key.
    fn preprocess_verifier(
        &self,
        cs: &Composer,
        transcript_init: &Vec<u8>,
        ck: &Self::CommitterKey,
    ) -> Result<Self::VerifierKey, Error>;

    /// Produces a proof from the witness-filled constraint system.
    fn prove(
        &self,
        cs: &Composer,
        transcript_init: &Vec<u8>,
        prover_key: &Self::ProverKey,
        ck: &Self::CommitterKey,
    ) -> Result<Self::Proof, Error>;

    /// Serializes the public parameters to a byte buffer.
    fn params_to_bytes(&self) -> Vec<u8>;

    /// Reads public parameters back from a byte buffer; a malformed
    /// buffer is reported, distinguishable from cryptographic rejection.
    fn params_from_bytes(bytes: &Vec<u8>) -> Result<Self, Error>;

    /// Serializes a proving key to a byte buffer.
    fn prover_key_to_bytes(key: &Self::ProverKey) -> Vec<u8>;

    /// Reads a proving key back from a byte buffer.
    fn prover_key_from_bytes(bytes: &Vec<u8>) -> Result<Self::ProverKey, Error>;

    /// Serializes a verifying key to a byte buffer.
    fn verifier_key_to_bytes(key: &Self::VerifierKey) -> Vec<u8>;

    /// Reads a verifying key back from a byte buffer.
    fn verifier_key_from_bytes(bytes: &Vec<u8>) -> Result<Self::VerifierKey, Error>;

    /// Checks a proof against the verifying key and the flat public-input
    /// vector; rejection is a reported outcome, not a fault.
    fn verify(
        &self,
        transcript_init: &Vec<u8>,
        verifier_key: &Self::VerifierKey,
        opener_key: &Self::OpenerKey,
        proof: &Self::Proof,
        public_inputs: &Vec<Scalar>,
    ) -> Result<(), Error>;
}

/// The contract every relation-to-be-proved implements: a gadget-building
/// routine plus the circuit-level constants, with the compilation,
/// public-input-building, proving and verification pipeline provided on
/// top of them.
pub trait Circuit<B: ProofBackend>: Sized {
    /// The circuit's own data is consistent (its scalars are canonical).
    spec fn wf(&self) -> bool;

    /// The public-input positions that one run of the gadget on a fresh
    /// composer declares: the circuit's shape, a function of the instance
    /// alone. Both compilation passes are held to it.
    spec fn shape_positions(&self) -> Seq<usize>;

    /// The models of the gates one run of the gadget on a fresh composer
    /// emits: the constraint system itself, a function of the instance
    /// alone. Every pass is held to it, so the proving-key pass, the
    /// verifying-key pass and the proving pass all hand the backend the
    /// same topology.
    spec fn shape_gates(&self) -> Seq<GateModel>;

    /// The values of the wires one run of the gadget on a fresh composer
    /// allocates, a function of the instance alone.
    spec fn shape_witness(&self) -> Seq<nat>;

    /// Upper bound on the circuit's size, as a specification value.
    spec fn spec_trim_size(&self) -> nat;

    /// The transcript domain tag, as a specification value.
    spec fn spec_transcript_init(&self) -> Seq<u8>;

    /// Upper bound on the circuit's size; commitment-scheme parameters are
    /// trimmed to it.
    fn trim_size(&self) -> (n: usize)
        ensures
            n as nat == self.spec_trim_size(),
    ;

    /// Domain-separation tag that keeps transcripts of distinct circuit
    /// kinds apart.
    fn transcript_init(&self) -> (t: Vec<u8>)
        ensures
            t@ == self.spec_transcript_init(),
    ;

    /// Emits the circuit's constraints and wires into the composer.
    ///
    /// The contract is the symmetry invariant of the whole layer: on a
    /// fresh composer, a successful run emits exactly the sequence of gates of
    /// `shape_gates`, fills exactly the wires of `shape_witness`, declares
    /// exactly the positions of `shape_positions`, stays within
    /// `spec_trim_size`, and leaves the circuit's shape unchanged — so
    /// every pass over a fresh composer builds the same constraint system
    /// and lands the public inputs in the same slots.
    fn gadget(&mut self, composer: &mut Composer) -> (r: Result<(), Error>)
        requires
            old(composer).is_fresh(),
            old(self).wf(),
        ensures
            final(self).wf(),
            final(self).shape_positions() == old(self).shape_positions(),
            final(self).shape_gates() == old(self).shape_gates(),
            final(self).shape_witness() == old(self).shape_witness(),
            final(self).spec_trim_size() == old(self).spec_trim_size(),
            final(self).spec_transcript_init() == old(self).spec_transcript_init(),
            final(composer).wf(),
            r is Ok ==> final(composer).positions_seq() == old(self).shape_positions(),
            r is Ok ==> gate_views(final(composer).gates_seq()) == old(self).shape_gates(),
            r is Ok ==> vals_of(final(composer).witness_seq()) == old(self).shape_witness(),
            r is Ok ==> final(composer).gates_seq().len() <= old(self).spec_trim_size(),
    ;

    /// Compiles the circuit: trims the parameters, runs the gadget once to
    /// shape the proving key and once more, on a second fresh composer, to
    /// shape the verifying key, and returns both keys together with the
    /// recorded public-input positions. By the gadget contract the two
    /// passes record identical positions — the returned list serves both
    /// sides.
    fn compile(&mut self, pub_params: &B) -> (r: Result<
        (B::ProverKey, B::VerifierKey, Vec<usize>),
        Error,
    >)
        requires
            old(self).wf(),
        ensures
            final(self).wf(),
            final(self).shape_positions() == old(self).shape_positions(),
            final(self).shape_gates() == old(self).shape_gates(),
            final(self).shape_witness() == old(self).shape_witness(),
            final(self).spec_trim_size() == old(self).spec_trim_size(),
            final(self).spec_transcript_init() == old(self).spec_transcript_init(),
            r matches Ok(t) ==> t.2@ == old(self).shape_positions(),
            r matches Ok(t) ==> forall|i: int|
                0 <= i < t.2@.len() ==> ((#[trigger] t.2@[i]) as nat) < old(self).spec_trim_size(),
    {
        let ts = self.trim_size();
        let (ck, _opener_key) = pub_params.trim(ts)?;
        let tag = compilation_transcript_tag();

        let mut prover_cs = Composer::new();
        self.gadget(&mut prover_cs)?;
        let prover_positions = prover_cs.pi_positions();
        let prover_key = pub_params.preprocess_prover(&prover_cs, &tag, &ck)?;

        let mut verifier_cs = Composer::new();
        self.gadget(&mut verifier_cs)?;
        let positions = verifier_cs.pi_positions();
        let verifier_key = pub_params.preprocess_verifier(&verifier_cs, &tag, &ck)?;

        proof {
            // Prover/verifier symmetry: both passes built the same
            // constraint system and recorded the same position list.
            assert(gate_views(prover_cs.gates_seq()) == gate_views(verifier_cs.gates_seq()));
            assert(vals_of(prover_cs.witness_seq()) == vals_of(verifier_cs.witness_seq()));
            assert(prover_positions@ == positions@);
            lemma_positions_bounded(&verifier_cs);
        }
        Ok((prover_key, verifier_key, positions))
    }

    /// Builds the flat public-input vector: `trim_size` slots holding the
    /// additive identity, with the negation of each flattened declared
    /// scalar scattered, in lockstep order, to its recorded position.
    fn build_pi(&self, pub_input_values: &Vec<PublicInputValue>, pub_input_pos: &Vec<usize>) -> (r:
        Vec<Scalar>)
        requires
            all_wf(pub_input_values@),
            flat_values(views_of(pub_input_values@)).len() == pub_input_pos@.len(),
            forall|i: int|
                0 <= i < pub_input_pos@.len() ==> ((#[trigger] pub_input_pos@[i]) as nat)
                    < self.spec_trim_size(),
        ensures
            r@.len() == self.spec_trim_size(),
            vals_of(r@) == spec_build_pi(
                flat_values(views_of(pub_input_values@)),
                pub_input_pos@,
                self.spec_trim_size(),
            ),
            forall|i: int| 0 <= i < r@.len() ==> (#[trigger] r@[i]).wf(),
    {
        let ghost fvals = views_of(pub_input_values@);
        let n = self.trim_size();

        let mut flat: Vec<Scalar> = Vec::new();
        let mut i: usize = 0;
        while i < pub_input_values.len()
            invariant
                i <= pub_input_values@.len(),
                fvals == views_of(pub_input_values@),
                all_wf(pub_input_values@),
                vals_of(flat@) == flat_values(fvals.take(i as int)),
                forall|j: int| 0 <= j < flat@.len() ==> (#[trigger] flat@[j]).wf(),
            decreases pub_input_values@.len() - i,
        {
            let piv = &pub_input_values[i];
            let count = piv.scalar_count();
            proof {
                assert(fvals[i as int] == piv@);
                assert(pub_input_values@[i as int].wf());
            }
            let mut j: usize = 0;
            while j < count
                invariant
                    j <= count,
                    i < pub_input_values@.len(),
                    fvals == views_of(pub_input_values@),
                    all_wf(pub_input_values@),
                    count as nat == piv@.len(),
                    piv.wf(),
                    vals_of(flat@) == flat_values(fvals.take(i as int)) + piv@.take(j as int),
                    forall|jj: int| 0 <= jj < flat@.len() ==> (#[trigger] flat@[jj]).wf(),
                decreases count - j,
            {
                let s = piv.scalar_at(j);
                let ghost flat_before = flat@;
                flat.push(s);
                proof {
                    lemma_vals_push(flat_before, s);
                    assert(piv@.take(j as int + 1) =~= piv@.take(j as int).push(piv@[j as int]));
                    assert(vals_of(flat@) =~= flat_values(fvals.take(i as int)) + piv@.take(
                        j as int + 1,
                    ));
                }
                j += 1;
            }
            proof {
                lemma_flat_step(fvals, i as int);
                assert(piv@.take(count as int) =~= piv@);
            }
            i += 1;
        }
        proof {
            assert(fvals.take(pub_input_values@.len() as int) =~= fvals);
        }

        let mut pi: Vec<Scalar> = Vec::new();
        while pi.len() < n
            invariant
                pi@.len() <= n,
                forall|j: int| 0 <= j < pi@.len() ==> (#[trigger] pi@[j])@ == 0,
                forall|j: int| 0 <= j < pi@.len() ==> (#[trigger] pi@[j]).wf(),
            decreases n - pi@.len(),
        {
            pi.push(Scalar::zero());
        }

        let ghost flatv = vals_of(flat@);
        let ghost posv = pub_input_pos@;
        proof {
            assert(vals_of(pi@) =~= spec_build_pi(flatv.take(0), posv.take(0), n as nat));
        }

        let mut k: usize = 0;
        while k < flat.len()
            invariant
                k <= flat@.len(),
                flat@.len() == pub_input_pos@.len(),
                flatv == vals_of(flat@),
                posv == pub_input_pos@,
                pi@.len() == n,
                (n as nat) == self.spec_trim_size(),
                forall|i2: int|
                    0 <= i2 < pub_input_pos@.len() ==> ((#[trigger] pub_input_pos@[i2]) as nat) < (
                    n as nat),
                forall|j: int| 0 <= j < flat@.len() ==> (#[trigger] flat@[j]).wf(),
                vals_of(pi@) == spec_build_pi(flatv.take(k as int), posv.take(k as int), n as nat),
                forall|j: int| 0 <= j < pi@.len() ==> (#[trigger] pi@[j]).wf(),
            decreases flat@.len() - k,
        {
            let p = pub_input_pos[k];
            let value = flat[k];
            let neg = value.neg();
            let ghost pi_before = pi@;
            pi.set(p, neg);
            proof {
                lemma_vals_update(pi_before, p as int, neg);
                lemma_spec_build_pi_step(flatv, posv, n as nat, k as int);
                assert(flatv[k as int] == flat@[k as int]@);
            }
            k += 1;
        }
        proof {
            assert(flatv.take(flat@.len() as int) =~= flatv);
            assert(posv.take(flat@.len() as int) =~= posv);
        }
        pi
    }

    /// Generates a proof: trims the parameters, fills one fresh composer
    /// through the gadget with the witness-carrying instance, and hands
    /// the result, with the proving key, to the backend's prover under
    /// this circuit kind's transcript tag.
    fn gen_proof(&mut self, pub_params: &B, prover_key: &B::ProverKey) -> (r: Result<
        B::Proof,
        Error,
    >)
        requires
            old(self).wf(),
        ensures
            final(self).wf(),
            final(self).shape_positions() == old(self).shape_positions(),
            final(self).shape_gates() == old(self).shape_gates(),
            final(self).shape_witness() == old(self).shape_witness(),
            final(self).spec_trim_size() == old(self).spec_trim_size(),
            final(self).spec_transcript_init() == old(self).spec_transcript_init(),
    {
        let ts = self.trim_size();
        let (ck, _opener_key) = pub_params.trim(ts)?;
        let mut prover_cs = Composer::new();
        self.gadget(&mut prover_cs)?;
        proof {
            // The constraint system handed to the prover is the circuit's
            // shape, filled with this instance's witness.
            assert(gate_views(prover_cs.gates_seq()) == old(self).shape_gates());
            assert(vals_of(prover_cs.witness_seq()) == old(self).shape_witness());
        }
        let tag = self.transcript_init();
        pub_params.prove(&prover_cs, &tag, prover_key, &ck)
    }

    /// Verifies a proof against declared public values: checks that the
    /// values and the recorded positions line up, rebuilds the flat
    /// public-input vector, and delegates to the backend's verifier under
    /// this circuit kind's transcript tag. A structural mismatch is
    /// reported as a rejection of its own kind, never as a panic.
    fn verify_proof(
        &self,
        pub_params: &B,
        verifier_key: &B::VerifierKey,
        proof: &B::Proof,
        pub_input_values: &Vec<PublicInputValue>,
        pub_input_pos: &Vec<usize>,
    ) -> (r: Result<(), Error>)
        requires
            self.wf(),
            all_wf(pub_input_values@),
        ensures
            !structure_ok(pub_input_values@, pub_input_pos@, self.spec_trim_size()) ==> r == Err::<
                (),
                Error,
            >(Error::VerificationReject(RejectReason::StructuralMismatch)),
    {
        let ghost fvals = views_of(pub_input_values@);
        let ts = self.trim_size();

        // Count the flattened scalars, bailing out as soon as they exceed
        // the positions on record.
        let mut k: usize = 0;
        let mut i: usize = 0;
        while i < pub_input_values.len()
            invariant
                i <= pub_input_values@.len(),
                fvals == views_of(pub_input_values@),
                k as nat == flat_values(fvals.take(i as int)).len(),
                k <= pub_input_pos@.len(),
            decreases pub_input_values@.len() - i,
        {
            let count = pub_input_values[i].scalar_count();
            if count > pub_input_pos.len() - k {
                proof {
                    lemma_flat_len_lower(fvals, i as int);
                    assert(fvals[i as int] == pub_input_values@[i as int]@);
                }
                return Err(Error::VerificationReject(RejectReason::StructuralMismatch));
            }
            proof {
                lemma_flat_step(fvals, i as int);
                assert(fvals[i as int] == pub_input_values@[i as int]@);
            }
            k = k + count;
            i += 1;
        }
        proof {
            assert(fvals.take(pub_input_values@.len() as int) =~= fvals);
        }
        if k != pub_input_pos.len() {
            return Err(Error::VerificationReject(RejectReason::StructuralMismatch));
        }

        let mut j: usize = 0;
        while j < pub_input_pos.len()
            invariant
                j <= pub_input_pos@.len(),
                (ts as nat) == self.spec_trim_size(),
                forall|jj: int|
                    0 <= jj < j ==> ((#[trigger] pub_input_pos@[jj]) as nat) < (ts as nat),
            decreases pub_input_pos@.len() - j,
        {
            if pub_input_pos[j] >= ts {
                return Err(Error::VerificationReject(RejectReason::StructuralMismatch));
            }
            j += 1;
        }

        let (_committer_key, opener_key) = pub_params.trim(ts)?;
        let pi = self.build_pi(pub_input_values, pub_input_pos);
        let tag = self.transcript_init();
        pub_params.verify(&tag, verifier_key, &opener_key, proof, &pi)
    }
}

} // verus!
