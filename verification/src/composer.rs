//! A constraint recorder.
//!
//! A full proof system's composition engine arithmetizes gates;
//! this layer only needs the part of that capability it is sound-critical
//! about: the sequence of emitted gates, the wires they touch, and — above
//! all — at which gate indices the circuit declared public inputs. The
//! recorder keeps exactly that, and its invariant ties the position list to
//! its sequence of gates, so a public input can never drift to a wrong slot.

use vstd::prelude::*;

use crate::scalar::{neg_val, Scalar};

verus! {

/// One recorded gate.
#[derive(Clone, Copy)]
pub enum Gate {
    /// The standard arithmetic gate: the verifying equation adds
    /// `q_m·a·b + q_l·a + q_r·b + q_o·o + q_c` and the public-input term
    /// at this gate's index, and demands zero.
    Arith {
        a: usize,
        b: usize,
        o: usize,
        q_m: Scalar,
        q_l: Scalar,
        q_r: Scalar,
        q_o: Scalar,
        q_c: Scalar,
        pi: Option<Scalar>,
    },
    /// Constrains the wire's value to lie strictly below `bound`.
    Range { var: usize, bound: u64 },
    /// Constrains `(out_x, out_y)` to be the embedded-curve point
    /// `(base_x, base_y)` multiplied by the scalar wire.
    EccMul {
        scalar: usize,
        base_x: usize,
        base_y: usize,
        out_x: usize,
        out_y: usize,
    },
}

impl Gate {
    /// Does this gate carry a declared public input?
    pub open spec fn has_pi(self) -> bool {
        match self {
            Gate::Arith { pi, .. } => pi is Some,
            _ => false,
        }
    }

    /// Every wire touched by this gate has been allocated.
    pub open spec fn wires_ok(self, n: nat) -> bool {
        match self {
            Gate::Arith { a, b, o, .. } => (a as nat) < n && (b as nat) < n && (o as nat) < n,
            Gate::Range { var, .. } => (var as nat) < n,
            Gate::EccMul { scalar, base_x, base_y, out_x, out_y } => {
                &&& (scalar as nat) < n
                &&& (base_x as nat) < n
                &&& (base_y as nat) < n
                &&& (out_x as nat) < n
                &&& (out_y as nat) < n
            },
        }
    }

    /// Every scalar held by this gate is canonical.
    pub open spec fn scalars_wf(self) -> bool {
        match self {
            Gate::Arith { q_m, q_l, q_r, q_o, q_c, pi, .. } => {
                &&& q_m.wf()
                &&& q_l.wf()
                &&& q_r.wf()
                &&& q_o.wf()
                &&& q_c.wf()
                &&& (pi matches Some(s) ==> s.wf())
            },
            _ => true,
        }
    }
}

/// The mathematical content of one gate: wires by index, scalars by
/// their field values. Two recorded gate sequences with equal models are
/// the same constraint system.
pub enum GateModel {
    /// Model of an arithmetic gate.
    Arith {
        a: usize,
        b: usize,
        o: usize,
        q_m: nat,
        q_l: nat,
        q_r: nat,
        q_o: nat,
        q_c: nat,
        pi: Option<nat>,
    },
    /// Model of a range constraint.
    Range { var: usize, bound: u64 },
    /// Model of a scalar-multiplication constraint.
    EccMul { scalar: usize, base_x: usize, base_y: usize, out_x: usize, out_y: usize },
}

/// The model of one recorded gate.
pub open spec fn gate_model(g: Gate) -> GateModel {
    match g {
        Gate::Arith { a, b, o, q_m, q_l, q_r, q_o, q_c, pi } => GateModel::Arith {
            a,
            b,
            o,
            q_m: q_m@,
            q_l: q_l@,
            q_r: q_r@,
            q_o: q_o@,
            q_c: q_c@,
            pi: match pi {
                Some(s) => Some(s@),
                None => None,
            },
        },
        Gate::Range { var, bound } => GateModel::Range { var, bound },
        Gate::EccMul { scalar, base_x, base_y, out_x, out_y } => GateModel::EccMul {
            scalar,
            base_x,
            base_y,
            out_x,
            out_y,
        },
    }
}

/// The models of a recorded gate sequence.
pub open spec fn gate_views(gates: Seq<Gate>) -> Seq<GateModel> {
    gates.map_values(|g: Gate| gate_model(g))
}

/// Taking models commutes with appending.
pub proof fn lemma_gate_views_push(gates: Seq<Gate>, g: Gate)
    ensures
        gate_views(gates.push(g)) == gate_views(gates).push(gate_model(g)),
{
    assert(gate_views(gates.push(g)) =~= gate_views(gates).push(gate_model(g)));
}

/// The indices of the gates that carry a declared public input, in gate
/// order.
pub open spec fn pi_gate_indices(gates: Seq<Gate>) -> Seq<usize>
    decreases gates.len(),
{
    if gates.len() == 0 {
        Seq::empty()
    } else if gates.last().has_pi() {
        pi_gate_indices(gates.drop_last()).push((gates.len() - 1) as usize)
    } else {
        pi_gate_indices(gates.drop_last())
    }
}

/// Every recorded position points at an existing gate.
pub proof fn lemma_pi_indices_bounded(gates: Seq<Gate>)
    requires
        gates.len() <= usize::MAX,
    ensures
        forall|i: int|
            0 <= i < pi_gate_indices(gates).len() ==> (#[trigger] pi_gate_indices(
                gates,
            )[i] as nat) < gates.len(),
    decreases gates.len(),
{
    if gates.len() > 0 {
        lemma_pi_indices_bounded(gates.drop_last());
        let prefix = pi_gate_indices(gates.drop_last());
        assert forall|i: int|
            0 <= i < pi_gate_indices(gates).len() implies (#[trigger] pi_gate_indices(
            gates,
        )[i] as nat) < gates.len() by {
            if gates.last().has_pi() {
                assert(pi_gate_indices(gates) == prefix.push((gates.len() - 1) as usize));
                if i < prefix.len() {
                    assert(pi_gate_indices(gates)[i] == prefix[i]);
                }
            } else {
                assert(pi_gate_indices(gates) == prefix);
            }
        }
    }
}

/// In a well-formed composer, every recorded public-input position points
/// at one of its gates.
pub proof fn lemma_positions_bounded(c: &Composer)
    requires
        c.wf(),
    ensures
        forall|i: int|
            0 <= i < c.positions_seq().len() ==> (#[trigger] c.positions_seq()[i] as nat)
                < c.gates_seq().len(),
{
    broadcast use vstd::std_specs::vec::axiom_spec_len;

    assert(c.gates@.len() <= usize::MAX) by {
        assert(c.gates.len() == c.gates@.len());
    }
    lemma_pi_indices_bounded(c.gates@);
}

/// A pair of wires holding an embedded-curve point's coordinates.
#[derive(Clone, Copy)]
pub struct WitnessPoint {
    pub x: usize,
    pub y: usize,
}

/// The recorder handed to a circuit's gadget routine.
pub struct Composer {
    witness: Vec<Scalar>,
    gates: Vec<Gate>,
    positions: Vec<usize>,
}

impl Composer {
    /// The recorded gate sequence.
    pub closed spec fn gates_seq(&self) -> Seq<Gate> {
        self.gates@
    }

    /// The recorded wire assignments.
    pub closed spec fn witness_seq(&self) -> Seq<Scalar> {
        self.witness@
    }

    /// The recorded public-input positions.
    pub closed spec fn positions_seq(&self) -> Seq<usize> {
        self.positions@
    }

    /// The binding invariant: the position list is exactly the list of
    /// gate indices that declared a public input, every wire is allocated,
    /// every scalar canonical, and wire `0` holds zero.
    pub closed spec fn wf(&self) -> bool {
        &&& self.positions@ == pi_gate_indices(self.gates@)
        &&& forall|i: int|
            0 <= i < self.gates@.len() ==> (#[trigger] self.gates@[i]).wires_ok(
                self.witness@.len() as nat,
            )
        &&& forall|i: int| 0 <= i < self.gates@.len() ==> (#[trigger] self.gates@[i]).scalars_wf()
        &&& forall|i: int| 0 <= i < self.witness@.len() ==> (#[trigger] self.witness@[i]).wf()
        &&& self.witness@.len() >= 1
        &&& self.witness@[0]@ == 0
    }

    /// A composer that has recorded nothing yet (beyond the zero wire).
    pub open spec fn is_fresh(&self) -> bool {
        &&& self.wf()
        &&& self.gates_seq().len() == 0
        &&& self.positions_seq().len() == 0
        &&& self.witness_seq().len() == 1
        &&& self.witness_seq()[0]@ == 0
    }

    /// Builds a fresh recorder holding only the zero wire.
    pub fn new() -> (r: Composer)
        ensures
            r.is_fresh(),
    {
        let r = Composer { witness: vec![Scalar::zero()], gates: Vec::new(), positions: Vec::new() };
        proof {
            assert(r.witness@ =~= seq![r.witness@[0]]);
        }
        r
    }

    /// The wire permanently holding the additive identity.
    pub fn zero_var(&self) -> (v: usize)
        requires
            self.wf(),
        ensures
            v == 0,
            (v as nat) < self.witness_seq().len(),
    {
        0
    }

    /// Allocates a wire holding the given value.
    pub fn add_input(&mut self, value: Scalar) -> (v: usize)
        requires
            old(self).wf(),
            value.wf(),
            old(self).witness_seq().len() < usize::MAX,
        ensures
            final(self).wf(),
            v as nat == old(self).witness_seq().len(),
            final(self).witness_seq() == old(self).witness_seq().push(value),
            final(self).gates_seq() == old(self).gates_seq(),
            final(self).positions_seq() == old(self).positions_seq(),
    {
        let v = self.witness.len();
        self.witness.push(value);
        v
    }

    /// Records an arithmetic gate; a `Some` public-input term also records
    /// this gate's index as a public-input position.
    pub fn poly_gate(
        &mut self,
        a: usize,
        b: usize,
        o: usize,
        q_m: Scalar,
        q_l: Scalar,
        q_r: Scalar,
        q_o: Scalar,
        q_c: Scalar,
        pi: Option<Scalar>,
    )
        requires
            old(self).wf(),
            (a as nat) < old(self).witness_seq().len(),
            (b as nat) < old(self).witness_seq().len(),
            (o as nat) < old(self).witness_seq().len(),
            q_m.wf(),
            q_l.wf(),
            q_r.wf(),
            q_o.wf(),
            q_c.wf(),
            pi matches Some(s) ==> s.wf(),
            old(self).gates_seq().len() < usize::MAX,
        ensures
            final(self).wf(),
            final(self).witness_seq() == old(self).witness_seq(),
            final(self).gates_seq() == old(self).gates_seq().push(
                Gate::Arith { a, b, o, q_m, q_l, q_r, q_o, q_c, pi },
            ),
            final(self).positions_seq() == if pi is Some {
                old(self).positions_seq().push(old(self).gates_seq().len() as usize)
            } else {
                old(self).positions_seq()
            },
    {
        let gate = Gate::Arith { a, b, o, q_m, q_l, q_r, q_o, q_c, pi };
        let idx = self.gates.len();
        self.gates.push(gate);
        if pi.is_some() {
            self.positions.push(idx);
        }
        proof {
            assert(self.gates@.drop_last() =~= old(self).gates@);
        }
    }

    /// Records a range constraint: the wire's value lies strictly below
    /// `bound`.
    pub fn range_gate(&mut self, var: usize, bound: u64)
        requires
            old(self).wf(),
            (var as nat) < old(self).witness_seq().len(),
            old(self).gates_seq().len() < usize::MAX,
        ensures
            final(self).wf(),
            final(self).witness_seq() == old(self).witness_seq(),
            final(self).gates_seq() == old(self).gates_seq().push(Gate::Range { var, bound }),
            final(self).positions_seq() == old(self).positions_seq(),
    {
        self.gates.push(Gate::Range { var, bound });
        proof {
            assert(self.gates@.drop_last() =~= old(self).gates@);
        }
    }

    /// Records an embedded-curve scalar-multiplication constraint over
    /// already-allocated wires.
    pub fn scalar_mul_gate(&mut self, scalar: usize, base: WitnessPoint, out: WitnessPoint)
        requires
            old(self).wf(),
            (scalar as nat) < old(self).witness_seq().len(),
            (base.x as nat) < old(self).witness_seq().len(),
            (base.y as nat) < old(self).witness_seq().len(),
            (out.x as nat) < old(self).witness_seq().len(),
            (out.y as nat) < old(self).witness_seq().len(),
            old(self).gates_seq().len() < usize::MAX,
        ensures
            final(self).wf(),
            final(self).witness_seq() == old(self).witness_seq(),
            final(self).gates_seq() == old(self).gates_seq().push(
                Gate::EccMul {
                    scalar,
                    base_x: base.x,
                    base_y: base.y,
                    out_x: out.x,
                    out_y: out.y,
                },
            ),
            final(self).positions_seq() == old(self).positions_seq(),
    {
        self.gates.push(
            Gate::EccMul { scalar, base_x: base.x, base_y: base.y, out_x: out.x, out_y: out.y },
        );
        proof {
            assert(self.gates@.drop_last() =~= old(self).gates@);
        }
    }

    /// Allocates wires for a point whose coordinates are declared public:
    /// each coordinate wire is constrained, through a public-input term, to
    /// equal the declared coordinate.
    pub fn from_public_affine(&mut self, x: Scalar, y: Scalar) -> (p: WitnessPoint)
        requires
            old(self).wf(),
            x.wf(),
            y.wf(),
            old(self).witness_seq().len() + 2 <= usize::MAX,
            old(self).gates_seq().len() + 2 <= usize::MAX,
        ensures
            final(self).wf(),
            final(self).witness_seq() == old(self).witness_seq().push(x).push(y),
            p.x as nat == old(self).witness_seq().len(),
            p.y as nat == old(self).witness_seq().len() + 1,
            final(self).gates_seq().len() == old(self).gates_seq().len() + 2,
            gate_views(final(self).gates_seq()) == gate_views(old(self).gates_seq()).push(
                GateModel::Arith {
                    a: old(self).witness_seq().len() as usize,
                    b: 0,
                    o: 0,
                    q_m: 0,
                    q_l: 1,
                    q_r: 0,
                    q_o: 0,
                    q_c: 0,
                    pi: Some(neg_val(x@)),
                },
            ).push(
                GateModel::Arith {
                    a: (old(self).witness_seq().len() + 1) as usize,
                    b: 0,
                    o: 0,
                    q_m: 0,
                    q_l: 1,
                    q_r: 0,
                    q_o: 0,
                    q_c: 0,
                    pi: Some(neg_val(y@)),
                },
            ),
            final(self).positions_seq() == old(self).positions_seq().push(
                old(self).gates_seq().len() as usize,
            ).push((old(self).gates_seq().len() + 1) as usize),
    {
        let zero = Scalar::zero();
        let one = Scalar::from_u64(1);
        let nx = x.neg();
        let ny = y.neg();
        let wx = self.add_input(x);
        let wy = self.add_input(y);
        let z = self.zero_var();
        let ghost before = self.gates_seq();
        self.poly_gate(wx, z, z, zero, one, zero, zero, zero, Some(nx));
        self.poly_gate(wy, z, z, zero, one, zero, zero, zero, Some(ny));
        proof {
            let g1 = Gate::Arith {
                a: wx,
                b: z,
                o: z,
                q_m: zero,
                q_l: one,
                q_r: zero,
                q_o: zero,
                q_c: zero,
                pi: Some(nx),
            };
            let g2 = Gate::Arith {
                a: wy,
                b: z,
                o: z,
                q_m: zero,
                q_l: one,
                q_r: zero,
                q_o: zero,
                q_c: zero,
                pi: Some(ny),
            };
            lemma_gate_views_push(before, g1);
            lemma_gate_views_push(before.push(g1), g2);
        }
        WitnessPoint { x: wx, y: wy }
    }

    /// Constrains an allocated point to equal a declared public point:
    /// each coordinate is bound through a public-input term.
    pub fn assert_equal_public_point(&mut self, p: WitnessPoint, x: Scalar, y: Scalar)
        requires
            old(self).wf(),
            x.wf(),
            y.wf(),
            (p.x as nat) < old(self).witness_seq().len(),
            (p.y as nat) < old(self).witness_seq().len(),
            old(self).gates_seq().len() + 2 <= usize::MAX,
        ensures
            final(self).wf(),
            final(self).witness_seq() == old(self).witness_seq(),
            final(self).gates_seq().len() == old(self).gates_seq().len() + 2,
            gate_views(final(self).gates_seq()) == gate_views(old(self).gates_seq()).push(
                GateModel::Arith {
                    a: p.x,
                    b: 0,
                    o: 0,
                    q_m: 0,
                    q_l: 1,
                    q_r: 0,
                    q_o: 0,
                    q_c: 0,
                    pi: Some(neg_val(x@)),
                },
            ).push(
                GateModel::Arith {
                    a: p.y,
                    b: 0,
                    o: 0,
                    q_m: 0,
                    q_l: 1,
                    q_r: 0,
                    q_o: 0,
                    q_c: 0,
                    pi: Some(neg_val(y@)),
                },
            ),
            final(self).positions_seq() == old(self).positions_seq().push(
                old(self).gates_seq().len() as usize,
            ).push((old(self).gates_seq().len() + 1) as usize),
    {
        let zero = Scalar::zero();
        let one = Scalar::from_u64(1);
        let nx = x.neg();
        let ny = y.neg();
        let z = self.zero_var();
        let ghost before = self.gates_seq();
        self.poly_gate(p.x, z, z, zero, one, zero, zero, zero, Some(nx));
        self.poly_gate(p.y, z, z, zero, one, zero, zero, zero, Some(ny));
        proof {
            let g1 = Gate::Arith {
                a: p.x,
                b: z,
                o: z,
                q_m: zero,
                q_l: one,
                q_r: zero,
                q_o: zero,
                q_c: zero,
                pi: Some(nx),
            };
            let g2 = Gate::Arith {
                a: p.y,
                b: z,
                o: z,
                q_m: zero,
                q_l: one,
                q_r: zero,
                q_o: zero,
                q_c: zero,
                pi: Some(ny),
            };
            lemma_gate_views_push(before, g1);
            lemma_gate_views_push(before.push(g1), g2);
        }
    }

    /// The number of recorded gates.
    pub fn num_gates(&self) -> (n: usize)
        ensures
            n as nat == self.gates_seq().len(),
    {
        self.gates.len()
    }

    /// The positions of every declared public input, in declaration order.
    pub fn pi_positions(&self) -> (r: Vec<usize>)
        ensures
            r@ == self.positions_seq(),
    {
        let mut r: Vec<usize> = Vec::new();
        let mut i: usize = 0;
        while i < self.positions.len()
            invariant
                i <= self.positions@.len(),
                r@ == self.positions@.take(i as int),
            decreases self.positions@.len() - i,
        {
            r.push(self.positions[i]);
            proof {
                assert(r@ =~= self.positions@.take(i as int + 1));
            }
            i += 1;
        }
        proof {
            assert(r@ =~= self.positions@);
        }
        r
    }

    /// The recorded gates, for a backend's preprocessing and proving.
    pub fn gates(&self) -> (r: &Vec<Gate>)
        ensures
            r@ == self.gates_seq(),
    {
        &self.gates
    }

    /// The recorded wire assignments, for a backend's proving.
    pub fn witness(&self) -> (r: &Vec<Scalar>)
        ensures
            r@ == self.witness_seq(),
    {
        &self.witness
    }
}

} // verus!
