//! A sample relation that exercises the whole pipeline.
//!
//! The relation: `a + b = c`, `a · b = d`, `a` below `2^6`, `b` below
//! `2^5`, and the embedded curve's generator multiplied by the scalar `e`
//! gives the point `f`. The sum `c`, the product `d`, the generator and
//! `f` are declared public, so the gadget records six public-input
//! positions; its contract proves that every run on a fresh composer
//! records exactly those.

use vstd::prelude::*;

use crate::circuit::{vals_of, Circuit, ProofBackend};
use crate::circuit::lemma_vals_push;
use crate::composer::{gate_views, lemma_gate_views_push, Composer, Gate, GateModel, WitnessPoint};
use crate::error::Error;
use crate::scalar::{generator_x, generator_y, neg_val, Scalar};

verus! {

/// An instance of the sample relation: witness values together with the
/// public values the instance declares.
pub struct TestCircuit {
    /// Witness: first operand, range-constrained below `2^6`.
    pub a: Scalar,
    /// Witness: second operand, range-constrained below `2^5`.
    pub b: Scalar,
    /// Declared public sum `a + b`.
    pub c: Scalar,
    /// Declared public product `a · b`.
    pub d: Scalar,
    /// Witness: embedded-curve scalar, carried as its base-field
    /// embedding.
    pub e: Scalar,
    /// Declared public point `generator · e`: x-coordinate.
    pub f_x: Scalar,
    /// Declared public point `generator · e`: y-coordinate.
    pub f_y: Scalar,
    /// The embedded curve's generator, x-coordinate; carried as instance
    /// data so the circuit's shape can speak of its value.
    pub gen_x: Scalar,
    /// The embedded curve's generator, y-coordinate.
    pub gen_y: Scalar,
}

impl TestCircuit {
    /// Every held scalar is canonical.
    pub open spec fn scalars_wf(&self) -> bool {
        &&& self.a.wf()
        &&& self.b.wf()
        &&& self.c.wf()
        &&& self.d.wf()
        &&& self.e.wf()
        &&& self.f_x.wf()
        &&& self.f_y.wf()
        &&& self.gen_x.wf()
        &&& self.gen_y.wf()
    }
}

impl Default for TestCircuit {
    /// The all-zero instance, used to compile the circuit's shape.
    fn default() -> (r: Self)
        ensures
            r.scalars_wf(),
    {
        let zero = Scalar::zero();
        TestCircuit {
            a: zero,
            b: zero,
            c: zero,
            d: zero,
            e: zero,
            f_x: zero,
            f_y: zero,
            gen_x: generator_x(),
            gen_y: generator_y(),
        }
    }
}

impl<B: ProofBackend> Circuit<B> for TestCircuit {
    open spec fn wf(&self) -> bool {
        self.scalars_wf()
    }

    open spec fn shape_positions(&self) -> Seq<usize> {
        seq![0usize, 3usize, 4usize, 5usize, 7usize, 8usize]
    }

    open spec fn shape_gates(&self) -> Seq<GateModel> {
        seq![
            GateModel::Arith {
                a: 1,
                b: 2,
                o: 0,
                q_m: 0,
                q_l: 1,
                q_r: 1,
                q_o: 0,
                q_c: 0,
                pi: Some(neg_val(self.c@)),
            },
            GateModel::Range { var: 1, bound: 64 },
            GateModel::Range { var: 2, bound: 32 },
            GateModel::Arith {
                a: 1,
                b: 2,
                o: 0,
                q_m: 1,
                q_l: 0,
                q_r: 0,
                q_o: 0,
                q_c: 0,
                pi: Some(neg_val(self.d@)),
            },
            GateModel::Arith {
                a: 3,
                b: 0,
                o: 0,
                q_m: 0,
                q_l: 1,
                q_r: 0,
                q_o: 0,
                q_c: 0,
                pi: Some(neg_val(self.gen_x@)),
            },
            GateModel::Arith {
                a: 4,
                b: 0,
                o: 0,
                q_m: 0,
                q_l: 1,
                q_r: 0,
                q_o: 0,
                q_c: 0,
                pi: Some(neg_val(self.gen_y@)),
            },
            GateModel::EccMul { scalar: 5, base_x: 3, base_y: 4, out_x: 6, out_y: 7 },
            GateModel::Arith {
                a: 6,
                b: 0,
                o: 0,
                q_m: 0,
                q_l: 1,
                q_r: 0,
                q_o: 0,
                q_c: 0,
                pi: Some(neg_val(self.f_x@)),
            },
            GateModel::Arith {
                a: 7,
                b: 0,
                o: 0,
                q_m: 0,
                q_l: 1,
                q_r: 0,
                q_o: 0,
                q_c: 0,
                pi: Some(neg_val(self.f_y@)),
            },
        ]
    }

    open spec fn shape_witness(&self) -> Seq<nat> {
        seq![0nat, self.a@, self.b@, self.gen_x@, self.gen_y@, self.e@, self.f_x@, self.f_y@]
    }

    open spec fn spec_trim_size(&self) -> nat {
        2048
    }

    open spec fn spec_transcript_init(&self) -> Seq<u8> {
        seq![84u8, 101u8, 115u8, 116u8]
    }

    fn trim_size(&self) -> (n: usize) {
        2048
    }

    /// The ASCII bytes of `Test`.
    fn transcript_init(&self) -> (t: Vec<u8>) {
        let t = vec![84u8, 101u8, 115u8, 116u8];
        proof {
            assert(t@ =~= seq![84u8, 101u8, 115u8, 116u8]);
        }
        t
    }

    fn gadget(&mut self, composer: &mut Composer) -> (r: Result<(), Error>) {
        let zero = Scalar::zero();
        let one = Scalar::from_u64(1);
        let nc = self.c.neg();
        let nd = self.d.neg();
        let a = composer.add_input(self.a);
        proof {
            lemma_vals_push(old(composer).witness_seq(), self.a);
        }
        let ghost w1 = composer.witness_seq();
        let b = composer.add_input(self.b);
        proof {
            lemma_vals_push(w1, self.b);
        }
        let z = composer.zero_var();
        // a + b - c = 0, with c declared public.
        let ghost g0 = composer.gates_seq();
        composer.poly_gate(a, b, z, zero, one, one, zero, zero, Some(nc));
        proof {
            lemma_gate_views_push(
                g0,
                Gate::Arith {
                    a,
                    b,
                    o: z,
                    q_m: zero,
                    q_l: one,
                    q_r: one,
                    q_o: zero,
                    q_c: zero,
                    pi: Some(nc),
                },
            );
        }
        // a below 2^6 and b below 2^5.
        let ghost g1 = composer.gates_seq();
        composer.range_gate(a, 64);
        proof {
            lemma_gate_views_push(g1, Gate::Range { var: a, bound: 64 });
        }
        let ghost g2 = composer.gates_seq();
        composer.range_gate(b, 32);
        proof {
            lemma_gate_views_push(g2, Gate::Range { var: b, bound: 32 });
        }
        // a * b - d = 0, with d declared public.
        let ghost g3 = composer.gates_seq();
        composer.poly_gate(a, b, z, one, zero, zero, zero, zero, Some(nd));
        proof {
            lemma_gate_views_push(
                g3,
                Gate::Arith {
                    a,
                    b,
                    o: z,
                    q_m: one,
                    q_l: zero,
                    q_r: zero,
                    q_o: zero,
                    q_c: zero,
                    pi: Some(nd),
                },
            );
        }
        // The generator itself is declared public, constraining its wires.
        let ghost w2 = composer.witness_seq();
        let base = composer.from_public_affine(self.gen_x, self.gen_y);
        proof {
            lemma_vals_push(w2, self.gen_x);
            lemma_vals_push(w2.push(self.gen_x), self.gen_y);
        }
        let ghost w3 = composer.witness_seq();
        let e = composer.add_input(self.e);
        proof {
            lemma_vals_push(w3, self.e);
        }
        // The claimed product point, constrained to be base * e.
        let ghost w4 = composer.witness_seq();
        let out_x = composer.add_input(self.f_x);
        proof {
            lemma_vals_push(w4, self.f_x);
        }
        let ghost w5 = composer.witness_seq();
        let out_y = composer.add_input(self.f_y);
        proof {
            lemma_vals_push(w5, self.f_y);
        }
        let out = WitnessPoint { x: out_x, y: out_y };
        let ghost g6 = composer.gates_seq();
        composer.scalar_mul_gate(e, base, out);
        proof {
            lemma_gate_views_push(
                g6,
                Gate::EccMul { scalar: e, base_x: base.x, base_y: base.y, out_x, out_y },
            );
        }
        // The product point equals the declared public point f.
        composer.assert_equal_public_point(out, self.f_x, self.f_y);
        proof {
            assert(composer.positions_seq() =~= seq![0usize, 3usize, 4usize, 5usize, 7usize, 8usize]);
            assert(gate_views(composer.gates_seq()) =~= <TestCircuit as Circuit<B>>::shape_gates(self));
            assert(vals_of(composer.witness_seq()) =~= <TestCircuit as Circuit<B>>::shape_witness(self));
        }
        Ok(())
    }
}

} // verus!
