//! The builder/configuration layer: a configuration bundling a parsed
//! constraint system with a witness evaluator, a builder accumulating
//! named inputs, and the circuit instances the builder produces.

use vstd::prelude::*;
use crate::bigint::bigint_value;
use crate::errors::BuildError;
use crate::inputs::Inputs;
use crate::r1cs::R1cs;
use crate::r1cs::constraint_holds;
use crate::r1cs::is_first_unsatisfied;
use crate::r1cs::lemma_same_system_satisfaction;
use crate::r1cs::lemma_same_system_shared_source;

verus! {

/// The black-box witness evaluator a configuration carries. Given the
/// named, flattened inputs and a verify-during-computation flag, an
/// implementation returns the full assignment — one value per wire, index
/// 0 conventionally the constant one — or a diagnostic. Nothing is assumed
/// of it here: whatever it replies, the builder checks and reports on its
/// own.
pub trait WitnessEvaluator {
    fn calculate_witness(
        &mut self,
        inputs: Vec<(String, Vec<num_bigint::BigInt>)>,
        sanity_check: bool,
    ) -> Result<Vec<num_bigint::BigInt>, String>;
}

/// The read-only bundle a builder works from: the constraint-system
/// description, the witness evaluator, and the sanity-check flag.
#[derive(Debug)]
pub struct CircomConfig<W> {
    pub r1cs: R1cs,
    pub wtns: W,
    pub sanity_check: bool,
}

/// Accumulates named inputs over a configuration and produces circuit
/// instances on demand.
#[derive(Debug)]
pub struct CircomBuilder<W> {
    pub cfg: CircomConfig<W>,
    pub inputs: Vec<(String, Inputs)>,
}

/// A circuit instance: the constraint-system description, and the computed
/// assignment when the instance was built rather than merely set up.
#[derive(Debug, PartialEq)]
pub struct CircomCircuit {
    pub r1cs: R1cs,
    pub witness: Option<Vec<num_bigint::BigInt>>,
}

/// Some entry of `m` already carries this name.
pub open spec fn contains_name(m: Seq<(String, Inputs)>, name: Seq<char>) -> bool {
    exists|i: int| 0 <= i < m.len() && (#[trigger] m[i]).0@ == name
}

/// What a push leaves behind: the map unchanged when the name is already
/// present, the pair appended otherwise. First write per name wins.
pub open spec fn spec_push_input(
    m: Seq<(String, Inputs)>,
    name: String,
    val: Inputs,
) -> Seq<(String, Inputs)> {
    if contains_name(m, name@) {
        m
    } else {
        m.push((name, val))
    }
}

/// Each name appears at most once.
pub open spec fn names_unique(m: Seq<(String, Inputs)>) -> bool {
    forall|i: int, j: int|
        0 <= i < j < m.len() ==> (#[trigger] m[i]).0@ != (#[trigger] m[j]).0@
}

/// `r` pairs every name of `m`, in order, with the flattening of its value.
pub open spec fn is_flattening(
    r: Seq<(String, Vec<num_bigint::BigInt>)>,
    m: Seq<(String, Inputs)>,
) -> bool {
    &&& r.len() == m.len()
    &&& forall|i: int|
        0 <= i < m.len() ==> (#[trigger] r[i]).0 == m[i].0 && r[i].1@ == m[i].1.flatten_spec()
}

/// Flattens every named input, keeping the names and their order.
pub fn flatten_inputs(inputs: &Vec<(String, Inputs)>) -> (r: Vec<
    (String, Vec<num_bigint::BigInt>),
>)
    ensures
        is_flattening(r@, inputs@),
{
    let mut out: Vec<(String, Vec<num_bigint::BigInt>)> = Vec::new();
    let mut i: usize = 0;
    while i < inputs.len()
        invariant
            i <= inputs@.len(),
            out@.len() == i,
            forall|j: int|
                0 <= j < i ==> (#[trigger] out@[j]).0 == inputs@[j].0 && out@[j].1@
                    == inputs@[j].1.flatten_spec(),
        decreases inputs@.len() - i,
    {
        let entry = &inputs[i];
        out.push((entry.0.clone(), entry.1.flatten()));
        i = i + 1;
    }
    out
}

/// The diagnostic attached when the evaluator's reply has the wrong length.
pub open spec fn witness_length_diagnostic() -> Seq<char> {
    "evaluator returned an assignment whose length is not the wire count"@
}

/// Turns the evaluator's reply into the built circuit: a failure is passed
/// on verbatim, a reply of the wrong length is refused, and when the
/// sanity check is on, an assignment violating the system is refused with
/// the index of the first constraint it breaks.
pub fn finish_build(
    base: CircomCircuit,
    eval_result: Result<Vec<num_bigint::BigInt>, String>,
    sanity_check: bool,
) -> (r: Result<CircomCircuit, BuildError>)
    requires
        base.r1cs.wf(),
    ensures
        match eval_result {
            Result::Err(msg) => r == Err::<CircomCircuit, BuildError>(
                BuildError::WitnessComputation(msg),
            ),
            Result::Ok(w) => {
                if w@.len() != base.r1cs.num_wires {
                    r matches Err(BuildError::WitnessComputation(m)) && m@
                        == witness_length_diagnostic()
                } else if sanity_check && !base.r1cs.satisfied_by(w@) {
                    r matches Err(BuildError::SanityCheckFailure(i)) && is_first_unsatisfied(
                        base.r1cs,
                        w@,
                        i as int,
                    )
                } else {
                    r == Ok::<CircomCircuit, BuildError>(
                        (CircomCircuit { r1cs: base.r1cs, witness: Some(w) }),
                    )
                }
            },
        },
{
    let mut circom = base;
    match eval_result {
        Err(msg) => Err(BuildError::WitnessComputation(msg)),
        Ok(w) => {
            if w.len() != circom.r1cs.num_wires {
                Err(
                    BuildError::WitnessComputation(
                        "evaluator returned an assignment whose length is not the wire count".to_owned(),
                    ),
                )
            } else {
                if sanity_check {
                    if let Some(i) = circom.r1cs.first_unsatisfied(&w) {
                        return Err(BuildError::SanityCheckFailure(i));
                    }
                }
                circom.witness = Some(w);
                Ok(circom)
            }
        },
    }
}

impl<W> CircomConfig<W> {
    /// Bundles an already-loaded witness evaluator with an already-parsed
    /// constraint-system description. The sanity check starts disabled;
    /// the field is public and the caller may toggle it.
    pub fn new(wtns: W, r1cs: R1cs) -> (r: Self)
        ensures
            r.wtns == wtns,
            r.r1cs == r1cs,
            r.sanity_check == false,
    {
        CircomConfig { r1cs, wtns, sanity_check: false }
    }
}

impl<W> CircomBuilder<W> {
    /// A builder over the given configuration, with no inputs yet.
    pub fn new(cfg: CircomConfig<W>) -> (r: Self)
        ensures
            r.cfg == cfg,
            r.inputs@ == Seq::<(String, Inputs)>::empty(),
            names_unique(r.inputs@),
    {
        CircomBuilder { cfg, inputs: Vec::new() }
    }

    /// Records an input under the given name — unless the name is already
    /// taken, in which case nothing changes: the first write per name
    /// wins, and a duplicate push is a silent no-op, never an overwrite.
    pub fn push_input(&mut self, name: String, val: Inputs)
        ensures
            final(self).inputs@ == spec_push_input(old(self).inputs@, name, val),
            final(self).cfg == old(self).cfg,
            names_unique(old(self).inputs@) ==> names_unique(final(self).inputs@),
    {
        let ghost m = self.inputs@;
        let mut i: usize = 0;
        while i < self.inputs.len()
            invariant
                i <= m.len(),
                self.inputs@ == m,
                self.cfg == old(self).cfg,
                forall|j: int| 0 <= j < i ==> (#[trigger] m[j]).0@ != name@,
            decreases m.len() - i,
        {
            if self.inputs[i].0 == name {
                proof {
                    assert(contains_name(m, name@));
                }
                return ;
            }
            i = i + 1;
        }
        proof {
            assert(!contains_name(m, name@));
        }
        self.inputs.push((name, val));
        proof {
            if names_unique(m) {
                assert forall|x: int, y: int|
                    0 <= x < y < self.inputs@.len() implies (#[trigger] self.inputs@[x]).0@ != (
                #[trigger] self.inputs@[y]).0@ by {
                    if y < m.len() as int {
                    } else {
                        assert(self.inputs@[y] == (name, val));
                        assert(self.inputs@[x] == m[x]);
                    }
                }
            }
        }
    }

    /// Produces the assignment-free circuit used for one-time setup: the
    /// configuration's constraint system with the wire mapping discarded
    /// and no witness. The builder's inputs play no part in it.
    pub fn setup(&self) -> (r: CircomCircuit)
        ensures
            r.r1cs.same_system(self.cfg.r1cs),
            r.r1cs.wire_mapping is None,
            r.witness is None,
    {
        CircomCircuit { r1cs: self.cfg.r1cs.setup_clone(), witness: None }
    }
}

impl<W: WitnessEvaluator> CircomBuilder<W> {
    /// Consumes the builder: flattens the named inputs in their insertion
    /// order, asks the evaluator for the full assignment, and assembles
    /// the circuit. Whatever the evaluator replied, a returned circuit
    /// carries the configuration's system without its wire mapping and a
    /// witness of the right length — one that, when the sanity check is
    /// on, satisfies every constraint.
    pub fn build(self) -> (r: Result<CircomCircuit, BuildError>)
        requires
            self.cfg.r1cs.wf(),
        ensures
            r matches Ok(c) ==> {
                &&& c.r1cs.same_system(self.cfg.r1cs)
                &&& c.r1cs.wire_mapping is None
                &&& c.witness matches Some(w) && w@.len() == self.cfg.r1cs.num_wires && (
                self.cfg.sanity_check ==> c.r1cs.satisfied_by(w@))
            },
            r matches Err(BuildError::SanityCheckFailure(i)) ==> self.cfg.sanity_check
                && exists|w: Seq<num_bigint::BigInt>|
                    w.len() == self.cfg.r1cs.num_wires && is_first_unsatisfied(
                        self.cfg.r1cs,
                        w,
                        i as int,
                    ),
    {
        let base = self.setup();
        let flat = flatten_inputs(&self.inputs);
        let mut this = self;
        proof {
            lemma_same_system_satisfaction(base.r1cs, this.cfg.r1cs, Seq::empty());
        }
        let eval_result = this.cfg.wtns.calculate_witness(flat, this.cfg.sanity_check);
        let r = finish_build(base, eval_result, this.cfg.sanity_check);
        proof {
            if r is Ok && r->Ok_0.witness is Some {
                lemma_same_system_satisfaction(base.r1cs, this.cfg.r1cs, r->Ok_0.witness->Some_0@);
            }
            if r is Err && r->Err_0 is SanityCheckFailure {
                let i: int = r->Err_0->SanityCheckFailure_0 as int;
                let w = eval_result->Ok_0@;
                lemma_same_system_satisfaction(base.r1cs, this.cfg.r1cs, w);
                assert(is_first_unsatisfied(base.r1cs, w, i));
                assert forall|j: int| 0 <= j < i implies constraint_holds(
                    #[trigger] this.cfg.r1cs.constraints@[j],
                    w,
                    bigint_value(this.cfg.r1cs.prime),
                ) by {
                    assert(constraint_holds(
                        base.r1cs.constraints@[j],
                        w,
                        bigint_value(base.r1cs.prime),
                    ));
                }
                assert(is_first_unsatisfied(this.cfg.r1cs, w, i));
            }
        }
        r
    }
}

/// Idempotent insert: pushing a name a second time, whatever value the
/// second push carries, changes nothing — the first value stays in effect.
pub proof fn lemma_push_input_idempotent(
    m: Seq<(String, Inputs)>,
    name: String,
    v1: Inputs,
    v2: Inputs,
)
    ensures
        spec_push_input(spec_push_input(m, name, v1), name, v2) == spec_push_input(m, name, v1),
{
    let m1 = spec_push_input(m, name, v1);
    if contains_name(m, name@) {
    } else {
        assert(m1[m.len() as int] == (name, v1));
        assert(contains_name(m1, name@));
    }
}

/// Sanity-check consistency: an assignment that satisfies the system
/// leaves no constraint to report — no index marks a first unsatisfied
/// constraint, so a build over it cannot end in a sanity-check failure.
pub proof fn lemma_sanity_check_consistent(r: R1cs, w: Seq<num_bigint::BigInt>)
    requires
        r.satisfied_by(w),
    ensures
        forall|i: int| !is_first_unsatisfied(r, w, i),
{
}

/// Flattening is deterministic: any two flattenings of one input map
/// agree, name for name and element for element.
pub proof fn lemma_flatten_inputs_deterministic(
    r1: Seq<(String, Vec<num_bigint::BigInt>)>,
    r2: Seq<(String, Vec<num_bigint::BigInt>)>,
    m: Seq<(String, Inputs)>,
)
    requires
        is_flattening(r1, m),
        is_flattening(r2, m),
    ensures
        r1.len() == r2.len(),
        forall|i: int|
            0 <= i < r1.len() ==> (#[trigger] r1[i]).0 == r2[i].0 && r1[i].1@ == r2[i].1@,
{
}

/// Build determinism: a successful build is a function of the system's
/// shape and the evaluator's reply alone — two circuits built from one
/// configuration, whose evaluator replies were element-for-element equal,
/// share the system's shape and hold equal assignment sequences.
pub proof fn lemma_build_deterministic(
    c1: CircomCircuit,
    c2: CircomCircuit,
    source: R1cs,
    w1: Vec<num_bigint::BigInt>,
    w2: Vec<num_bigint::BigInt>,
)
    requires
        c1.r1cs.same_system(source),
        c2.r1cs.same_system(source),
        c1.witness == Some(w1),
        c2.witness == Some(w2),
        w1@ == w2@,
    ensures
        c1.r1cs.same_system(c2.r1cs),
        c1.witness matches Some(x) && c2.witness matches Some(y) && x@ == y@,
{
    lemma_same_system_shared_source(c1.r1cs, c2.r1cs, source);
}

} // verus!
