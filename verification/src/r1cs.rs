//! The parsed rank-1 constraint-system description, and an independent
//! check that an assignment satisfies every constraint of it.
//!
//! A constraint `(a . w) * (b . w) = (c . w)` is satisfied by an assignment
//! `w` when the equation holds in the field, that is, modulo the system's
//! prime. The check here works on the description and the assignment alone.

use vstd::prelude::*;
use vstd::arithmetic::div_mod::lemma_mod_equivalence;
use crate::bigint::bigint_add;
use crate::bigint::bigint_eq;
use crate::bigint::bigint_from_u64;
use crate::bigint::bigint_lt;
use crate::bigint::bigint_mul;
use crate::bigint::bigint_rem_euclid;
use crate::bigint::bigint_sub;
use crate::bigint::bigint_value;

verus! {

/// One linear term of a constraint: the wire it reads and its coefficient.
#[derive(Debug, PartialEq)]
pub struct LinTerm {
    pub wire: usize,
    pub coeff: num_bigint::BigInt,
}

/// One rank-1 constraint, three linear combinations over the wires.
#[derive(Debug, PartialEq)]
pub struct Constraint {
    pub a: Vec<LinTerm>,
    pub b: Vec<LinTerm>,
    pub c: Vec<LinTerm>,
}

/// A parsed constraint-system description: the field's prime modulus, the
/// number of wires (index 0 conventionally carries the constant one), the
/// constraints, and an optional signal-to-wire mapping.
#[derive(Debug, PartialEq)]
pub struct R1cs {
    pub prime: num_bigint::BigInt,
    pub num_wires: usize,
    pub constraints: Vec<Constraint>,
    pub wire_mapping: Option<Vec<usize>>,
}

/// Every term reads a wire below `n`.
pub open spec fn terms_in_bounds(terms: Seq<LinTerm>, n: nat) -> bool {
    forall|i: int| 0 <= i < terms.len() ==> (#[trigger] terms[i]).wire < n
}

/// The value of a linear combination under an assignment, as an integer.
pub open spec fn lc_value(terms: Seq<LinTerm>, w: Seq<num_bigint::BigInt>) -> int
    decreases terms.len(),
{
    if terms.len() == 0 {
        0
    } else {
        lc_value(terms.drop_last(), w) + bigint_value(terms.last().coeff) * bigint_value(
            w[terms.last().wire as int],
        )
    }
}

/// A constraint holds under an assignment when its equation holds modulo
/// the prime `p`.
pub open spec fn constraint_holds(c: Constraint, w: Seq<num_bigint::BigInt>, p: int) -> bool {
    (lc_value(c.a@, w) * lc_value(c.b@, w)) % p == lc_value(c.c@, w) % p
}

/// `i` is the first constraint of `r` that `w` violates.
pub open spec fn is_first_unsatisfied(r: R1cs, w: Seq<num_bigint::BigInt>, i: int) -> bool {
    &&& 0 <= i < r.constraints@.len()
    &&& !constraint_holds(r.constraints@[i], w, bigint_value(r.prime))
    &&& forall|j: int|
        0 <= j < i ==> constraint_holds(#[trigger] r.constraints@[j], w, bigint_value(r.prime))
}

impl Constraint {
    /// Every term of the constraint reads a wire below `n`.
    pub open spec fn wf(self, n: nat) -> bool {
        terms_in_bounds(self.a@, n) && terms_in_bounds(self.b@, n) && terms_in_bounds(self.c@, n)
    }
}

impl R1cs {
    /// A usable description: a positive prime field modulus, and no
    /// constraint reading a wire outside the layout.
    pub open spec fn wf(self) -> bool {
        &&& bigint_value(self.prime) > 0
        &&& forall|i: int|
            0 <= i < self.constraints@.len() ==> (#[trigger] self.constraints@[i]).wf(
                self.num_wires as nat,
            )
    }

    /// The assignment `w` satisfies every constraint of the system.
    pub open spec fn satisfied_by(self, w: Seq<num_bigint::BigInt>) -> bool {
        forall|i: int|
            0 <= i < self.constraints@.len() ==> constraint_holds(
                #[trigger] self.constraints@[i],
                w,
                bigint_value(self.prime),
            )
    }

    /// Two descriptions of the same system: same modulus, same wire
    /// layout, and the same constraints in the same order.
    pub open spec fn same_system(self, other: R1cs) -> bool {
        &&& bigint_value(self.prime) == bigint_value(other.prime)
        &&& self.num_wires == other.num_wires
        &&& self.constraints@.len() == other.constraints@.len()
        &&& forall|i: int|
            0 <= i < self.constraints@.len() ==> {
                &&& (#[trigger] self.constraints@[i]).a@ == other.constraints@[i].a@
                &&& self.constraints@[i].b@ == other.constraints@[i].b@
                &&& self.constraints@[i].c@ == other.constraints@[i].c@
            }
    }

    /// Decides well-formedness, so that unverified callers can establish it
    /// at run time before building.
    pub fn wf_check(&self) -> (r: bool)
        ensures
            r == self.wf(),
    {
        let zero = bigint_from_u64(0);
        if !bigint_lt(&zero, &self.prime) {
            return false;
        }
        let mut i: usize = 0;
        while i < self.constraints.len()
            invariant
                i <= self.constraints@.len(),
                bigint_value(self.prime) > 0,
                forall|j: int|
                    0 <= j < i ==> (#[trigger] self.constraints@[j]).wf(self.num_wires as nat),
            decreases self.constraints@.len() - i,
        {
            let c = &self.constraints[i];
            let ok = terms_bounded(&c.a, self.num_wires) && terms_bounded(&c.b, self.num_wires)
                && terms_bounded(&c.c, self.num_wires);
            if !ok {
                return false;
            }
            i = i + 1;
        }
        true
    }

    /// Returns the index of the first constraint the assignment violates,
    /// or `None` when the assignment satisfies the whole system.
    pub fn first_unsatisfied(&self, w: &Vec<num_bigint::BigInt>) -> (r: Option<usize>)
        requires
            self.wf(),
            w@.len() == self.num_wires,
        ensures
            match r {
                Option::None => self.satisfied_by(w@),
                Option::Some(i) => is_first_unsatisfied(*self, w@, i as int),
            },
    {
        let mut i: usize = 0;
        while i < self.constraints.len()
            invariant
                i <= self.constraints@.len(),
                self.wf(),
                w@.len() == self.num_wires,
                forall|j: int|
                    0 <= j < i ==> constraint_holds(
                        #[trigger] self.constraints@[j],
                        w@,
                        bigint_value(self.prime),
                    ),
            decreases self.constraints@.len() - i,
        {
            if !constraint_satisfied(&self.constraints[i], w, &self.prime) {
                return Some(i);
            }
            i = i + 1;
        }
        None
    }

    /// Copies the shape of the system — modulus, wire count, constraints —
    /// and leaves the signal-to-wire mapping out, as a setup-only circuit
    /// requires.
    pub fn setup_clone(&self) -> (r: R1cs)
        ensures
            r.same_system(*self),
            r.prime == self.prime,
            r.wire_mapping is None,
    {
        let mut constraints: Vec<Constraint> = Vec::new();
        let mut i: usize = 0;
        while i < self.constraints.len()
            invariant
                i <= self.constraints@.len(),
                constraints@.len() == i,
                forall|j: int|
                    0 <= j < i ==> {
                        &&& (#[trigger] constraints@[j]).a@ == self.constraints@[j].a@
                        &&& constraints@[j].b@ == self.constraints@[j].b@
                        &&& constraints@[j].c@ == self.constraints@[j].c@
                    },
            decreases self.constraints@.len() - i,
        {
            let c = &self.constraints[i];
            let copy = Constraint {
                a: clone_terms(&c.a),
                b: clone_terms(&c.b),
                c: clone_terms(&c.c),
            };
            constraints.push(copy);
            i = i + 1;
        }
        R1cs {
            prime: self.prime.clone(),
            num_wires: self.num_wires,
            constraints,
            wire_mapping: None,
        }
    }
}

/// Copies a linear combination, term for term.
fn clone_terms(v: &Vec<LinTerm>) -> (r: Vec<LinTerm>)
    ensures
        r@ == v@,
{
    let mut out: Vec<LinTerm> = Vec::new();
    let mut i: usize = 0;
    while i < v.len()
        invariant
            i <= v.len(),
            out@ == v@.subrange(0, i as int),
        decreases v.len() - i,
    {
        let t = &v[i];
        out.push(LinTerm { wire: t.wire, coeff: t.coeff.clone() });
        proof {
            assert(out@ =~= v@.subrange(0, i as int + 1));
        }
        i = i + 1;
    }
    proof {
        assert(v@.subrange(0, v@.len() as int) =~= v@);
    }
    out
}

/// Decides whether every term reads a wire below `n`.
fn terms_bounded(terms: &Vec<LinTerm>, n: usize) -> (r: bool)
    ensures
        r == terms_in_bounds(terms@, n as nat),
{
    let mut i: usize = 0;
    while i < terms.len()
        invariant
            i <= terms@.len(),
            forall|j: int| 0 <= j < i ==> (#[trigger] terms@[j]).wire < n,
        decreases terms@.len() - i,
    {
        if terms[i].wire >= n {
            return false;
        }
        i = i + 1;
    }
    true
}

/// Evaluates a linear combination over the assignment, exactly.
fn eval_lc(terms: &Vec<LinTerm>, w: &Vec<num_bigint::BigInt>) -> (r: num_bigint::BigInt)
    requires
        terms_in_bounds(terms@, w@.len() as nat),
    ensures
        bigint_value(r) == lc_value(terms@, w@),
{
    let mut acc = bigint_from_u64(0);
    let mut i: usize = 0;
    while i < terms.len()
        invariant
            i <= terms@.len(),
            terms_in_bounds(terms@, w@.len() as nat),
            bigint_value(acc) == lc_value(terms@.subrange(0, i as int), w@),
        decreases terms@.len() - i,
    {
        let t = &terms[i];
        let prod = bigint_mul(&t.coeff, &w[t.wire]);
        acc = bigint_add(&acc, &prod);
        proof {
            let sub = terms@.subrange(0, i as int + 1);
            assert(sub.drop_last() =~= terms@.subrange(0, i as int));
            assert(sub.last() == terms@[i as int]);
        }
        i = i + 1;
    }
    proof {
        assert(terms@.subrange(0, terms@.len() as int) =~= terms@);
    }
    acc
}

/// Decides whether one constraint holds under the assignment, by checking
/// that the two sides of its equation are congruent modulo the prime.
fn constraint_satisfied(c: &Constraint, w: &Vec<num_bigint::BigInt>, p: &num_bigint::BigInt) -> (r:
    bool)
    requires
        c.wf(w@.len() as nat),
        bigint_value(*p) > 0,
    ensures
        r == constraint_holds(*c, w@, bigint_value(*p)),
{
    let la = eval_lc(&c.a, w);
    let lb = eval_lc(&c.b, w);
    let lc = eval_lc(&c.c, w);
    let lhs = bigint_mul(&la, &lb);
    let diff = bigint_sub(&lhs, &lc);
    let rem = bigint_rem_euclid(&diff, p);
    let zero = bigint_from_u64(0);
    let r = bigint_eq(&rem, &zero);
    proof {
        lemma_mod_equivalence(
            lc_value(c.a@, w@) * lc_value(c.b@, w@),
            lc_value(c.c@, w@),
            bigint_value(*p),
        );
    }
    r
}

/// Satisfaction reads only the shape of a system: two descriptions of the
/// same system are satisfied by exactly the same assignments, and are
/// well-formed together.
pub proof fn lemma_same_system_satisfaction(x: R1cs, y: R1cs, w: Seq<num_bigint::BigInt>)
    requires
        x.same_system(y),
    ensures
        x.satisfied_by(w) == y.satisfied_by(w),
        x.wf() == y.wf(),
        forall|i: int|
            0 <= i < x.constraints@.len() ==> (constraint_holds(
                #[trigger] x.constraints@[i],
                w,
                bigint_value(x.prime),
            ) == constraint_holds(y.constraints@[i], w, bigint_value(y.prime))),
{
    assert forall|i: int| 0 <= i < x.constraints@.len() implies (constraint_holds(
        x.constraints@[i],
        w,
        bigint_value(x.prime),
    ) == constraint_holds(y.constraints@[i], w, bigint_value(y.prime)) && (x.constraints@[i].wf(
        x.num_wires as nat,
    ) == y.constraints@[i].wf(y.num_wires as nat))) by {
        assert(x.constraints@[i].a@ == y.constraints@[i].a@);
        assert(x.constraints@[i].b@ == y.constraints@[i].b@);
        assert(x.constraints@[i].c@ == y.constraints@[i].c@);
    }
}

/// Setup purity: shape agreement is symmetric and carries across a shared
/// source, so any two circuits set up from one configuration agree in
/// shape, whatever inputs were pushed beforehand.
pub proof fn lemma_same_system_shared_source(a: R1cs, b: R1cs, source: R1cs)
    requires
        a.same_system(source),
        b.same_system(source),
    ensures
        a.same_system(b),
{
}

} // verus!
