//! Rank-1 constraint systems over the scalar field.
//!
//! A system is a list of constraints `A * B = C`, where `A`, `B` and `C` are
//! linear combinations of wires. An assignment gives every wire a value and
//! satisfies the system when every constraint holds in the field.

use crate::field::{fadd, fmul, modulus, scalar_add, scalar_mul, values, Fe};
use vstd::prelude::*;

verus! {

/// A wire of a constraint system.
#[derive(Clone, Copy, Debug, PartialEq, Eq)]
pub enum Wire {
    /// The constant one.
    One,
    /// A public input, by its index among the public inputs.
    Public(usize),
    /// A private wire, by its index among the private wires.
    Private(usize),
}

/// A wire, with its index as a natural number.
pub enum WireView {
    One,
    Public(nat),
    Private(nat),
}

impl View for Wire {
    type V = WireView;

    open spec fn view(&self) -> WireView {
        match *self {
            Wire::One => WireView::One,
            Wire::Public(i) => WireView::Public(i as nat),
            Wire::Private(i) => WireView::Private(i as nat),
        }
    }
}

/// One summand of a linear combination: a wire scaled by a coefficient.
#[derive(Clone, Copy, Debug)]
pub struct Term {
    pub coeff: Fe,
    pub wire: Wire,
}

/// A summand, with its coefficient as a number.
pub struct TermView {
    pub coeff: nat,
    pub wire: WireView,
}

impl View for Term {
    type V = TermView;

    open spec fn view(&self) -> TermView {
        TermView { coeff: self.coeff@, wire: self.wire@ }
    }
}

/// The views of a sequence of summands, in order.
pub open spec fn terms_view(terms: Seq<Term>) -> Seq<TermView> {
    Seq::new(terms.len(), |i: int| terms[i]@)
}

/// A constraint: the product of the combinations `a` and `b` equals the
/// combination `c`.
#[derive(Debug)]
pub struct Constraint {
    pub a: Vec<Term>,
    pub b: Vec<Term>,
    pub c: Vec<Term>,
}

/// A constraint over sequences of summands.
pub struct ConstraintView {
    pub a: Seq<TermView>,
    pub b: Seq<TermView>,
    pub c: Seq<TermView>,
}

impl View for Constraint {
    type V = ConstraintView;

    open spec fn view(&self) -> ConstraintView {
        ConstraintView { a: terms_view(self.a@), b: terms_view(self.b@), c: terms_view(self.c@) }
    }
}

/// The views of a sequence of constraints, in order.
pub open spec fn constraints_view(constraints: Seq<Constraint>) -> Seq<ConstraintView> {
    Seq::new(constraints.len(), |i: int| constraints[i]@)
}

/// A constraint system: how many public inputs and private wires it has, and
/// its constraints.
#[derive(Debug)]
pub struct System {
    pub public: usize,
    pub private: usize,
    pub constraints: Vec<Constraint>,
}

/// A constraint system as a mathematical object.
pub struct SystemView {
    pub public: nat,
    pub private: nat,
    pub constraints: Seq<ConstraintView>,
}

impl View for System {
    type V = SystemView;

    open spec fn view(&self) -> SystemView {
        SystemView {
            public: self.public as nat,
            private: self.private as nat,
            constraints: constraints_view(self.constraints@),
        }
    }
}

/// A value for every public input and every private wire.
#[derive(Debug)]
pub struct Assignment {
    pub public: Vec<Fe>,
    pub private: Vec<Fe>,
}

/// An assignment as two sequences of numbers.
pub struct AssignmentView {
    pub public: Seq<nat>,
    pub private: Seq<nat>,
}

impl View for Assignment {
    type V = AssignmentView;

    open spec fn view(&self) -> AssignmentView {
        AssignmentView { public: values(self.public@), private: values(self.private@) }
    }
}

impl AssignmentView {
    /// Whether the assignment has a value for the wire.
    pub open spec fn defines(self, wire: WireView) -> bool {
        match wire {
            WireView::One => true,
            WireView::Public(i) => i < self.public.len(),
            WireView::Private(i) => i < self.private.len(),
        }
    }

    /// The value of the wire. The constant wire is one.
    pub open spec fn value(self, wire: WireView) -> nat {
        match wire {
            WireView::One => 1,
            WireView::Public(i) => self.public[i as int],
            WireView::Private(i) => self.private[i as int],
        }
    }

    /// Whether every summand's wire has a value.
    pub open spec fn defines_all(self, terms: Seq<TermView>) -> bool {
        forall|i: int| 0 <= i < terms.len() ==> self.defines(#[trigger] terms[i].wire)
    }

    /// Whether every value is a field element: a number below the modulus.
    pub open spec fn canonical(self) -> bool {
        &&& forall|i: int| 0 <= i < self.public.len() ==> #[trigger] self.public[i] < modulus()
        &&& forall|i: int| 0 <= i < self.private.len() ==> #[trigger] self.private[i] < modulus()
    }
}

/// The value of a linear combination under an assignment: the sum in the
/// field, summand by summand, of coefficient times wire value.
pub open spec fn evaluate(terms: Seq<TermView>, assignment: AssignmentView) -> nat
    decreases terms.len(),
{
    if terms.len() == 0 {
        0
    } else {
        fadd(
            evaluate(terms.drop_last(), assignment),
            fmul(terms.last().coeff, assignment.value(terms.last().wire)),
        )
    }
}

impl ConstraintView {
    /// Whether the assignment has a value for every wire of the constraint
    /// and the product of `a` and `b` equals `c` under it.
    pub open spec fn holds(self, assignment: AssignmentView) -> bool {
        &&& assignment.defines_all(self.a)
        &&& assignment.defines_all(self.b)
        &&& assignment.defines_all(self.c)
        &&& fmul(evaluate(self.a, assignment), evaluate(self.b, assignment)) == evaluate(
            self.c,
            assignment,
        )
    }
}

impl SystemView {
    /// Whether the assignment has the system's numbers of wires and every
    /// constraint holds under it.
    pub open spec fn satisfied_by(self, assignment: AssignmentView) -> bool {
        &&& assignment.public.len() == self.public
        &&& assignment.private.len() == self.private
        &&& forall|k: int|
            0 <= k < self.constraints.len() ==> (#[trigger] self.constraints[k]).holds(assignment)
    }
}

impl Assignment {
    /// The value of a wire, if the assignment has one for it.
    pub fn value(&self, wire: Wire) -> (value: Option<Fe>)
        ensures
            value is Some <==> self@.defines(wire@),
            value is Some ==> value->0@ == self@.value(wire@),
    {
        match wire {
            Wire::One => Some(Fe::from_u64(1)),
            Wire::Public(i) => if i < self.public.len() {
                Some(self.public[i])
            } else {
                None
            },
            Wire::Private(i) => if i < self.private.len() {
                Some(self.private[i])
            } else {
                None
            },
        }
    }

    /// The value of a linear combination, if the assignment has a value for
    /// each of its wires.
    pub fn evaluate(&self, terms: &Vec<Term>) -> (value: Option<Fe>)
        ensures
            value is Some <==> self@.defines_all(terms_view(terms@)),
            value is Some ==> value->0@ == evaluate(terms_view(terms@), self@),
    {
        let ghost all = terms_view(terms@);
        let mut sum = Fe::from_u64(0);
        let mut i: usize = 0;
        while i < terms.len()
            invariant
                i <= terms@.len(),
                all == terms_view(terms@),
                self@.defines_all(all.take(i as int)),
                sum@ == evaluate(all.take(i as int), self@),
            decreases terms@.len() - i,
        {
            let term = terms[i];
            assert(all[i as int] == term@);
            match self.value(term.wire) {
                None => {
                    assert(!self@.defines(all[i as int].wire));
                    return None;
                },
                Some(value) => {
                    let scaled = scalar_mul(&term.coeff, &value);
                    sum = scalar_add(&sum, &scaled);
                },
            }
            proof {
                let next = all.take(i + 1);
                assert(next.drop_last() =~= all.take(i as int));
                assert(next.last() == all[i as int]);
                assert forall|j: int| 0 <= j < next.len() implies self@.defines(
                    #[trigger] next[j].wire,
                ) by {
                    if j < i {
                        assert(next[j] == all.take(i as int)[j]);
                    }
                }
            }
            i += 1;
        }
        assert(all.take(i as int) =~= all);
        Some(sum)
    }
}

impl Constraint {
    /// Whether the constraint holds under the assignment.
    pub fn holds(&self, assignment: &Assignment) -> (holds: bool)
        ensures
            holds == self@.holds(assignment@),
    {
        match (assignment.evaluate(&self.a), assignment.evaluate(&self.b), assignment.evaluate(&self.c)) {
            (Some(a), Some(b), Some(c)) => scalar_mul(&a, &b).equals(&c),
            _ => false,
        }
    }
}

impl System {
    /// Whether the assignment satisfies the system.
    pub fn satisfied_by(&self, assignment: &Assignment) -> (satisfied: bool)
        ensures
            satisfied == self@.satisfied_by(assignment@),
    {
        if assignment.public.len() != self.public || assignment.private.len() != self.private {
            return false;
        }
        let mut k: usize = 0;
        while k < self.constraints.len()
            invariant
                k <= self.constraints@.len(),
                forall|j: int| 0 <= j < k ==> (#[trigger] self@.constraints[j]).holds(assignment@),
            decreases self.constraints@.len() - k,
        {
            if !self.constraints[k].holds(assignment) {
                assert(self@.constraints[k as int] == self.constraints@[k as int]@);
                return false;
            }
            assert(self@.constraints[k as int] == self.constraints@[k as int]@);
            k += 1;
        }
        true
    }
}

} // verus!
