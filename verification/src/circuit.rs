//! The arithmetic circuit of the MiMC round function.
//!
//! The circuit has one public input, the image, and `2 + 2 * rounds` private
//! wires: `left`, `right`, and for each round the square and the cube of the
//! round's input. Each round contributes two multiplication constraints, and
//! a last constraint ties the image to the final cube plus `right`.

use crate::error::Error;
use crate::field::{fadd, fmul, modulus, scalar_add, scalar_mul, scalar_square, values, Fe};
use crate::mimc::{accumulator, cube, round_function, round_input};
use crate::r1cs::{
    evaluate, terms_view, Assignment, AssignmentView, Constraint,
    System, ConstraintView, SystemView, Term, TermView, Wire, WireView,
};
use vstd::prelude::*;

verus! {

/// The number of rounds that the circuit is built for.
pub const MIMC_ROUNDS: usize = 322;

/// A wire with coefficient one.
pub open spec fn unit(wire: WireView) -> TermView {
    TermView { coeff: 1, wire }
}

/// The wire that holds `left`.
pub open spec fn left_wire() -> WireView {
    WireView::Private(0)
}

/// The wire that holds `right`.
pub open spec fn right_wire() -> WireView {
    WireView::Private(1)
}

/// The wire that holds the square of the input of round `round`.
pub open spec fn square_wire(round: nat) -> WireView {
    WireView::Private(2 + 2 * round)
}

/// The wire that holds the cube of the input of round `round`.
pub open spec fn cube_wire(round: nat) -> WireView {
    WireView::Private(3 + 2 * round)
}

/// The wire that holds the accumulator after `rounds` rounds.
pub open spec fn accumulator_wire(rounds: nat) -> WireView {
    if rounds == 0 {
        left_wire()
    } else {
        cube_wire((rounds - 1) as nat)
    }
}

/// The image, the circuit's only public input.
pub open spec fn image_wire() -> WireView {
    WireView::Public(0)
}

/// The input of round `round` as a linear combination: the accumulator, on
/// even rounds `right`, and the round's constant on the constant wire.
pub open spec fn round_terms(round: nat, constant: nat) -> Seq<TermView> {
    if round % 2 == 0 {
        seq![
            unit(accumulator_wire(round)),
            unit(right_wire()),
            TermView { coeff: constant, wire: WireView::One },
        ]
    } else {
        seq![unit(accumulator_wire(round)), TermView { coeff: constant, wire: WireView::One }]
    }
}

/// Round `round`'s first constraint: input times input is the square wire.
pub open spec fn square_constraint(round: nat, constant: nat) -> ConstraintView {
    ConstraintView {
        a: round_terms(round, constant),
        b: round_terms(round, constant),
        c: seq![unit(square_wire(round))],
    }
}

/// Round `round`'s second constraint: square times input is the cube wire.
pub open spec fn cube_constraint(round: nat, constant: nat) -> ConstraintView {
    ConstraintView {
        a: seq![unit(square_wire(round))],
        b: round_terms(round, constant),
        c: seq![unit(cube_wire(round))],
    }
}

/// The last constraint: the final accumulator plus `right`, times one, is the
/// image.
pub open spec fn image_constraint(rounds: nat) -> ConstraintView {
    ConstraintView {
        a: seq![unit(accumulator_wire(rounds)), unit(right_wire())],
        b: seq![unit(WireView::One)],
        c: seq![unit(image_wire())],
    }
}

/// The constraint at position `k`: rounds come in order, two constraints
/// each, and the image constraint is last.
pub open spec fn constraint_at(constants: Seq<nat>, k: int) -> ConstraintView {
    if k >= 2 * constants.len() {
        image_constraint(constants.len())
    } else if k % 2 == 0 {
        square_constraint((k / 2) as nat, constants[k / 2])
    } else {
        cube_constraint((k / 2) as nat, constants[k / 2])
    }
}

/// The constraint system of the round function under the given constants.
pub open spec fn mimc_system(constants: Seq<nat>) -> SystemView {
    SystemView {
        public: 1,
        private: 2 + 2 * constants.len(),
        constraints: Seq::new(2 * constants.len() + 1, |k: int| constraint_at(constants, k)),
    }
}

/// The value of private wire `j` when the circuit is run on `left` and
/// `right`.
pub open spec fn private_value(left: nat, right: nat, constants: Seq<nat>, j: int) -> nat {
    if j == 0 {
        left
    } else if j == 1 {
        right
    } else {
        let round = (j - 2) / 2;
        let input = round_input(
            accumulator(left, right, constants, round as nat),
            right,
            constants[round],
            round,
        );
        if j % 2 == 0 {
            fmul(input, input)
        } else {
            cube(input)
        }
    }
}

/// The assignment that running the circuit on `left` and `right` produces.
pub open spec fn mimc_witness(left: nat, right: nat, constants: Seq<nat>) -> AssignmentView {
    AssignmentView {
        public: seq![round_function(left, right, constants)],
        private: Seq::new(
            2 + 2 * constants.len(),
            |j: int| private_value(left, right, constants, j),
        ),
    }
}

/// Whether every number of the sequence is a field element.
pub open spec fn all_canonical(numbers: Seq<nat>) -> bool {
    forall|i: int| 0 <= i < numbers.len() ==> #[trigger] numbers[i] < modulus()
}

/// The value of a combination of one wire with coefficient one is the
/// wire's value.
proof fn lemma_evaluate_unit(wire: WireView, assignment: AssignmentView)
    requires
        assignment.value(wire) < modulus(),
    ensures
        evaluate(seq![unit(wire)], assignment) == assignment.value(wire),
{
    let terms = seq![unit(wire)];
    assert(terms.drop_last() =~= Seq::<TermView>::empty());
    assert(evaluate(terms.drop_last(), assignment) == 0);
    assert(terms.last() == unit(wire));
}

/// The value of the sum of two wires is the sum of their values.
proof fn lemma_evaluate_pair(first: WireView, second: WireView, assignment: AssignmentView)
    requires
        assignment.value(first) < modulus(),
        assignment.value(second) < modulus(),
    ensures
        evaluate(seq![unit(first), unit(second)], assignment) == fadd(
            assignment.value(first),
            assignment.value(second),
        ),
{
    let terms = seq![unit(first), unit(second)];
    assert(terms.drop_last() =~= seq![unit(first)]);
    assert(terms.last() == unit(second));
    lemma_evaluate_unit(first, assignment);
}

/// The value of a round's input combination is the round's input.
proof fn lemma_evaluate_round_terms(round: nat, constant: nat, assignment: AssignmentView)
    requires
        constant < modulus(),
        assignment.value(accumulator_wire(round)) < modulus(),
        assignment.value(right_wire()) < modulus(),
    ensures
        evaluate(round_terms(round, constant), assignment) == round_input(
            assignment.value(accumulator_wire(round)),
            assignment.value(right_wire()),
            constant,
            round as int,
        ),
{
    let terms = round_terms(round, constant);
    let last = TermView { coeff: constant, wire: WireView::One };
    assert(terms.last() == last);
    assert(fmul(constant, 1) == constant);
    if round % 2 == 0 {
        assert(terms.drop_last() =~= seq![unit(accumulator_wire(round)), unit(right_wire())]);
        lemma_evaluate_pair(accumulator_wire(round), right_wire(), assignment);
    } else {
        assert(terms.drop_last() =~= seq![unit(accumulator_wire(round))]);
        lemma_evaluate_unit(accumulator_wire(round), assignment);
    }
}

/// Whether the assignment has the circuit's numbers of wires, all of them
/// field elements.
spec fn fits(assignment: AssignmentView, constants: Seq<nat>) -> bool {
    &&& assignment.canonical()
    &&& assignment.public.len() == 1
    &&& assignment.private.len() == 2 + 2 * constants.len()
}

/// The input of round `round` as the assignment's wires give it.
spec fn wired_input(assignment: AssignmentView, constants: Seq<nat>, round: nat) -> nat {
    round_input(
        assignment.value(accumulator_wire(round)),
        assignment.value(right_wire()),
        constants[round as int],
        round as int,
    )
}

/// What the two constraints of a round say of the wires: the square wire is
/// the square of the round's input, and the cube wire is that times the
/// input.
proof fn lemma_round_constraints(assignment: AssignmentView, constants: Seq<nat>, round: nat)
    requires
        fits(assignment, constants),
        all_canonical(constants),
        round < constants.len(),
    ensures
        square_constraint(round, constants[round as int]).holds(assignment) <==> assignment.value(
            square_wire(round),
        ) == fmul(
            wired_input(assignment, constants, round),
            wired_input(assignment, constants, round),
        ),
        cube_constraint(round, constants[round as int]).holds(assignment) <==> assignment.value(
            cube_wire(round),
        ) == fmul(
            assignment.value(square_wire(round)),
            wired_input(assignment, constants, round),
        ),
{
    let constant = constants[round as int];
    assert(assignment.private[0] < modulus());
    assert(assignment.private[1] < modulus());
    assert(assignment.private[(2 + 2 * round) as int] < modulus());
    assert(assignment.private[(3 + 2 * round) as int] < modulus());
    if round > 0 {
        assert(assignment.private[3 + 2 * (round - 1)] < modulus());
    }
    lemma_evaluate_round_terms(round, constant, assignment);
    lemma_evaluate_unit(square_wire(round), assignment);
    lemma_evaluate_unit(cube_wire(round), assignment);
    let terms = round_terms(round, constant);
    assert(assignment.defines_all(terms));
    assert(assignment.defines_all(seq![unit(square_wire(round))]));
    assert(assignment.defines_all(seq![unit(cube_wire(round))]));
}

/// What the last constraint says of the wires: the image is the final
/// accumulator plus `right`.
proof fn lemma_image_constraint(assignment: AssignmentView, constants: Seq<nat>)
    requires
        fits(assignment, constants),
    ensures
        image_constraint(constants.len()).holds(assignment) <==> assignment.public[0] == fadd(
            assignment.value(accumulator_wire(constants.len())),
            assignment.value(right_wire()),
        ),
{
    let rounds = constants.len();
    assert(assignment.public[0] < modulus());
    assert(assignment.private[0] < modulus());
    assert(assignment.private[1] < modulus());
    if rounds > 0 {
        assert(assignment.private[3 + 2 * (rounds - 1)] < modulus());
    }
    lemma_evaluate_pair(accumulator_wire(rounds), right_wire(), assignment);
    lemma_evaluate_unit(WireView::One, assignment);
    lemma_evaluate_unit(image_wire(), assignment);
    let sum = fadd(
        assignment.value(accumulator_wire(rounds)),
        assignment.value(right_wire()),
    );
    assert(fmul(sum, 1) == sum);
    let constraint = image_constraint(rounds);
    assert(assignment.defines_all(constraint.a));
    assert(assignment.defines_all(constraint.b));
    assert(assignment.defines_all(constraint.c));
}

/// The wires of the assignment that running the circuit produces, round by
/// round: the accumulator wire holds the accumulator, and the round's two
/// constraints hold.
proof fn lemma_witness_round(left: nat, right: nat, constants: Seq<nat>, round: nat)
    requires
        left < modulus(),
        right < modulus(),
        all_canonical(constants),
        round < constants.len(),
    ensures
        square_constraint(round, constants[round as int]).holds(
            mimc_witness(left, right, constants),
        ),
        cube_constraint(round, constants[round as int]).holds(
            mimc_witness(left, right, constants),
        ),
{
    let assignment = mimc_witness(left, right, constants);
    let input = round_input(
        accumulator(left, right, constants, round),
        right,
        constants[round as int],
        round as int,
    );
    assert(fits(assignment, constants));
    assert(assignment.value(right_wire()) == right);
    assert(assignment.value(accumulator_wire(round)) == accumulator(
        left,
        right,
        constants,
        round,
    )) by {
        if round > 0 {
            let j: int = 3 + 2 * (round - 1);
            assert((j - 2) / 2 == round - 1);
            assert(assignment.private[j] == private_value(left, right, constants, j));
        }
    }
    assert(wired_input(assignment, constants, round) == input);
    assert(assignment.value(square_wire(round)) == fmul(input, input)) by {
        let j = (2 + 2 * round) as int;
        assert((j - 2) / 2 == round);
        assert(assignment.private[j] == private_value(left, right, constants, j));
    }
    assert(assignment.value(cube_wire(round)) == cube(input)) by {
        let j = (3 + 2 * round) as int;
        assert((j - 2) / 2 == round);
        assert(assignment.private[j] == private_value(left, right, constants, j));
    }
    lemma_round_constraints(assignment, constants, round);
}

/// Completeness: the assignment that running the circuit produces satisfies
/// the circuit's constraint system, and its public input is the round
/// function of `left` and `right`.
pub proof fn lemma_witness_satisfies(left: nat, right: nat, constants: Seq<nat>)
    requires
        left < modulus(),
        right < modulus(),
        all_canonical(constants),
    ensures
        mimc_system(constants).satisfied_by(mimc_witness(left, right, constants)),
        mimc_witness(left, right, constants).public == seq![
            round_function(left, right, constants),
        ],
{
    let system = mimc_system(constants);
    let assignment = mimc_witness(left, right, constants);
    let rounds = constants.len();
    assert(fits(assignment, constants));
    assert forall|k: int| 0 <= k < system.constraints.len() implies (
    #[trigger] system.constraints[k]).holds(assignment) by {
        assert(system.constraints[k] == constraint_at(constants, k));
        if k >= 2 * rounds {
            lemma_image_constraint(assignment, constants);
            assert(assignment.value(right_wire()) == right);
            if rounds > 0 {
                let j: int = 3 + 2 * (rounds - 1);
                assert((j - 2) / 2 == rounds - 1);
                assert(assignment.private[j] == private_value(left, right, constants, j));
            }
        } else {
            lemma_witness_round(left, right, constants, (k / 2) as nat);
        }
    }
}

/// Soundness: an assignment of field elements that satisfies the circuit's
/// constraint system is the one that running the circuit on its own `left`
/// and `right` wires produces. Its public input is therefore the round
/// function of those two wires, and no other value satisfies the system
/// with them.
pub proof fn lemma_satisfying_assignment_is_witness(
    assignment: AssignmentView,
    constants: Seq<nat>,
)
    requires
        assignment.canonical(),
        all_canonical(constants),
        mimc_system(constants).satisfied_by(assignment),
    ensures
        assignment == mimc_witness(assignment.private[0], assignment.private[1], constants),
        assignment.public == seq![
            round_function(assignment.private[0], assignment.private[1], constants),
        ],
{
    let left = assignment.private[0];
    let right = assignment.private[1];
    let expected = mimc_witness(left, right, constants);
    lemma_private_wires(assignment, constants, constants.len());
    let system = mimc_system(constants);
    assert(system.constraints[(2 * constants.len()) as int].holds(assignment));
    lemma_image_constraint(assignment, constants);
    assert(assignment.private =~= expected.private);
    assert(assignment.public =~= expected.public);
}

/// The private wires of the first `rounds` rounds of a satisfying assignment
/// hold what running the circuit gives them.
proof fn lemma_private_wires(assignment: AssignmentView, constants: Seq<nat>, rounds: nat)
    requires
        assignment.canonical(),
        all_canonical(constants),
        mimc_system(constants).satisfied_by(assignment),
        rounds <= constants.len(),
    ensures
        forall|j: int|
            0 <= j < 2 + 2 * rounds ==> #[trigger] assignment.private[j] == private_value(
                assignment.private[0],
                assignment.private[1],
                constants,
                j,
            ),
        assignment.value(accumulator_wire(rounds)) == accumulator(
            assignment.private[0],
            assignment.private[1],
            constants,
            rounds,
        ),
    decreases rounds,
{
    if rounds > 0 {
        let round = (rounds - 1) as nat;
        lemma_private_wires(assignment, constants, round);
        let system = mimc_system(constants);
        assert(system.constraints[(2 * round) as int].holds(assignment));
        assert(system.constraints[(2 * round + 1) as int].holds(assignment));
        lemma_round_constraints(assignment, constants, round);
    }
}

/// The wires of a linear combination, in order.
pub open spec fn wires_of(terms: Seq<TermView>) -> Seq<WireView> {
    Seq::new(terms.len(), |i: int| terms[i].wire)
}

/// A constraint with its coefficients forgotten: the wires that `a`, `b` and
/// `c` sum, in order.
pub open spec fn constraint_wires(constraint: ConstraintView) -> (
    Seq<WireView>,
    Seq<WireView>,
    Seq<WireView>,
) {
    (wires_of(constraint.a), wires_of(constraint.b), wires_of(constraint.c))
}

/// The topology of a constraint system: each constraint's wires, in order.
pub open spec fn topology(system: SystemView) -> Seq<(Seq<WireView>, Seq<WireView>, Seq<WireView>)> {
    Seq::new(system.constraints.len(), |k: int| constraint_wires(system.constraints[k]))
}

/// Shape stability: two instantiations of the circuit with the same number
/// of round constants have the same numbers of wires and of constraints, and
/// each constraint sums the same wires, whatever the constants are.
pub proof fn lemma_shape_stable(first: Seq<nat>, second: Seq<nat>)
    requires
        first.len() == second.len(),
    ensures
        mimc_system(first).public == mimc_system(second).public,
        mimc_system(first).private == mimc_system(second).private,
        mimc_system(first).constraints.len() == mimc_system(second).constraints.len(),
        topology(mimc_system(first)) == topology(mimc_system(second)),
{
    let a = mimc_system(first);
    let b = mimc_system(second);
    assert forall|k: int| 0 <= k < a.constraints.len() implies topology(a)[k] == topology(b)[k] by {
        let round = (k / 2) as nat;
        if k < 2 * first.len() {
            assert(wires_of(round_terms(round, first[k / 2])) =~= wires_of(
                round_terms(round, second[k / 2]),
            ));
        }
        assert(wires_of(a.constraints[k].a) =~= wires_of(b.constraints[k].a));
        assert(wires_of(a.constraints[k].b) =~= wires_of(b.constraints[k].b));
        assert(wires_of(a.constraints[k].c) =~= wires_of(b.constraints[k].c));
    }
    assert(topology(a) =~= topology(b));
}

/// The summand that is the wire itself.
fn unit_term(wire: Wire) -> (term: Term)
    ensures
        term@ == unit(wire@),
{
    Term { coeff: Fe::from_u64(1), wire }
}

/// A linear combination of one wire.
fn single(wire: Wire) -> (terms: Vec<Term>)
    ensures
        terms@.len() == 1,
        terms_view(terms@) == seq![unit(wire@)],
{
    let mut terms: Vec<Term> = Vec::new();
    terms.push(unit_term(wire));
    assert(terms_view(terms@) =~= seq![unit(wire@)]);
    terms
}

/// The wire of the accumulator after `rounds` rounds.
fn accumulator_index(rounds: usize) -> (wire: Wire)
    requires
        2 * rounds + 1 <= usize::MAX,
    ensures
        wire@ == accumulator_wire(rounds as nat),
{
    if rounds == 0 {
        Wire::Private(0)
    } else {
        Wire::Private(2 * rounds + 1)
    }
}

/// The input of round `round` as a linear combination.
fn round_combination(round: usize, constant: Fe) -> (terms: Vec<Term>)
    requires
        2 * round + 1 <= usize::MAX,
    ensures
        terms_view(terms@) == round_terms(round as nat, constant@),
{
    let mut terms: Vec<Term> = Vec::new();
    terms.push(unit_term(accumulator_index(round)));
    if round % 2 == 0 {
        terms.push(unit_term(Wire::Private(1)));
    }
    terms.push(Term { coeff: constant, wire: Wire::One });
    assert(terms_view(terms@) =~= round_terms(round as nat, constant@));
    terms
}

/// Builds the constraint system of the round function under the given
/// constants. The wire values play no part in it.
pub fn constraint_system(constants: &[Fe]) -> (system: System)
    requires
        2 * constants@.len() + 3 <= usize::MAX,
    ensures
        system@ == mimc_system(values(constants@)),
{
    let rounds = constants.len();
    let ghost numbers = values(constants@);
    let mut constraints: Vec<Constraint> = Vec::new();
    let mut round: usize = 0;
    while round < rounds
        invariant
            round <= rounds,
            rounds == constants@.len(),
            numbers == values(constants@),
            2 * rounds + 3 <= usize::MAX,
            constraints@.len() == 2 * round,
            forall|k: int|
                0 <= k < 2 * round ==> (#[trigger] constraints@[k])@ == constraint_at(numbers, k),
        decreases rounds - round,
    {
        let constant = constants[round];
        let squaring = Constraint {
            a: round_combination(round, constant),
            b: round_combination(round, constant),
            c: single(Wire::Private(2 + 2 * round)),
        };
        let cubing = Constraint {
            a: single(Wire::Private(2 + 2 * round)),
            b: round_combination(round, constant),
            c: single(Wire::Private(3 + 2 * round)),
        };
        assert(squaring@ == constraint_at(numbers, 2 * round));
        assert(cubing@ == constraint_at(numbers, 2 * round + 1));
        constraints.push(squaring);
        constraints.push(cubing);
        round += 1;
    }
    let mut sum = single(accumulator_index(rounds));
    assert(terms_view(sum@)[0] == sum@[0]@);
    sum.push(unit_term(Wire::Private(1)));
    assert(terms_view(sum@) =~= image_constraint(rounds as nat).a);
    let last = Constraint { a: sum, b: single(Wire::One), c: single(Wire::Public(0)) };
    assert(last@ == constraint_at(numbers, 2 * rounds));
    constraints.push(last);
    let system = System { public: 1, private: 2 + 2 * rounds, constraints };
    assert(system@.constraints =~= mimc_system(numbers).constraints);
    system
}

/// Runs the circuit on `left` and `right`: the value of every wire, the image
/// included.
pub fn witness(left: Fe, right: Fe, constants: &[Fe]) -> (assignment: Assignment)
    ensures
        assignment@ == mimc_witness(left@, right@, values(constants@)),
        mimc_system(values(constants@)).satisfied_by(assignment@),
{
    let rounds = constants.len();
    let ghost numbers = values(constants@);
    let mut private: Vec<Fe> = Vec::new();
    private.push(left);
    private.push(right);
    let mut acc = left;
    let mut round: usize = 0;
    while round < rounds
        invariant
            round <= rounds,
            rounds == constants@.len(),
            numbers == values(constants@),
            private@.len() == 2 + 2 * round,
            acc@ == accumulator(left@, right@, numbers, round as nat),
            forall|i: int| 0 <= i < round ==> #[trigger] numbers[i] < modulus(),
            forall|j: int|
                0 <= j < 2 + 2 * round ==> (#[trigger] private@[j])@ == private_value(
                    left@,
                    right@,
                    numbers,
                    j,
                ),
        decreases rounds - round,
    {
        let keyed = if round % 2 == 0 {
            scalar_add(&acc, &right)
        } else {
            acc
        };
        let constant = constants[round];
        let input = scalar_add(&keyed, &constant);
        let squared = scalar_square(&input);
        let cubed = scalar_mul(&squared, &input);
        proof {
            use_type_invariant(&constant);
        }
        assert(input@ == round_input(acc@, right@, numbers[round as int], round as int));
        assert(squared@ == private_value(left@, right@, numbers, 2 + 2 * round));
        assert(cubed@ == private_value(left@, right@, numbers, 3 + 2 * round));
        private.push(squared);
        private.push(cubed);
        acc = cubed;
        round += 1;
    }
    let image = scalar_add(&acc, &right);
    let mut public: Vec<Fe> = Vec::new();
    public.push(image);
    let assignment = Assignment { public, private };
    assert(assignment@.public =~= mimc_witness(left@, right@, numbers).public);
    assert(assignment@.private =~= mimc_witness(left@, right@, numbers).private);
    proof {
        use_type_invariant(&left);
        use_type_invariant(&right);
        lemma_witness_satisfies(left@, right@, numbers);
    }
    assignment
}

/// One instantiation of the circuit. Without `left` and `right` it stands for
/// the circuit's shape alone, as key generation needs it; with both it also
/// carries the values that a proof is made from. The constants are shared by
/// reference between the instantiations of one run.
#[derive(Clone, Copy, Debug)]
pub struct MimcCircuit<'a> {
    pub left: Option<Fe>,
    pub right: Option<Fe>,
    pub constants: &'a [Fe],
}

/// What synthesis yields: the constraint system, and the value of every wire
/// where the instantiation carries inputs.
#[derive(Debug)]
pub struct Synthesis {
    pub system: System,
    pub witness: Option<Assignment>,
}

impl<'a> MimcCircuit<'a> {
    /// Lays the circuit out. The constraint system depends on the constants
    /// alone, so it is the same with and without inputs; the wire values are
    /// computed only where both inputs are present. Fails with
    /// `ShapeMismatch` unless there are exactly `MIMC_ROUNDS` constants.
    pub fn synthesize(&self) -> (result: Result<Synthesis, Error>)
        ensures
            result is Err <==> self.constants@.len() != MIMC_ROUNDS,
            result matches Err(e) ==> e == Error::ShapeMismatch,
            result matches Ok(synthesis) ==> {
                &&& synthesis.system@ == mimc_system(values(self.constants@))
                &&& synthesis.witness is Some <==> self.left is Some && self.right is Some
                &&& synthesis.witness matches Some(assignment) ==> {
                    &&& assignment@ == mimc_witness(
                        self.left->0@,
                        self.right->0@,
                        values(self.constants@),
                    )
                    &&& synthesis.system@.satisfied_by(assignment@)
                }
            },
    {
        if self.constants.len() != MIMC_ROUNDS {
            return Err(Error::ShapeMismatch);
        }
        let system = constraint_system(self.constants);
        let witness = match (self.left, self.right) {
            (Some(left), Some(right)) => Some(witness(left, right, self.constants)),
            _ => None,
        };
        Ok(Synthesis { system, witness })
    }
}

} // verus!
