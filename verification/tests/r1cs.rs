use zkp_mimc::field::Fe;
use zkp_mimc::r1cs::{Assignment, Constraint, System, Term, Wire};

fn term(coeff: u64, wire: Wire) -> Term {
    Term { coeff: Fe::from_u64(coeff), wire }
}

fn assignment(public: &[u64], private: &[u64]) -> Assignment {
    Assignment {
        public: public.iter().map(|value| Fe::from_u64(*value)).collect(),
        private: private.iter().map(|value| Fe::from_u64(*value)).collect(),
    }
}

#[test]
fn the_constant_wire_is_one() {
    let values = assignment(&[], &[]);
    assert!(values.value(Wire::One).unwrap().equals(&Fe::from_u64(1)));
}

#[test]
fn value_reads_public_and_private_wires() {
    let values = assignment(&[10, 11], &[20, 21, 22]);
    assert!(values.value(Wire::Public(1)).unwrap().equals(&Fe::from_u64(11)));
    assert!(values.value(Wire::Private(2)).unwrap().equals(&Fe::from_u64(22)));
    assert!(values.value(Wire::Private(0)).unwrap().equals(&Fe::from_u64(20)));
}

#[test]
fn value_of_a_missing_wire_is_none() {
    let values = assignment(&[10], &[20]);
    assert!(values.value(Wire::Public(1)).is_none());
    assert!(values.value(Wire::Private(1)).is_none());
    assert!(values.value(Wire::Private(usize::MAX)).is_none());
}

#[test]
fn the_empty_combination_is_zero() {
    let values = assignment(&[], &[]);
    assert!(values.evaluate(&vec![]).unwrap().equals(&Fe::from_u64(0)));
}

#[test]
fn evaluate_sums_scaled_wires() {
    // 2 * 5 + 3 * 7 + 4 * 1
    let values = assignment(&[5], &[7]);
    let terms =
        vec![term(2, Wire::Public(0)), term(3, Wire::Private(0)), term(4, Wire::One)];
    assert!(values.evaluate(&terms).unwrap().equals(&Fe::from_u64(35)));
}

#[test]
fn evaluate_counts_a_repeated_wire_twice() {
    let values = assignment(&[], &[6]);
    let terms = vec![term(1, Wire::Private(0)), term(1, Wire::Private(0))];
    assert!(values.evaluate(&terms).unwrap().equals(&Fe::from_u64(12)));
}

#[test]
fn evaluate_with_a_missing_wire_is_none() {
    let values = assignment(&[], &[6]);
    let terms = vec![term(1, Wire::Private(0)), term(1, Wire::Private(1))];
    assert!(values.evaluate(&terms).is_none());
}

#[test]
fn a_product_constraint_holds_exactly_on_the_product() {
    let constraint = Constraint {
        a: vec![term(1, Wire::Private(0))],
        b: vec![term(1, Wire::Private(1))],
        c: vec![term(1, Wire::Public(0))],
    };
    assert!(constraint.holds(&assignment(&[42], &[6, 7])));
    assert!(!constraint.holds(&assignment(&[41], &[6, 7])));
    assert!(!constraint.holds(&assignment(&[], &[6, 7])));
}

#[test]
fn a_system_without_constraints_asks_only_for_the_sizes() {
    let system = System { public: 1, private: 2, constraints: vec![] };
    assert!(system.satisfied_by(&assignment(&[0], &[0, 0])));
    assert!(!system.satisfied_by(&assignment(&[0], &[0])));
    assert!(!system.satisfied_by(&assignment(&[], &[0, 0])));
}

#[test]
fn every_constraint_must_hold() {
    let square = |input, output| Constraint {
        a: vec![term(1, Wire::Private(input))],
        b: vec![term(1, Wire::Private(input))],
        c: vec![term(1, Wire::Private(output))],
    };
    let system = System { public: 0, private: 3, constraints: vec![square(0, 1), square(1, 2)] };
    assert!(system.satisfied_by(&assignment(&[], &[3, 9, 81])));
    assert!(!system.satisfied_by(&assignment(&[], &[3, 9, 80])));
    assert!(!system.satisfied_by(&assignment(&[], &[3, 8, 64])));
}
