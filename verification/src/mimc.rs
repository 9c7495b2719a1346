//! The MiMC round function: repeated cube-and-add-constant rounds that bind
//! two field elements into one.

use crate::field::{fadd, fmul, modulus, scalar_add, scalar_mul, scalar_square, values, Fe};
use vstd::arithmetic::div_mod::lemma_fundamental_div_mod;
use vstd::prelude::*;

verus! {

/// The cube of `t` in the field.
pub open spec fn cube(t: nat) -> nat {
    fmul(fmul(t, t), t)
}

/// What round `round` cubes: the accumulator plus the round's constant, and
/// on even rounds plus `right` as the round key.
pub open spec fn round_input(acc: nat, right: nat, constant: nat, round: int) -> nat {
    if round % 2 == 0 {
        fadd(fadd(acc, right), constant)
    } else {
        fadd(acc, constant)
    }
}

/// The accumulator after the first `rounds` rounds. It starts as `left`, and
/// each round replaces it by the cube of that round's input.
pub open spec fn accumulator(left: nat, right: nat, constants: Seq<nat>, rounds: nat) -> nat
    decreases rounds,
{
    if rounds == 0 {
        left
    } else {
        let before = accumulator(left, right, constants, (rounds - 1) as nat);
        cube(round_input(before, right, constants[rounds - 1], rounds - 1))
    }
}

/// The round function: one round per constant, then `right` is added once
/// more. With no constants it is the sum of `left` and `right`.
pub open spec fn round_function(left: nat, right: nat, constants: Seq<nat>) -> nat {
    fadd(accumulator(left, right, constants, constants.len()), right)
}

/// No constant is idle: with everything else the same, two different
/// constants give a round two different inputs.
pub proof fn lemma_constant_changes_round_input(
    acc: nat,
    right: nat,
    constant: nat,
    other: nat,
    round: int,
)
    requires
        constant < modulus(),
        other < modulus(),
        constant != other,
    ensures
        round_input(acc, right, constant, round) != round_input(acc, right, other, round),
{
    let base = if round % 2 == 0 {
        fadd(acc, right)
    } else {
        acc
    };
    let q = modulus() as int;
    let x = (base + constant) as int;
    let y = (base + other) as int;
    if x % q == y % q {
        lemma_fundamental_div_mod(x, q);
        lemma_fundamental_div_mod(y, q);
        let d = x / q - y / q;
        assert(x - y == q * d) by (nonlinear_arith)
            requires
                x == q * (x / q) + x % q,
                y == q * (y / q) + y % q,
                x % q == y % q,
                d == x / q - y / q,
        ;
        assert(d == 0) by (nonlinear_arith)
            requires
                x - y == q * d,
                -q < x - y < q,
                q > 0,
        ;
    }
}

/// One round: the cube of the round's input.
pub fn round(acc: &Fe, right: &Fe, constant: &Fe, index: usize) -> (next: Fe)
    ensures
        next@ == cube(round_input(acc@, right@, constant@, index as int)),
{
    let keyed = if index % 2 == 0 {
        scalar_add(acc, right)
    } else {
        *acc
    };
    let input = scalar_add(&keyed, constant);
    let squared = scalar_square(&input);
    scalar_mul(&squared, &input)
}

/// Applies the round function to `left` and `right` under the given
/// constants.
pub fn mimc(left: Fe, right: Fe, constants: &[Fe]) -> (image: Fe)
    ensures
        image@ == round_function(left@, right@, values(constants@)),
{
    let mut acc = left;
    let mut i: usize = 0;
    while i < constants.len()
        invariant
            i <= constants@.len(),
            acc@ == accumulator(left@, right@, values(constants@), i as nat),
        decreases constants@.len() - i,
    {
        acc = round(&acc, &right, &constants[i], i);
        i += 1;
    }
    scalar_add(&acc, &right)
}

} // verus!
