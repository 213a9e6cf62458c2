//! Stepping a selection through a list, wrapping at both ends.

use vstd::prelude::*;
use vstd::arithmetic::div_mod::{lemma_add_mod_noop, lemma_mod_add_multiples_vanish, lemma_small_mod};

verus! {

/// The index after `index` in a list of `length` entries, wrapping from the
/// last entry to the first. In an empty list the index stays.
pub open spec fn next_index(index: int, length: int) -> int {
    if length == 0 {
        index
    } else {
        (index + 1) % length
    }
}

/// The index before `index` in a list of `length` entries, wrapping from
/// the first entry to the last. In an empty list the index stays.
pub open spec fn previous_index(index: int, length: int) -> int {
    if length == 0 {
        index
    } else if index == 0 {
        length - 1
    } else {
        index - 1
    }
}

/// `next_index` taken `steps` times.
pub open spec fn advance(index: int, length: int, steps: nat) -> int
    decreases steps,
{
    if steps == 0 {
        index
    } else {
        next_index(advance(index, length, (steps - 1) as nat), length)
    }
}

/// Stepping forward `steps` times from a valid index adds `steps` modulo
/// the length.
pub proof fn lemma_advance(index: int, length: int, steps: nat)
    requires
        0 <= index < length,
    ensures
        advance(index, length, steps) == (index + steps) % length,
    decreases steps,
{
    if steps == 0 {
        lemma_small_mod(index as nat, length as nat);
    } else {
        lemma_advance(index, length, (steps - 1) as nat);
        lemma_add_mod_noop(index + steps - 1, 1, length);
        if length == 1 {
            assert((index + steps) % 1 == 0);
            assert(((index + steps - 1) % 1 + 1) % 1 == 0);
        } else {
            lemma_small_mod(1, length as nat);
        }
    }
}

/// Stepping forward once for every entry of a non-empty list comes back to
/// the index it started from.
pub proof fn lemma_full_cycle(index: int, length: nat)
    requires
        0 <= index < length,
    ensures
        advance(index, length as int, length) == index,
{
    lemma_advance(index, length as int, length);
    lemma_mod_add_multiples_vanish(index, length as int);
    lemma_small_mod(index as nat, length);
}

/// The index after `index`, for indices and lengths of machine size.
pub fn step_forward(index: usize, length: usize) -> (next: usize)
    ensures
        next == next_index(index as int, length as int),
{
    if length == 0 {
        index
    } else if length == 1 {
        assert((index + 1) % 1 == 0);
        0
    } else {
        proof {
            lemma_add_mod_noop(index as int, 1, length as int);
            lemma_small_mod(1, length as nat);
        }
        (index % length + 1) % length
    }
}

/// The index before `index`, for indices and lengths of machine size.
pub fn step_back(index: usize, length: usize) -> (previous: usize)
    ensures
        previous == previous_index(index as int, length as int),
{
    if length == 0 {
        index
    } else if index == 0 {
        length - 1
    } else {
        index - 1
    }
}

} // verus!
