//! The board's contents: a grid of symbols drawn at random, mostly empty
//! ground with a few rare finds.
use vstd::prelude::*;
use crate::sampling::{distribution_weights, weight_sum, weighted_index_new, weighted_index_sample};

verus! {

/// How many different symbols a board cell can hold.
pub const SYMBOL_COUNT: usize = 11;

/// The symbol with the given index; index 0 is empty ground.
pub open spec fn arena_symbol(i: int) -> Seq<char> {
    if i == 0 { ".  "@ }
    else if i == 1 { "Q"@ }
    else if i == 2 { "V"@ }
    else if i == 3 { "B"@ }
    else if i == 4 { "$"@ }
    else if i == 5 { "*"@ }
    else if i == 6 { "X"@ }
    else if i == 7 { "&"@ }
    else if i == 8 { "%"@ }
    else if i == 9 { "@"@ }
    else { "C"@ }
}

/// The relative weights with which the symbols are drawn, by index.
pub open spec fn arena_weights() -> Seq<i32> {
    seq![950i32, 5, 5, 5, 5, 5, 5, 5, 1, 5, 5]
}

/// Whether a cell's text is one of the board symbols.
pub open spec fn is_arena_symbol(s: Seq<char>) -> bool {
    exists|i: int| 0 <= i < SYMBOL_COUNT && s == arena_symbol(i)
}

/// The symbol weights are non-negative and add up to 996, which fits in
/// `i32`.
proof fn lemma_arena_weights_valid()
    ensures
        arena_weights().len() == SYMBOL_COUNT,
        forall|i: int| 0 <= i < arena_weights().len() ==> arena_weights()[i] >= 0,
        weight_sum(arena_weights(), 11) == 996,
{
    let w = arena_weights();
    assert(weight_sum(w, 11) == 996) by {
        reveal_with_fuel(weight_sum, 12);
    }
}

/// A board as a flat list of cells, row after row.
pub struct Arena {
    pub arena: Vec<String>,
}

impl Arena {
    /// The text of the symbol with the given index.
    pub fn symbol(index: usize) -> (s: String)
        requires
            index < SYMBOL_COUNT,
        ensures
            s@ == arena_symbol(index as int),
    {
        if index == 0 {
            String::from_str(".  ")
        } else if index == 1 {
            String::from_str("Q")
        } else if index == 2 {
            String::from_str("V")
        } else if index == 3 {
            String::from_str("B")
        } else if index == 4 {
            String::from_str("$")
        } else if index == 5 {
            String::from_str("*")
        } else if index == 6 {
            String::from_str("X")
        } else if index == 7 {
            String::from_str("&")
        } else if index == 8 {
            String::from_str("%")
        } else if index == 9 {
            String::from_str("@")
        } else {
            String::from_str("C")
        }
    }

    /// The weights of the symbols, by index.
    pub fn weights() -> (w: Vec<i32>)
        ensures
            w@ == arena_weights(),
    {
        let w: Vec<i32> = vec![950, 5, 5, 5, 5, 5, 5, 5, 1, 5, 5];
        assert(w@ =~= arena_weights());
        w
    }

    /// The cells for a list of draws: cell `i` is the symbol of draw `i`.
    pub fn from_draws(draws: &[usize]) -> (pa: Vec<String>)
        requires
            forall|i: int| 0 <= i < draws@.len() ==> #[trigger] draws@[i] < SYMBOL_COUNT,
        ensures
            pa@.len() == draws@.len(),
            forall|i: int| 0 <= i < draws@.len() ==> (#[trigger] pa@[i])@ == arena_symbol(draws@[i] as int),
    {
        let mut pa: Vec<String> = Vec::new();
        let mut i: usize = 0;
        while i < draws.len()
            invariant
                i <= draws@.len(),
                pa@.len() == i,
                forall|j: int| 0 <= j < draws@.len() ==> #[trigger] draws@[j] < SYMBOL_COUNT,
                forall|j: int| 0 <= j < i ==> (#[trigger] pa@[j])@ == arena_symbol(draws@[j] as int),
            decreases draws@.len() - i,
        {
            pa.push(Arena::symbol(draws[i]));
            i = i + 1;
        }
        pa
    }

    /// A fresh board of `fx` rows of `fy` cells: `fx * fy` independent draws
    /// from the symbol weights, cell `i` holding the symbol of draw `i`. Only
    /// symbols of positive weight are drawn.
    pub fn new(fx: u32, fy: u32) -> (pa: Vec<String>)
        requires
            fx * fy <= usize::MAX,
        ensures
            pa@.len() == fx * fy,
            exists|draws: Seq<usize>|
                {
                    &&& draws.len() == fx * fy
                    &&& forall|i: int|
                        0 <= i < draws.len() ==> {
                            &&& #[trigger] draws[i] < SYMBOL_COUNT
                            &&& arena_weights()[draws[i] as int] > 0
                            &&& pa@[i]@ == arena_symbol(draws[i] as int)
                        }
                },
            forall|i: int| 0 <= i < pa@.len() ==> is_arena_symbol(#[trigger] pa@[i]@),
    {
        let weights = Arena::weights();
        proof {
            lemma_arena_weights_valid();
        }
        let mut rng = rand::thread_rng();
        let dist = weighted_index_new(weights.as_slice()).unwrap();
        let mut draws: Vec<usize> = Vec::new();
        let mut x: u32 = 0;
        while x < fx
            invariant
                x <= fx,
                fx * fy <= usize::MAX,
                draws@.len() == x * fy,
                distribution_weights(dist) == arena_weights(),
                forall|i: int|
                    0 <= i < draws@.len() ==> #[trigger] draws@[i] < SYMBOL_COUNT
                        && arena_weights()[draws@[i] as int] > 0,
            decreases fx - x,
        {
            let mut y: u32 = 0;
            while y < fy
                invariant
                    x < fx,
                    y <= fy,
                    draws@.len() == x * fy + y,
                    distribution_weights(dist) == arena_weights(),
                    forall|i: int|
                        0 <= i < draws@.len() ==> #[trigger] draws@[i] < SYMBOL_COUNT
                            && arena_weights()[draws@[i] as int] > 0,
                decreases fy - y,
            {
                let k = weighted_index_sample(&dist, &mut rng);
                draws.push(k);
                y = y + 1;
            }
            assert((x + 1) * fy == x * fy + fy) by (nonlinear_arith);
            x = x + 1;
        }
        let pa = Arena::from_draws(draws.as_slice());
        assert forall|i: int| 0 <= i < pa@.len() implies is_arena_symbol(#[trigger] pa@[i]@) by {
            assert(draws@[i] < SYMBOL_COUNT);
        }
        assert forall|i: int| 0 <= i < draws@.len() implies {
            &&& #[trigger] draws@[i] < SYMBOL_COUNT
            &&& arena_weights()[draws@[i] as int] > 0
            &&& pa@[i]@ == arena_symbol(draws@[i] as int)
        } by {}
        pa
    }
}

} // verus!
