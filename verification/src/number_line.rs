//! A miniature problem family over a line of numbers, used to exercise the
//! heuristics: a solution is a position on the line, its score is the number
//! stored there (lower is better), and operators move along the line.
use vstd::prelude::*;

use crate::algorithms::lns::{Destroyer, Repairer};
use crate::rng::{Rng, RngModel, rng_peek, rng_step};
use crate::{Evaluate, Operator, StochasticOperator};

verus! {

/// A position on the number line together with the value found there.
#[derive(Clone, Copy)]
pub struct Number {
    pub value: i64,
    pub index: usize,
}

impl Number {
    pub fn new(index: usize, value: i64) -> (r: Self)
        ensures
            r == (Number { value, index }),
    {
        Self { value, index }
    }

    /// The position this solution occupies.
    pub fn index(&self) -> (r: usize)
        ensures
            r == self.index,
    {
        self.index
    }
}

impl Evaluate for Number {
    open spec fn score(&self) -> int {
        self.value as int
    }

    fn evaluate(&self) -> (r: i64) {
        self.value
    }

    fn duplicate(&self) -> (r: Self) {
        *self
    }
}

/// The position a solution stands for on a line of `len` numbers: positions
/// are reduced modulo the line length, so every solution denotes a valid
/// position.
pub open spec fn line_position(index: int, len: int) -> int {
    index % len
}

/// An operator whose neighborhood holds the positions `n` to the left and
/// `n` to the right of the solution, in that order, where they exist.
pub struct NeighborsUpUntilN {
    pub numbers: Vec<Number>,
    pub n: usize,
}

impl NeighborsUpUntilN {
    /// The line `numbers`, with radius `n`.
    pub fn new(numbers: &Vec<i64>, n: usize) -> (r: Self)
        ensures
            r.n == n,
            r.numbers@.len() == numbers@.len(),
            forall|j: int|
                0 <= j < numbers@.len() ==> (#[trigger] r.numbers@[j]) == (Number {
                    value: numbers@[j],
                    index: j as usize,
                }),
    {
        let mut line: Vec<Number> = Vec::new();
        let mut j: usize = 0;
        while j < numbers.len()
            invariant
                j <= numbers@.len(),
                line@.len() == j,
                forall|k: int|
                    0 <= k < j ==> (#[trigger] line@[k]) == (Number {
                        value: numbers@[k],
                        index: k as usize,
                    }),
            decreases numbers@.len() - j,
        {
            line.push(Number { value: numbers[j], index: j });
            j = j + 1;
        }
        Self { numbers: line, n }
    }
}

impl Operator<Number> for NeighborsUpUntilN {
    open spec fn nbhd(&self, solution: Number) -> Seq<Number> {
        let len = self.numbers@.len() as int;
        if len == 0 {
            Seq::empty()
        } else {
            let i = line_position(solution.index as int, len);
            let n = self.n as int;
            let left = if i - n >= 0 {
                seq![self.numbers@[i - n]]
            } else {
                Seq::empty()
            };
            let right = if i + n < len {
                seq![self.numbers@[i + n]]
            } else {
                Seq::empty()
            };
            left + right
        }
    }

    fn construct_neighborhood(&self, solution: Number) -> (r: Vec<Number>) {
        let mut result: Vec<Number> = Vec::new();
        let len = self.numbers.len();
        if len == 0 {
            proof {
                assert(result@ =~= self.nbhd(solution));
            }
            return result;
        }
        let i = solution.index % len;
        if i >= self.n {
            result.push(self.numbers[i - self.n]);
        }
        if self.n <= usize::MAX - i && i + self.n < len {
            result.push(self.numbers[i + self.n]);
        }
        proof {
            assert(result@ =~= self.nbhd(solution));
        }
        result
    }
}

/// Every neighborhood of [`NeighborsUpUntilN`] is nonempty once the radius
/// is at most half the line length: every position keeps a neighbor on at
/// least one side.
pub proof fn lemma_neighbors_nonempty(op: NeighborsUpUntilN, solution: Number)
    requires
        op.numbers@.len() > 0,
        2 * op.n <= op.numbers@.len(),
    ensures
        op.nbhd(solution).len() > 0,
{
    let len = op.numbers@.len() as int;
    let i = line_position(solution.index as int, len);
    vstd::arithmetic::div_mod::lemma_mod_division_less_than_divisor(solution.index as int, len);
}

/// An operator that draws one of the two adjacent positions at random, or
/// the single adjacent position at the line's ends (with no draw consumed).
/// On a line with a single position it returns the solution unchanged.
pub struct NeighborSwap {
    pub numbers: Vec<Number>,
}

impl NeighborSwap {
    pub fn new(numbers: &Vec<i64>) -> (r: Self)
        ensures
            r.numbers@.len() == numbers@.len(),
            forall|j: int|
                0 <= j < numbers@.len() ==> (#[trigger] r.numbers@[j]) == (Number {
                    value: numbers@[j],
                    index: j as usize,
                }),
    {
        let mut line: Vec<Number> = Vec::new();
        let mut j: usize = 0;
        while j < numbers.len()
            invariant
                j <= numbers@.len(),
                line@.len() == j,
                forall|k: int|
                    0 <= k < j ==> (#[trigger] line@[k]) == (Number {
                        value: numbers@[k],
                        index: k as usize,
                    }),
            decreases numbers@.len() - j,
        {
            line.push(Number { value: numbers[j], index: j });
            j = j + 1;
        }
        Self { numbers: line }
    }
}

impl StochasticOperator<Number> for NeighborSwap {
    open spec fn shake_spec(&self, solution: Number, m: RngModel) -> (Number, RngModel) {
        let len = self.numbers@.len() as int;
        if len == 0 {
            (solution, m)
        } else {
            let i = line_position(solution.index as int, len);
            let has_left = i >= 1;
            let has_right = i + 1 < len;
            if has_left && has_right {
                let pick = rng_peek(m) % 2;
                let j = if pick == 0 {
                    i - 1
                } else {
                    i + 1
                };
                (self.numbers@[j], rng_step(m))
            } else if has_left {
                (self.numbers@[i - 1], m)
            } else if has_right {
                (self.numbers@[i + 1], m)
            } else {
                (solution, m)
            }
        }
    }

    fn shake(&self, solution: Number, rng: &mut Rng) -> (r: Number) {
        let len = self.numbers.len();
        if len == 0 {
            return solution;
        }
        let i = solution.index % len;
        let has_left = i >= 1;
        let has_right = i + 1 < len;
        if has_left && has_right {
            let pick = rng.below(2);
            if pick == 0 {
                self.numbers[i - 1]
            } else {
                self.numbers[i + 1]
            }
        } else if has_left {
            self.numbers[i - 1]
        } else if has_right {
            self.numbers[i + 1]
        } else {
            solution
        }
    }
}

/// A [`NeighborSwap`] can serve as a destroyer for large neighborhood
/// search: destroying perturbs the position by one step.
impl Destroyer<Number> for NeighborSwap {
    open spec fn destroy_spec(&self, solution: Number, m: RngModel) -> (Number, RngModel) {
        self.shake_spec(solution, m)
    }

    fn destroy(&self, solution: Number, rng: &mut Rng) -> (r: Number) {
        self.shake(solution, rng)
    }
}

/// A [`NeighborSwap`] can serve as a repairer for large neighborhood
/// search: repairing moves the perturbed position by one further step.
impl Repairer<Number> for NeighborSwap {
    open spec fn repair_spec(&self, solution: Number, m: RngModel) -> (Number, RngModel) {
        self.shake_spec(solution, m)
    }

    fn repair(&self, solution: Number, rng: &mut Rng) -> (r: Number) {
        self.shake(solution, rng)
    }
}

} // verus!
