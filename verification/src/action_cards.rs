//! Action cards and the stacks they are drawn from.

use vstd::prelude::*;
use rand::Rng;

verus! {

/// What an action card does when drawn.
#[derive(Copy, Clone, PartialEq)]
pub enum Action {
    DirectCurrency { amount: isize },
    DistributeCurrency { amount: isize },
    MoveRelative { amount: isize },
    MoveAbsolute { tile: usize },
    Wait { rounds: usize },
    GoToJail,
    JailFree,
}

/// One action card: its display text and its effect.
pub struct ActionCard {
    pub text: String,
    pub action: Action,
}

/// Relies on `rand::Rng::gen_range` over `0..bound`: for a non-empty
/// range the sample always lies within it.
#[verifier::external_body]
pub(crate) fn random_below(bound: usize) -> (r: usize)
    requires
        bound > 0,
    ensures
        r < bound,
{
    rand::thread_rng().gen_range(0..bound)
}

/// A stack of card indices a player draws from at random.
pub struct CardStack(Vec<usize>);

impl View for CardStack {
    type V = Seq<usize>;

    closed spec fn view(&self) -> Seq<usize> {
        self.0@
    }
}

impl CardStack {
    pub fn new(cards: Vec<usize>) -> (s: Self)
        ensures
            s@ == cards@,
    {
        CardStack(cards)
    }

    /// How many cards the stack holds.
    pub fn len(&self) -> (n: usize)
        ensures
            n == self@.len(),
    {
        self.0.len()
    }

    /// The card index at one position of the stack.
    pub fn get(&self, i: usize) -> (c: usize)
        requires
            i < self@.len(),
        ensures
            c == self@[i as int],
    {
        self.0[i]
    }

    /// Draws one card index from the stack at random; whatever the draw,
    /// the result is a card of this stack.
    pub fn draw(&self) -> (c: usize)
        requires
            self@.len() > 0,
        ensures
            exists|i: int| 0 <= i < self@.len() && c == self@[i as int],
    {
        let i = random_below(self.0.len());
        self.0[i]
    }
}

} // verus!
