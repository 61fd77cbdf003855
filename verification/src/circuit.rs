//! The record of what a constraint system is asked to do.
//!
//! A [`Circuit`] numbers multiplication gates as the proving engine does,
//! hands out the verifier challenges it was given, and keeps every request
//! in order, so that the requests can be handed on to the engine one by one.

use crate::linear::{LinearCombination, TermView, Wire};
use crate::scalar::Scalar;
use vstd::prelude::*;

verus! {

/// Why a request to the constraint system was refused.
#[derive(Clone, Copy, Debug, PartialEq, Eq)]
pub enum R1CSError {
    /// A prover was asked for a gate whose input values are unknown.
    MissingAssignment,
    /// A challenge was asked for after the last one was handed out.
    MissingChallenge,
}

/// One request to the constraint system.
#[derive(Clone, Debug, PartialEq, Eq)]
pub enum Action {
    /// A gate whose inputs are constrained to two linear combinations.
    Multiply(LinearCombination, LinearCombination),
    /// A gate with free inputs, and the values a prover assigns to them.
    AllocateMultiplier(Option<(Scalar, Scalar)>),
    /// A linear combination that must be zero.
    Constrain(LinearCombination),
}

/// A request as a mathematical value.
pub enum ActionView {
    Multiply(Seq<TermView>, Seq<TermView>),
    AllocateMultiplier(Option<(nat, nat)>),
    Constrain(Seq<TermView>),
}

impl View for Action {
    type V = ActionView;

    open spec fn view(&self) -> ActionView {
        match self {
            Action::Multiply(left, right) => ActionView::Multiply(left@, right@),
            Action::AllocateMultiplier(Some(pair)) => ActionView::AllocateMultiplier(
                Some((pair.0@, pair.1@)),
            ),
            Action::AllocateMultiplier(None) => ActionView::AllocateMultiplier(None),
            Action::Constrain(lc) => ActionView::Constrain(lc@),
        }
    }
}

impl Action {
    /// A copy of the request.
    pub fn duplicate(&self) -> (r: Action)
        ensures
            r@ == self@,
    {
        match self {
            Action::Multiply(left, right) => Action::Multiply(left.duplicate(), right.duplicate()),
            Action::AllocateMultiplier(inputs) => Action::AllocateMultiplier(*inputs),
            Action::Constrain(lc) => Action::Constrain(lc.duplicate()),
        }
    }
}

/// The values of a sequence of scalars.
pub open spec fn scalars_view(scalars: Seq<Scalar>) -> Seq<nat> {
    Seq::new(scalars.len(), |i: int| scalars[i]@)
}

/// The requests that a sequence of actions holds.
pub open spec fn actions_view(actions: Seq<Action>) -> Seq<ActionView> {
    Seq::new(actions.len(), |i: int| actions[i]@)
}

/// The three wires of gate number `n`: left input, right input, output.
pub open spec fn gate_wires(n: nat) -> (Wire, Wire, Wire) {
    (
        Wire::MultiplierLeft(n as usize),
        Wire::MultiplierRight(n as usize),
        Wire::MultiplierOutput(n as usize),
    )
}

/// A circuit as a mathematical value.
pub struct CircuitView {
    /// Whether the circuit is built by a prover, who must know every gate's inputs.
    pub prover: bool,
    /// The number of gates so far, which is the number of the next gate.
    pub gates: nat,
    /// The challenges not yet handed out, in the order in which they will be.
    pub challenges: Seq<nat>,
    /// The requests made so far, oldest first.
    pub actions: Seq<ActionView>,
}

impl CircuitView {
    /// The circuit after one more gate was added by the given request.
    pub open spec fn with_gate(self, action: ActionView) -> CircuitView {
        CircuitView { gates: self.gates + 1, actions: self.actions.push(action), ..self }
    }

    /// The circuit after one more linear constraint.
    pub open spec fn with_constraint(self, lc: Seq<TermView>) -> CircuitView {
        CircuitView { actions: self.actions.push(ActionView::Constrain(lc)), ..self }
    }

    /// The circuit after its next challenge was handed out.
    pub open spec fn without_challenge(self) -> CircuitView {
        CircuitView { challenges: self.challenges.skip(1), ..self }
    }

    /// Whether a gate with the given input values can be allocated: a
    /// verifier never needs them, a prover always does.
    pub open spec fn admits(self, assignment: Option<(nat, nat)>) -> bool {
        !self.prover || assignment.is_some()
    }
}

/// A constraint system under construction.
#[derive(Debug)]
pub struct Circuit {
    prover: bool,
    next_gate: usize,
    challenges: Vec<Scalar>,
    drawn: usize,
    actions: Vec<Action>,
}

impl Clone for Circuit {
    fn clone(&self) -> (r: Circuit)
        ensures
            r@ == self@,
    {
        self.duplicate()
    }
}

impl View for Circuit {
    type V = CircuitView;

    closed spec fn view(&self) -> CircuitView {
        CircuitView {
            prover: self.prover,
            gates: self.next_gate as nat,
            challenges: if self.drawn <= self.challenges@.len() {
                scalars_view(self.challenges@.skip(self.drawn as int))
            } else {
                Seq::empty()
            },
            actions: actions_view(self.actions@),
        }
    }
}

impl Circuit {
    /// A circuit with no requests yet, for a prover or for a verifier. Its
    /// first gate gets the number `first_gate`, and it hands out the given
    /// challenges in their order.
    pub fn new(prover: bool, first_gate: usize, challenges: Vec<Scalar>) -> (r: Circuit)
        ensures
            r@ == (CircuitView {
                prover,
                gates: first_gate as nat,
                challenges: scalars_view(challenges@),
                actions: Seq::empty(),
            }),
    {
        let r = Circuit { prover, next_gate: first_gate, challenges, drawn: 0, actions: Vec::new() };
        assert(r@.challenges =~= scalars_view(challenges@));
        assert(r@.actions =~= Seq::empty());
        r
    }

    /// A copy of the circuit: the same role, gates, challenges still to come
    /// and requests.
    pub fn duplicate(&self) -> (r: Circuit)
        ensures
            r@ == self@,
    {
        let mut challenges: Vec<Scalar> = Vec::new();
        let mut i: usize = 0;
        while i < self.challenges.len()
            invariant
                i <= self.challenges.len(),
                challenges@ == self.challenges@.take(i as int),
            decreases self.challenges.len() - i,
        {
            challenges.push(self.challenges[i]);
            assert(self.challenges@.take(i + 1) =~= self.challenges@.take(i as int).push(
                self.challenges@[i as int],
            ));
            i += 1;
        }
        assert(self.challenges@.take(self.challenges.len() as int) =~= self.challenges@);
        let mut actions: Vec<Action> = Vec::new();
        let mut j: usize = 0;
        while j < self.actions.len()
            invariant
                j <= self.actions.len(),
                actions@.len() == j,
                forall|k: int| 0 <= k < j ==> actions@[k]@ == self.actions@[k]@,
            decreases self.actions.len() - j,
        {
            actions.push(self.actions[j].duplicate());
            j += 1;
        }
        assert(actions_view(actions@) =~= actions_view(self.actions@));
        Circuit {
            prover: self.prover,
            next_gate: self.next_gate,
            challenges,
            drawn: self.drawn,
            actions,
        }
    }

    /// Whether a prover builds this circuit.
    pub fn is_prover(&self) -> (r: bool)
        ensures
            r == self@.prover,
    {
        self.prover
    }

    /// The number of gates so far, counted from the number of the first gate.
    pub fn gate_count(&self) -> (r: usize)
        ensures
            r == self@.gates,
    {
        self.next_gate
    }

    /// The number of challenges not yet handed out.
    pub fn challenges_left(&self) -> (r: usize)
        ensures
            r == self@.challenges.len(),
    {
        if self.drawn <= self.challenges.len() {
            self.challenges.len() - self.drawn
        } else {
            0
        }
    }

    /// The requests made so far, oldest first.
    pub fn actions(&self) -> (r: &Vec<Action>)
        ensures
            actions_view(r@) == self@.actions,
    {
        &self.actions
    }

    /// Adds a gate whose left and right inputs are constrained to `left` and
    /// `right`, and returns its three wires.
    pub fn multiply(&mut self, left: LinearCombination, right: LinearCombination) -> (r: (
        Wire,
        Wire,
        Wire,
    ))
        requires
            old(self)@.gates < usize::MAX,
        ensures
            r == gate_wires(old(self)@.gates),
            final(self)@ == old(self)@.with_gate(ActionView::Multiply(left@, right@)),
    {
        let n = self.next_gate;
        self.actions.push(Action::Multiply(left, right));
        self.next_gate = n + 1;
        assert(self@.actions =~= old(self)@.actions.push(ActionView::Multiply(left@, right@)));
        (Wire::MultiplierLeft(n), Wire::MultiplierRight(n), Wire::MultiplierOutput(n))
    }

    /// Adds a gate with free inputs and returns its three wires. A prover
    /// must give the input values; without them nothing is added.
    pub fn allocate_multiplier(&mut self, assignment: Option<(Scalar, Scalar)>) -> (r: Result<
        (Wire, Wire, Wire),
        R1CSError,
    >)
        requires
            old(self)@.gates < usize::MAX,
        ensures
            old(self)@.admits(pair_view(assignment)) ==> r == Ok::<_, R1CSError>(
                gate_wires(old(self)@.gates),
            ) && final(self)@ == old(self)@.with_gate(
                ActionView::AllocateMultiplier(pair_view(assignment)),
            ),
            !old(self)@.admits(pair_view(assignment)) ==> r == Err::<(Wire, Wire, Wire), _>(
                R1CSError::MissingAssignment,
            ) && final(self)@ == old(self)@,
    {
        if self.prover && assignment.is_none() {
            return Err(R1CSError::MissingAssignment);
        }
        let n = self.next_gate;
        self.actions.push(Action::AllocateMultiplier(assignment));
        self.next_gate = n + 1;
        assert(self@.actions =~= old(self)@.actions.push(
            ActionView::AllocateMultiplier(pair_view(assignment)),
        ));
        Ok((Wire::MultiplierLeft(n), Wire::MultiplierRight(n), Wire::MultiplierOutput(n)))
    }

    /// Adds the constraint that `lc` is zero.
    pub fn constrain(&mut self, lc: LinearCombination)
        ensures
            final(self)@ == old(self)@.with_constraint(lc@),
    {
        self.actions.push(Action::Constrain(lc));
        assert(self@.actions =~= old(self)@.actions.push(ActionView::Constrain(lc@)));
    }

    /// Hands out the next challenge, or fails where none is left.
    pub fn challenge_scalar(&mut self) -> (r: Result<Scalar, R1CSError>)
        ensures
            old(self)@.challenges.len() > 0 ==> r.is_ok() && r.unwrap()@ == old(
                self,
            )@.challenges[0] && final(self)@ == old(self)@.without_challenge(),
            old(self)@.challenges.len() == 0 ==> r == Err::<Scalar, _>(R1CSError::MissingChallenge)
                && final(self)@ == old(self)@,
    {
        if self.drawn < self.challenges.len() {
            let z = self.challenges[self.drawn];
            self.drawn = self.drawn + 1;
            assert(self@.challenges =~= old(self)@.challenges.skip(1));
            Ok(z)
        } else {
            Err(R1CSError::MissingChallenge)
        }
    }
}

/// The values of a pair of scalars that may be absent.
pub open spec fn pair_view(pair: Option<(Scalar, Scalar)>) -> Option<(nat, nat)> {
    match pair {
        Some(p) => Some((p.0@, p.1@)),
        None => None,
    }
}

} // verus!
