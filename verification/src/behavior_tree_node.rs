use vstd::prelude::*;

verus! {

/// A state that a node has reached, as a leaf node reports it before it
/// commits to a continuation: either nonterminal or terminal.
#[derive(Copy, Clone, PartialEq, Debug)]
pub enum Statepoint<N, T> {
    /// A nonterminal state.
    Nonterminal(N),
    /// A terminal state.
    Terminal(T),
}

impl<N, T> Statepoint<N, T> {
    /// The same state as a `Result`: nonterminal is `Ok`, terminal is `Err`.
    pub open spec fn as_result(self) -> Result<N, T> {
        match self {
            Statepoint::Nonterminal(n) => Ok(n),
            Statepoint::Terminal(t) => Err(t),
        }
    }

    /// Turns the state into a `Result`, so that a terminal state can be
    /// handed on like an error.
    pub fn into_result(self) -> (r: Result<N, T>)
        ensures
            r == self.as_result(),
    {
        match self {
            Statepoint::Nonterminal(n) => Ok(n),
            Statepoint::Terminal(t) => Err(t),
        }
    }

    /// The terminal state that holds `term`.
    pub fn from_error(term: T) -> (s: Self)
        ensures
            s == Statepoint::<N, T>::Terminal(term),
    {
        Statepoint::Terminal(term)
    }

    /// The nonterminal state that holds `nonterm`.
    pub fn from_ok(nonterm: N) -> (s: Self)
        ensures
            s == Statepoint::<N, T>::Nonterminal(nonterm),
    {
        Statepoint::Nonterminal(nonterm)
    }
}

/// What one step of a node returns. The step takes the node by value. At a
/// nonterminal state the node comes back beside the value; at a terminal
/// state only the value comes back, and the node is gone for good.
#[derive(Copy, Clone, PartialEq, Debug)]
pub enum NodeResult<R, T, N> {
    /// A nonterminal state, along with the node itself.
    Nonterminal(R, N),
    /// A terminal state.
    Terminal(T),
}

impl<R, T, N> NodeResult<R, T, N> {
    /// The same result as a `Result`: nonterminal is `Ok` of value and node,
    /// terminal is `Err`.
    pub open spec fn as_result(self) -> Result<(R, N), T> {
        match self {
            NodeResult::Nonterminal(r, n) => Ok((r, n)),
            NodeResult::Terminal(t) => Err(t),
        }
    }

    /// The node that can be stepped next, if the result holds one.
    pub open spec fn continuation(self) -> Option<N> {
        match self {
            NodeResult::Nonterminal(_, n) => Some(n),
            NodeResult::Terminal(_) => None,
        }
    }

    /// Turns the result into a `Result`, so that a terminal state can be
    /// handed on like an error.
    pub fn into_result(self) -> (r: Result<(R, N), T>)
        ensures
            r == self.as_result(),
    {
        match self {
            NodeResult::Nonterminal(r, n) => Ok((r, n)),
            NodeResult::Terminal(t) => Err(t),
        }
    }

    /// The terminal result that holds `term`.
    pub fn from_error(term: T) -> (s: Self)
        ensures
            s == NodeResult::<R, T, N>::Terminal(term),
    {
        NodeResult::Terminal(term)
    }

    /// The nonterminal result made of the value and the node of `nonterm`.
    pub fn from_ok(nonterm: (R, N)) -> (s: Self)
        ensures
            s == NodeResult::<R, T, N>::Nonterminal(nonterm.0, nonterm.1),
    {
        NodeResult::Nonterminal(nonterm.0, nonterm.1)
    }

    /// A terminal result holds no node: after it nothing is left to step.
    pub proof fn lemma_terminal_ends_node(self)
        ensures
            self is Terminal <==> self.continuation() is None,
            self is Terminal <==> self.as_result() is Err,
    {
    }
}

/// A behavior tree node.
pub trait BehaviorTreeNode: Sized {
    /// Type of the input to take.
    type Input;

    /// Type of the nonterminal statepoints returned.
    type Nonterminal;

    /// Type of the terminal statepoints returned.
    type Terminal;

    /// What a step of this node on `input` returns.
    spec fn step_spec(self, input: Self::Input) -> NodeResult<
        Self::Nonterminal,
        Self::Terminal,
        Self,
    >;

    /// Given the input, perform a single step of the node: it returns either
    /// itself along with a nonterminal state, or a terminal state.
    fn step(self, input: &Self::Input) -> (r: NodeResult<Self::Nonterminal, Self::Terminal, Self>)
        ensures
            r == self.step_spec(*input),
    ;
}

} // verus!
