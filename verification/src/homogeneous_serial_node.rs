use crate::behavior_tree_node::{BehaviorTreeNode, NodeResult};
use std::marker::PhantomData;
use vstd::prelude::*;

verus! {

/// An enumeration of nodes that wraps one node type `N`: every variant has
/// the input, nonterminals and terminals of `N`.
pub trait NodeEnumeration<N>: Sized where N: BehaviorTreeNode {
    /// The type that enumerates the variants. It is apart from the node, so
    /// that a variant can be named and matched on without a node at hand.
    type Enumerator;

    /// The fresh enumerated node of the variant that `variant` names.
    spec fn new_spec(variant: Self::Enumerator) -> Self;

    /// The enumerated node that wraps `existing`.
    spec fn from_existing_spec(existing: N) -> Self;

    /// The enumerator of the variant that this node is.
    spec fn discriminant_spec(&self) -> Self::Enumerator;

    /// The node inside.
    spec fn inner_val_spec(self) -> N;

    /// Builds a fresh node of the given variant.
    fn new(variant: Self::Enumerator) -> (node: Self)
        ensures
            node == Self::new_spec(variant),
    ;

    /// Wraps a node that exists already. Its variant is read off the node.
    fn from_existing(existing: N) -> (node: Self)
        ensures
            node == Self::from_existing_spec(existing),
    ;

    /// The enumerator of this node's variant. The node stays as it is.
    fn discriminant(&self) -> (variant: Self::Enumerator)
        ensures
            variant == self.discriminant_spec(),
    ;

    /// Takes the node out and drops what names its variant.
    fn inner_val(self) -> (inner: N)
        ensures
            inner == self.inner_val_spec(),
    ;

    /// A fresh node is of the variant it was asked for.
    proof fn lemma_new_discriminant(variant: Self::Enumerator)
        ensures
            Self::new_spec(variant).discriminant_spec() == variant,
    ;

    /// Wrapping a node keeps it: the node taken out again is the one that
    /// went in.
    proof fn lemma_from_existing_inner(existing: N)
        ensures
            Self::from_existing_spec(existing).inner_val_spec() == existing,
    ;

    /// A step never changes the variant: the node that comes back from a
    /// nonterminal step, wrapped again, is of the variant that was stepped.
    proof fn lemma_step_keeps_discriminant(self, input: N::Input)
        ensures
            self.inner_val_spec().step_spec(input) matches NodeResult::Nonterminal(_, next)
                ==> Self::from_existing_spec(next).discriminant_spec()
                == self.discriminant_spec(),
    ;
}

/// Enumeration of the possible decisions when the child node reaches a
/// nonterminal state.
pub enum NontermDecision<T, X> {
    /// Step the current subnode.
    Step,
    /// Transition from the current subnode to a new one.
    Trans(T),
    /// Exit the current supernode entirely.
    Exit(X),
}

/// Enumeration of the possible decisions when the child node reaches a
/// terminal state. The child is gone by then, so it cannot be stepped again.
pub enum TermDecision<T, X> {
    /// Transition from the current subnode to a new one.
    Trans(T),
    /// Exit the current supernode entirely.
    Exit(X),
}

/// Nonterminal return type of the `HomogeneousSerialNode`. The enumerator
/// in it names the variant that was stepped.
pub enum NontermReturn<E, N, T> {
    /// Nonterminal of a subnode.
    Nonterminal(E, N),
    /// Terminal of a subnode.
    Terminal(E, T),
}

/// The transition behavior of a `HomogeneousSerialNode`. It holds no state
/// and sees only the variant that was stepped and the state it reached. Both
/// functions are total: they decide for every variant and every value.
pub trait SerialDecider<E, N, T, X> {
    /// The decision at a nonterminal state.
    spec fn on_nonterminal_spec(variant: E, nonterm: N) -> NontermDecision<E, X>;

    /// The decision at a terminal state.
    spec fn on_terminal_spec(variant: E, term: T) -> TermDecision<E, X>;

    /// Given the variant that was stepped and its nonterminal state, decide
    /// what to do.
    fn on_nonterminal(variant: &E, nonterm: &N) -> (decision: NontermDecision<E, X>)
        ensures
            decision == Self::on_nonterminal_spec(*variant, *nonterm),
    ;

    /// Given the variant that was stepped and its terminal state, decide
    /// what to do.
    fn on_terminal(variant: &E, term: &T) -> (decision: TermDecision<E, X>)
        ensures
            decision == Self::on_terminal_spec(*variant, *term),
    ;
}

/// A serial node over an enumeration `E` of nodes of one type `N`, with the
/// decider `D` and the exit type `X`. It runs one variant at a time and asks
/// the decider after each step.
pub struct HomogeneousSerialNode<E, N, D, X> where
    N: BehaviorTreeNode,
    E: NodeEnumeration<N>,
    D: SerialDecider<E::Enumerator, N::Nonterminal, N::Terminal, X>,
 {
    /// The enumerated node that is running.
    pub node: E,
    /// Stands for the three type parameters that no field holds.
    pub _exists_tuple: PhantomData<(N, D, X)>,
}

impl<E, N, D, X> HomogeneousSerialNode<E, N, D, X> where
    N: BehaviorTreeNode,
    E: NodeEnumeration<N>,
    D: SerialDecider<E::Enumerator, N::Nonterminal, N::Terminal, X>,
 {
    /// The serial node that runs `node`.
    pub open spec fn with_node(node: E) -> Self {
        HomogeneousSerialNode { node, _exists_tuple: PhantomData }
    }

    /// The variant that is running.
    pub open spec fn variant(self) -> E::Enumerator {
        self.node.discriminant_spec()
    }

    /// Create a new serial node that runs a fresh node of the given variant.
    pub fn new(variant: E::Enumerator) -> (serial: HomogeneousSerialNode<E, N, D, X>)
        ensures
            serial == Self::with_node(E::new_spec(variant)),
            serial.variant() == variant,
    {
        proof {
            E::lemma_new_discriminant(variant);
        }
        HomogeneousSerialNode { node: E::new(variant), _exists_tuple: PhantomData }
    }

    /// Wrap an existing node in a serial node.
    pub fn from_existing_node(existing: N) -> (serial: HomogeneousSerialNode<E, N, D, X>)
        ensures
            serial == Self::with_node(E::from_existing_spec(existing)),
    {
        HomogeneousSerialNode { node: E::from_existing(existing), _exists_tuple: PhantomData }
    }
}

impl<E, N, D, X> Default for HomogeneousSerialNode<E, N, D, X> where
    N: BehaviorTreeNode,
    E: NodeEnumeration<N>,
    E::Enumerator: Default,
    D: SerialDecider<E::Enumerator, N::Nonterminal, N::Terminal, X>,
 {
    /// The serial node that runs a fresh node of the default variant.
    fn default() -> (serial: HomogeneousSerialNode<E, N, D, X>)
        ensures
            exists|variant: E::Enumerator|
                serial == Self::with_node(E::new_spec(variant)) && serial.variant() == variant,
    {
        let variant = E::Enumerator::default();
        let serial = HomogeneousSerialNode::new(variant);
        proof {
            assert(serial == Self::with_node(E::new_spec(variant)) && serial.variant() == variant);
        }
        serial
    }
}

impl<E, N, D, X> BehaviorTreeNode for HomogeneousSerialNode<E, N, D, X> where
    N: BehaviorTreeNode,
    E: NodeEnumeration<N>,
    E::Enumerator: Default,
    D: SerialDecider<E::Enumerator, N::Nonterminal, N::Terminal, X>,
 {
    type Input = N::Input;

    type Nonterminal = NontermReturn<E::Enumerator, N::Nonterminal, N::Terminal>;

    type Terminal = X;

    /// One step of the serial node. The node inside is stepped, and the
    /// decider gets the variant that it had before the step. Going on wraps
    /// the node that came back; a transition drops it and starts the new
    /// variant afresh; an exit ends the serial node. The value that the
    /// subnode returned is handed out as it is.
    open spec fn step_spec(self, input: N::Input) -> NodeResult<Self::Nonterminal, X, Self> {
        let variant = self.node.discriminant_spec();
        match self.node.inner_val_spec().step_spec(input) {
            NodeResult::Nonterminal(i, n) => match D::on_nonterminal_spec(variant, i) {
                NontermDecision::Step => NodeResult::Nonterminal(
                    NontermReturn::Nonterminal(variant, i),
                    Self::with_node(E::from_existing_spec(n)),
                ),
                NontermDecision::Trans(e) => NodeResult::Nonterminal(
                    NontermReturn::Nonterminal(variant, i),
                    Self::with_node(E::new_spec(e)),
                ),
                NontermDecision::Exit(x) => NodeResult::Terminal(x),
            },
            NodeResult::Terminal(i) => match D::on_terminal_spec(variant, i) {
                TermDecision::Trans(e) => NodeResult::Nonterminal(
                    NontermReturn::Terminal(variant, i),
                    Self::with_node(E::new_spec(e)),
                ),
                TermDecision::Exit(x) => NodeResult::Terminal(x),
            },
        }
    }

    fn step(self, input: &N::Input) -> (r: NodeResult<Self::Nonterminal, X, Self>) {
        let discriminant = self.node.discriminant();
        match self.node.inner_val().step(input) {
            NodeResult::Nonterminal(i, n) => {
                match D::on_nonterminal(&discriminant, &i) {
                    NontermDecision::Step => NodeResult::Nonterminal(
                        NontermReturn::Nonterminal(discriminant, i),
                        Self::from_existing_node(n),
                    ),
                    NontermDecision::Trans(e) => NodeResult::Nonterminal(
                        NontermReturn::Nonterminal(discriminant, i),
                        Self::new(e),
                    ),
                    NontermDecision::Exit(x) => NodeResult::Terminal(x),
                }
            },
            NodeResult::Terminal(i) => {
                match D::on_terminal(&discriminant, &i) {
                    TermDecision::Trans(e) => NodeResult::Nonterminal(
                        NontermReturn::Terminal(discriminant, i),
                        Self::new(e),
                    ),
                    TermDecision::Exit(x) => NodeResult::Terminal(x),
                }
            },
        }
    }
}

impl<E, N, D, X> HomogeneousSerialNode<E, N, D, X> where
    N: BehaviorTreeNode,
    E: NodeEnumeration<N>,
    E::Enumerator: Default,
    D: SerialDecider<E::Enumerator, N::Nonterminal, N::Terminal, X>,
 {
    /// The variant that the decider asks for on `input`, if it asks for a
    /// transition.
    pub open spec fn transition_target(self, input: N::Input) -> Option<E::Enumerator> {
        match self.node.inner_val_spec().step_spec(input) {
            NodeResult::Nonterminal(i, _) => match D::on_nonterminal_spec(self.variant(), i) {
                NontermDecision::Trans(e) => Some(e),
                _ => None,
            },
            NodeResult::Terminal(i) => match D::on_terminal_spec(self.variant(), i) {
                TermDecision::Trans(e) => Some(e),
                _ => None,
            },
        }
    }

    /// Whether the decider asks on `input` to leave the serial node.
    pub open spec fn exits(self, input: N::Input) -> bool {
        match self.node.inner_val_spec().step_spec(input) {
            NodeResult::Nonterminal(i, _) => D::on_nonterminal_spec(self.variant(), i) is Exit,
            NodeResult::Terminal(i) => D::on_terminal_spec(self.variant(), i) is Exit,
        }
    }

    /// The enumerator in a nonterminal return is that of the variant that
    /// ran before the step, also where the step ends in a transition, and
    /// the value beside it is the one that the subnode returned.
    pub proof fn lemma_reports_variant_before_step(self, input: N::Input)
        ensures
            match self.step_spec(input) {
                NodeResult::Nonterminal(NontermReturn::Nonterminal(variant, value), _) => {
                    &&& variant == self.variant()
                    &&& self.node.inner_val_spec().step_spec(input) matches NodeResult::Nonterminal(
                        i,
                        _,
                    ) && i == value
                },
                NodeResult::Nonterminal(NontermReturn::Terminal(variant, value), _) => {
                    &&& variant == self.variant()
                    &&& self.node.inner_val_spec().step_spec(input) == NodeResult::<
                        N::Nonterminal,
                        N::Terminal,
                        N,
                    >::Terminal(value)
                },
                NodeResult::Terminal(_) => true,
            },
    {
    }

    /// The serial node ends exactly where the decider asks for an exit, and
    /// then leaves no serial node behind.
    pub proof fn lemma_exit_ends_serial(self, input: N::Input)
        ensures
            self.step_spec(input) is Terminal <==> self.exits(input),
            self.exits(input) <==> self.step_spec(input).continuation() is None,
    {
    }

    /// After a transition the serial node is the one that `new` makes for the
    /// variant asked for: nothing of the subnode that ran before is left.
    pub proof fn lemma_transition_starts_fresh(self, input: N::Input)
        ensures
            self.transition_target(input) matches Some(target) ==> self.step_spec(
                input,
            ).continuation() == Some(Self::with_node(E::new_spec(target))),
    {
    }

    /// Which variant runs after a step: the one asked for after a transition,
    /// and the same as before where the decider goes on.
    pub proof fn lemma_next_variant(self, input: N::Input)
        ensures
            self.step_spec(input).continuation() matches Some(next) ==> next.variant()
                == match self.transition_target(input) {
                Some(target) => target,
                None => self.variant(),
            },
    {
        self.node.lemma_step_keeps_discriminant(input);
        match self.transition_target(input) {
            Some(target) => {
                E::lemma_new_discriminant(target);
            },
            None => {},
        }
    }
}

} // verus!
