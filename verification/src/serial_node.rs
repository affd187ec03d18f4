use crate::behavior_tree_node::{BehaviorTreeNode, NodeResult};
use num_traits::FromPrimitive;
use vstd::prelude::*;

verus! {

/// An enumeration of nodes, all of which have the same input, nonterminals
/// and terminals. Each variant is one possible subnode of a serial branch
/// node, and each has a discriminant that names it.
pub trait EnumNode: BehaviorTreeNode {
    /// The type that enumerates the variants. It is apart from the node, so
    /// that a variant can be named and matched on without a node at hand.
    type Discriminant: Copy;

    /// The fresh node of the variant that `discriminant` names.
    spec fn new_spec(discriminant: Self::Discriminant) -> Self;

    /// The discriminant of the variant that this node is.
    spec fn discriminant_spec(&self) -> Self::Discriminant;

    /// Initialize a new node with the given discriminant value.
    fn new(discriminant: Self::Discriminant) -> (node: Self)
        ensures
            node == Self::new_spec(discriminant),
    ;

    /// The discriminant of this node's variant. The node stays as it is.
    fn discriminant_of(&self) -> (discriminant: Self::Discriminant)
        ensures
            discriminant == self.discriminant_spec(),
    ;

    /// A fresh node is of the variant it was asked for.
    proof fn lemma_new_discriminant(discriminant: Self::Discriminant)
        ensures
            Self::new_spec(discriminant).discriminant_spec() == discriminant,
    ;

    /// A step never changes the variant: the node that comes back from a
    /// nonterminal step is of the variant that was stepped.
    proof fn lemma_step_keeps_discriminant(self, input: Self::Input)
        ensures
            self.step_spec(input) matches NodeResult::Nonterminal(_, next)
                ==> next.discriminant_spec() == self.discriminant_spec(),
    ;
}

/// Enumeration of the possible decisions when the child node reaches a
/// nonterminal state.
#[derive(Copy, Clone, PartialEq, Debug)]
pub enum NontermDecision<E, T, X> {
    /// Step the current subnode.
    Step(T),
    /// Transition from the current subnode to a new one.
    Trans(E, T),
    /// Exit the current supernode entirely.
    Exit(X),
}

/// Enumeration of the possible decisions when the child node reaches a
/// terminal state. The child is gone by then, so it cannot be stepped again.
#[derive(Copy, Clone, PartialEq, Debug)]
pub enum TermDecision<E, T, X> {
    /// Transition from the current subnode to a new one.
    Trans(E, T),
    /// Exit the current supernode entirely.
    Exit(X),
}

/// Nonterminal return type of the `SerialBranchNode`. The discriminant in it
/// names the variant that was stepped.
#[derive(Copy, Clone, PartialEq, Debug)]
pub enum NontermReturn<E, N, T> {
    /// Nonterminal of a subnode.
    Nonterminal(E, N),
    /// Terminal of a subnode.
    Terminal(E, T),
}

/// The transition behavior of a `SerialBranchNode`. Both methods are total:
/// they decide for every discriminant and every value.
pub trait SerialDecider {
    /// Type of the enumerating discriminant.
    type Enum;

    /// Type of the inputs of the subnodes.
    type Input;

    /// Type of the nonterminals of the subnodes.
    type Nonterm;

    /// Type of the terminals of the subnodes.
    type Term;

    /// Supernode terminal type.
    type Exit;

    /// The decision at a nonterminal state.
    spec fn on_nonterminal_spec(
        &self,
        input: Self::Input,
        discriminant: Self::Enum,
        nonterm: Self::Nonterm,
    ) -> NontermDecision<Self::Enum, Self::Nonterm, Self::Exit>;

    /// The decision at a terminal state.
    spec fn on_terminal_spec(
        &self,
        input: Self::Input,
        discriminant: Self::Enum,
        term: Self::Term,
    ) -> TermDecision<Self::Enum, Self::Term, Self::Exit>;

    /// Given a reference to the input, the discriminant of the subnode that
    /// was stepped and its nonterminal state, decide what to do.
    fn on_nonterminal(
        &self,
        input: &Self::Input,
        discriminant: Self::Enum,
        nonterm: Self::Nonterm,
    ) -> (decision: NontermDecision<Self::Enum, Self::Nonterm, Self::Exit>)
        ensures
            decision == self.on_nonterminal_spec(*input, discriminant, nonterm),
    ;

    /// Given a reference to the input, the discriminant of the subnode that
    /// was stepped and its terminal state, decide what to do.
    fn on_terminal(&self, input: &Self::Input, discriminant: Self::Enum, term: Self::Term) -> (decision:
        TermDecision<Self::Enum, Self::Term, Self::Exit>)
        ensures
            decision == self.on_terminal_spec(*input, discriminant, term),
    ;
}

/// A serial branch node, which is composed of a `SerialDecider` on top of an
/// enumerable node type.
///
/// The `EnumNode` describes the possible subordinate nodes. Execution
/// proceeds along one of them. After each step the decider says, from the
/// input and the state that was reached, whether to go on with it, to switch
/// to a new child node, or to leave the whole parent node.
#[derive(Copy, Clone, PartialEq, Debug)]
pub struct SerialBranchNode<E, D> where
    E: EnumNode,
    D: SerialDecider<
        Enum = E::Discriminant,
        Input = E::Input,
        Nonterm = E::Nonterminal,
        Term = E::Terminal,
    >,
 {
    /// The subnode that is running.
    pub node: E,
    /// The policy that is asked after each step.
    pub decider: D,
}

impl<E, D> SerialBranchNode<E, D> where
    E: EnumNode,
    D: SerialDecider<
        Enum = E::Discriminant,
        Input = E::Input,
        Nonterm = E::Nonterminal,
        Term = E::Terminal,
    >,
 {
    /// The branch node that runs a fresh subnode of the given variant.
    pub open spec fn new_spec(decider: D, variant: E::Discriminant) -> Self {
        SerialBranchNode { node: E::new_spec(variant), decider }
    }

    /// The variant that is running.
    pub open spec fn variant(self) -> E::Discriminant {
        self.node.discriminant_spec()
    }

    /// Create a new serial branch node for the given discriminant.
    pub fn new(decider: D, variant: E::Discriminant) -> (branch: SerialBranchNode<E, D>)
        ensures
            branch == Self::new_spec(decider, variant),
            branch.variant() == variant,
    {
        proof {
            E::lemma_new_discriminant(variant);
        }
        SerialBranchNode { node: E::new(variant), decider: decider }
    }

    /// The branch node for the given discriminant, if there is one.
    pub fn new_if_some(decider: D, variant: Option<E::Discriminant>) -> (branch: Option<
        SerialBranchNode<E, D>,
    >)
        ensures
            branch == match variant {
                Some(v) => Some(Self::new_spec(decider, v)),
                None => None,
            },
            branch matches Some(b) ==> b.variant() == variant.unwrap(),
    {
        match variant {
            Some(v) => Some(Self::new(decider, v)),
            None => None,
        }
    }

    /// Wrap an existing enumerated node in a serial branch node.
    pub fn from_existing(decider: D, existing: E) -> (branch: SerialBranchNode<E, D>)
        ensures
            branch == (SerialBranchNode { node: existing, decider }),
    {
        SerialBranchNode { node: existing, decider: decider }
    }
}

/// Calls `num_traits::FromPrimitive::from_u64` for the type `T`. What comes
/// back is up to the impl that `T` has of that trait, so nothing is claimed
/// of it.
#[verifier::external_body]
fn discriminant_from_u64<T: FromPrimitive>(n: u64) -> (discriminant: Option<T>) {
    T::from_u64(n)
}

impl<E, D> SerialBranchNode<E, D> where
    E: EnumNode,
    E::Discriminant: FromPrimitive,
    D: SerialDecider<
        Enum = E::Discriminant,
        Input = E::Input,
        Nonterm = E::Nonterminal,
        Term = E::Terminal,
    > + Default,
 {
    /// The branch node with the default decider that runs the variant whose
    /// discriminant stands for the number 0, or `None` where the enumeration
    /// has no discriminant for 0.
    pub fn first() -> (branch: Option<SerialBranchNode<E, D>>)
        ensures
            branch matches Some(b) ==> exists|variant: E::Discriminant|
                b.node == E::new_spec(variant) && b.variant() == variant,
    {
        let first: Option<E::Discriminant> = discriminant_from_u64(0);
        let branch = Self::new_if_some(D::default(), first);
        proof {
            if branch is Some {
                let b = branch.unwrap();
                let variant = first.unwrap();
                assert(b.node == E::new_spec(variant) && b.variant() == variant);
            }
        }
        branch
    }
}

impl<E, D> BehaviorTreeNode for SerialBranchNode<E, D> where
    E: EnumNode,
    D: SerialDecider<
        Enum = E::Discriminant,
        Input = E::Input,
        Nonterm = E::Nonterminal,
        Term = E::Terminal,
    >,
 {
    type Input = E::Input;

    type Nonterminal = NontermReturn<E::Discriminant, E::Nonterminal, E::Terminal>;

    type Terminal = D::Exit;

    /// One step of the branch node. The subnode is stepped, and the decider
    /// gets the discriminant that it had before the step. Going on keeps the
    /// subnode that came back; a transition drops it and starts the new
    /// variant afresh; an exit ends the branch node.
    open spec fn step_spec(self, input: E::Input) -> NodeResult<
        Self::Nonterminal,
        D::Exit,
        Self,
    > {
        let discriminant = self.node.discriminant_spec();
        match self.node.step_spec(input) {
            NodeResult::Nonterminal(i, n) => match self.decider.on_nonterminal_spec(
                input,
                discriminant,
                i,
            ) {
                NontermDecision::Step(j) => NodeResult::Nonterminal(
                    NontermReturn::Nonterminal(discriminant, j),
                    SerialBranchNode { node: n, decider: self.decider },
                ),
                NontermDecision::Trans(e, j) => NodeResult::Nonterminal(
                    NontermReturn::Nonterminal(discriminant, j),
                    Self::new_spec(self.decider, e),
                ),
                NontermDecision::Exit(x) => NodeResult::Terminal(x),
            },
            NodeResult::Terminal(i) => match self.decider.on_terminal_spec(
                input,
                discriminant,
                i,
            ) {
                TermDecision::Trans(e, j) => NodeResult::Nonterminal(
                    NontermReturn::Terminal(discriminant, j),
                    Self::new_spec(self.decider, e),
                ),
                TermDecision::Exit(x) => NodeResult::Terminal(x),
            },
        }
    }

    fn step(self, input: &E::Input) -> (r: NodeResult<Self::Nonterminal, D::Exit, Self>) {
        let discriminant = self.node.discriminant_of();
        let SerialBranchNode { node, decider } = self;
        match node.step(input) {
            NodeResult::Nonterminal(i, n) => {
                match decider.on_nonterminal(input, discriminant, i) {
                    NontermDecision::Step(j) => NodeResult::Nonterminal(
                        NontermReturn::Nonterminal(discriminant, j),
                        Self::from_existing(decider, n),
                    ),
                    NontermDecision::Trans(e, j) => NodeResult::Nonterminal(
                        NontermReturn::Nonterminal(discriminant, j),
                        Self::new(decider, e),
                    ),
                    NontermDecision::Exit(x) => NodeResult::Terminal(x),
                }
            },
            NodeResult::Terminal(i) => {
                match decider.on_terminal(input, discriminant, i) {
                    TermDecision::Trans(e, j) => NodeResult::Nonterminal(
                        NontermReturn::Terminal(discriminant, j),
                        Self::new(decider, e),
                    ),
                    TermDecision::Exit(x) => NodeResult::Terminal(x),
                }
            },
        }
    }
}

impl<E, D> SerialBranchNode<E, D> where
    E: EnumNode,
    D: SerialDecider<
        Enum = E::Discriminant,
        Input = E::Input,
        Nonterm = E::Nonterminal,
        Term = E::Terminal,
    >,
 {
    /// The variant that the decider asks for on `input`, if it asks for a
    /// transition.
    pub open spec fn transition_target(self, input: E::Input) -> Option<E::Discriminant> {
        match self.node.step_spec(input) {
            NodeResult::Nonterminal(i, _) => match self.decider.on_nonterminal_spec(
                input,
                self.variant(),
                i,
            ) {
                NontermDecision::Trans(e, _) => Some(e),
                _ => None,
            },
            NodeResult::Terminal(i) => match self.decider.on_terminal_spec(
                input,
                self.variant(),
                i,
            ) {
                TermDecision::Trans(e, _) => Some(e),
                _ => None,
            },
        }
    }

    /// Whether the decider asks on `input` to leave the branch node.
    pub open spec fn exits(self, input: E::Input) -> bool {
        match self.node.step_spec(input) {
            NodeResult::Nonterminal(i, _) => self.decider.on_nonterminal_spec(
                input,
                self.variant(),
                i,
            ) is Exit,
            NodeResult::Terminal(i) => self.decider.on_terminal_spec(
                input,
                self.variant(),
                i,
            ) is Exit,
        }
    }

    /// The discriminant in a nonterminal return is that of the variant that
    /// ran before the step, also where the step ends in a transition. Which
    /// of the two forms the return has says whether the subnode ended.
    pub proof fn lemma_reports_variant_before_step(self, input: E::Input)
        ensures
            match self.step_spec(input) {
                NodeResult::Nonterminal(NontermReturn::Nonterminal(discriminant, _), _) => {
                    &&& discriminant == self.variant()
                    &&& self.node.step_spec(input) is Nonterminal
                },
                NodeResult::Nonterminal(NontermReturn::Terminal(discriminant, _), _) => {
                    &&& discriminant == self.variant()
                    &&& self.node.step_spec(input) is Terminal
                },
                NodeResult::Terminal(_) => true,
            },
    {
    }

    /// The branch node ends exactly where the decider asks for an exit. It
    /// then leaves no branch node behind, and in every other case it leaves
    /// one that holds the same decider.
    pub proof fn lemma_exit_ends_branch(self, input: E::Input)
        ensures
            self.step_spec(input) is Terminal <==> self.exits(input),
            self.exits(input) <==> self.step_spec(input).continuation() is None,
            self.step_spec(input).continuation() matches Some(next) ==> next.decider
                == self.decider,
    {
    }

    /// After a transition the branch node is the one that `new` makes for the
    /// variant asked for: nothing of the subnode that ran before is left, and
    /// its next step is the first step of a fresh subnode.
    pub proof fn lemma_transition_starts_fresh(self, input: E::Input, next_input: E::Input)
        ensures
            self.transition_target(input) matches Some(target) ==> {
                &&& self.step_spec(input).continuation() == Some(
                    Self::new_spec(self.decider, target),
                )
                &&& self.step_spec(input).continuation().unwrap().node.step_spec(next_input)
                    == E::new_spec(target).step_spec(next_input)
            },
    {
    }

    /// Which variant runs after a step: the one asked for after a transition,
    /// and the same as before where the decider goes on.
    pub proof fn lemma_next_variant(self, input: E::Input)
        ensures
            self.step_spec(input).continuation() matches Some(next) ==> next.variant()
                == match self.transition_target(input) {
                Some(target) => target,
                None => self.variant(),
            },
    {
        self.node.lemma_step_keeps_discriminant(input);
        match self.transition_target(input) {
            Some(target) => {
                E::lemma_new_discriminant(target);
            },
            None => {},
        }
    }
}

} // verus!
