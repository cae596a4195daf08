//! The concrete syntax tree handed to the conversion engine: every node
//! carries a tag from the closed rule enumeration, an ordered list of child
//! nodes, and — meaningfully for nodes with no children — the exact source
//! text it matched.

use vstd::prelude::*;

verus! {

/// The closed enumeration of grammar rules. Each tag maps to exactly one
/// folding behaviour in the conversion engine.
#[derive(Debug, Clone, Copy, PartialEq, Eq, Structural)]
pub enum Rule {
    MainContract,
    Contract,
    Close,
    Pay,
    If,
    When,
    Let,
    Case,
    ArrayOfCases,
    Deposit,
    Choice,
    Notify,
    Bound,
    ArrayOfBounds,
    ChoiceId,
    PK,
    Role,
    PayeeAccount,
    PayeeParty,
    ADA,
    Currency,
    Constant,
    ConstantParam,
    UseValue,
    AvailableMoney,
    AddValue,
    SubValue,
    MulValue,
    DivValue,
    NegValue,
    ChoiceValue,
    Cond,
    TimeIntervalStart,
    TimeIntervalEnd,
    TrueObs,
    FalseObs,
    ValueGT,
    ValueGE,
    ValueLT,
    TimeConstant,
    TimeParam,
    Number,
    StringLit,
    PubKey,
    ActionHole,
    ContractHole,
    TokenHole,
    CaseHole,
    ValueHole,
    ObservationHole,
    PartyHole,
    FromPartyHole,
    BoundHole,
    PayeeHole,
    TimeoutHole,
}

/// One node of the concrete syntax tree.
#[derive(Debug, PartialEq, Eq)]
pub struct SyntaxNode {
    pub rule: Rule,
    pub children: Vec<SyntaxNode>,
    /// The matched source text; consulted only for nodes with no children.
    pub text: String,
}

impl SyntaxNode {
    /// A node with no children, carrying its matched text.
    pub fn leaf(rule: Rule, text: String) -> (r: SyntaxNode)
        ensures
            r.rule == rule,
            r.children@ =~= Seq::<SyntaxNode>::empty(),
            r.text == text,
            syntax_view(r) == leaf_v(rule, text@),
    {
        let r = SyntaxNode { rule, children: Vec::new(), text };
        proof {
            assert(views_of(r.children@) =~= Seq::<SyntaxNodeV>::empty());
        }
        r
    }

    /// An interior node over the given children, in source order.
    pub fn node(rule: Rule, children: Vec<SyntaxNode>) -> (r: SyntaxNode)
        ensures
            r.rule == rule,
            r.children == children,
            r.text@ =~= Seq::<char>::empty(),
    {
        SyntaxNode { rule, children, text: String::new() }
    }
}

/// An interior node over one child.
pub fn node1(rule: Rule, a: SyntaxNode) -> (r: SyntaxNode)
    ensures
        syntax_view(r) == branch_v(rule, seq![syntax_view(a)]),
{
    let ghost ga = syntax_view(a);
    let mut children: Vec<SyntaxNode> = Vec::new();
    children.push(a);
    let r = SyntaxNode::node(rule, children);
    proof {
        lemma_views_of_props(r.children@);
        assert(views_of(r.children@) =~= seq![ga]);
    }
    r
}

/// An interior node over two children, in source order.
pub fn node2(rule: Rule, a: SyntaxNode, b: SyntaxNode) -> (r: SyntaxNode)
    ensures
        syntax_view(r) == branch_v(rule, seq![syntax_view(a), syntax_view(b)]),
{
    let ghost ga = syntax_view(a);
    let ghost gb = syntax_view(b);
    let mut children: Vec<SyntaxNode> = Vec::new();
    children.push(a);
    children.push(b);
    let r = SyntaxNode::node(rule, children);
    proof {
        lemma_views_of_props(r.children@);
        assert(views_of(r.children@) =~= seq![ga, gb]);
    }
    r
}

/// An interior node over three children, in source order.
pub fn node3(rule: Rule, a: SyntaxNode, b: SyntaxNode, c: SyntaxNode) -> (r: SyntaxNode)
    ensures
        syntax_view(r) == branch_v(rule, seq![syntax_view(a), syntax_view(b), syntax_view(c)]),
{
    let ghost ga = syntax_view(a);
    let ghost gb = syntax_view(b);
    let ghost gc = syntax_view(c);
    let mut children: Vec<SyntaxNode> = Vec::new();
    children.push(a);
    children.push(b);
    children.push(c);
    let r = SyntaxNode::node(rule, children);
    proof {
        lemma_views_of_props(r.children@);
        assert(views_of(r.children@) =~= seq![ga, gb, gc]);
    }
    r
}

/// An interior node over four children, in source order.
pub fn node4(rule: Rule, a: SyntaxNode, b: SyntaxNode, c: SyntaxNode, d: SyntaxNode) -> (r:
    SyntaxNode)
    ensures
        syntax_view(r) == branch_v(
            rule,
            seq![syntax_view(a), syntax_view(b), syntax_view(c), syntax_view(d)],
        ),
{
    let ghost ga = syntax_view(a);
    let ghost gb = syntax_view(b);
    let ghost gc = syntax_view(c);
    let ghost gd = syntax_view(d);
    let mut children: Vec<SyntaxNode> = Vec::new();
    children.push(a);
    children.push(b);
    children.push(c);
    children.push(d);
    let r = SyntaxNode::node(rule, children);
    proof {
        lemma_views_of_props(r.children@);
        assert(views_of(r.children@) =~= seq![ga, gb, gc, gd]);
    }
    r
}

/// An interior node over five children, in source order.
pub fn node5(
    rule: Rule,
    a: SyntaxNode,
    b: SyntaxNode,
    c: SyntaxNode,
    d: SyntaxNode,
    e: SyntaxNode,
) -> (r: SyntaxNode)
    ensures
        syntax_view(r) == branch_v(
            rule,
            seq![syntax_view(a), syntax_view(b), syntax_view(c), syntax_view(d), syntax_view(e)],
        ),
{
    let ghost ga = syntax_view(a);
    let ghost gb = syntax_view(b);
    let ghost gc = syntax_view(c);
    let ghost gd = syntax_view(d);
    let ghost ge = syntax_view(e);
    let mut children: Vec<SyntaxNode> = Vec::new();
    children.push(a);
    children.push(b);
    children.push(c);
    children.push(d);
    children.push(e);
    let r = SyntaxNode::node(rule, children);
    proof {
        lemma_views_of_props(r.children@);
        assert(views_of(r.children@) =~= seq![ga, gb, gc, gd, ge]);
    }
    r
}

/// The number of nodes in a tree: the engine's work is proportional to it.
pub open spec fn node_size(t: SyntaxNode) -> nat
    decreases t,
{
    1 + forest_size(t.children@)
}

/// The number of nodes in a forest.
pub open spec fn forest_size(ts: Seq<SyntaxNode>) -> nat
    decreases ts,
{
    if ts.len() == 0 {
        0
    } else {
        node_size(ts[0]) + forest_size(ts.drop_first())
    }
}

pub proof fn lemma_forest_size_push(ts: Seq<SyntaxNode>, t: SyntaxNode)
    ensures
        forest_size(ts.push(t)) == forest_size(ts) + node_size(t),
    decreases ts.len(),
{
    if ts.len() == 0 {
        assert(ts.push(t)[0] == t);
        assert(ts.push(t).drop_first() =~= Seq::<SyntaxNode>::empty());
        assert(forest_size(ts.push(t))
            == node_size(ts.push(t)[0]) + forest_size(ts.push(t).drop_first()));
    } else {
        assert(ts.push(t).drop_first() =~= ts.drop_first().push(t));
        assert(ts.push(t)[0] == ts[0]);
        assert(forest_size(ts.push(t))
            == node_size(ts.push(t)[0]) + forest_size(ts.push(t).drop_first()));
        assert(forest_size(ts) == node_size(ts[0]) + forest_size(ts.drop_first()));
        lemma_forest_size_push(ts.drop_first(), t);
    }
}

pub proof fn lemma_forest_size_reverse(ts: Seq<SyntaxNode>)
    ensures
        forest_size(ts.reverse()) == forest_size(ts),
    decreases ts.len(),
{
    if ts.len() > 0 {
        assert(ts.reverse() =~= ts.drop_first().reverse().push(ts[0]));
        lemma_forest_size_reverse(ts.drop_first());
        lemma_forest_size_push(ts.drop_first().reverse(), ts[0]);
    }
}

pub proof fn lemma_forest_size_drop_last(ts: Seq<SyntaxNode>)
    requires
        ts.len() > 0,
    ensures
        forest_size(ts) == forest_size(ts.drop_last()) + node_size(ts.last()),
    decreases ts.len(),
{
    assert(ts =~= ts.drop_last().push(ts.last()));
    lemma_forest_size_push(ts.drop_last(), ts.last());
}

/// The mathematical view of a syntax node: the same shape over `Seq`, so
/// that the grammar and the conversion can be specified as pure functions.
pub struct SyntaxNodeV {
    pub rule: Rule,
    pub children: Seq<SyntaxNodeV>,
    pub text: Seq<char>,
}

/// A leaf view: no children, the matched text.
pub open spec fn leaf_v(rule: Rule, text: Seq<char>) -> SyntaxNodeV {
    SyntaxNodeV { rule, children: Seq::empty(), text }
}

/// An interior view over the given child views.
pub open spec fn branch_v(rule: Rule, children: Seq<SyntaxNodeV>) -> SyntaxNodeV {
    SyntaxNodeV { rule, children, text: Seq::empty() }
}

/// The view of one node.
pub open spec fn syntax_view(t: SyntaxNode) -> SyntaxNodeV
    decreases t,
{
    SyntaxNodeV { rule: t.rule, children: views_of(t.children@), text: t.text@ }
}

/// The views of a forest, in order.
pub open spec fn views_of(ts: Seq<SyntaxNode>) -> Seq<SyntaxNodeV>
    decreases ts,
{
    if ts.len() == 0 {
        Seq::empty()
    } else {
        seq![syntax_view(ts[0])] + views_of(ts.drop_first())
    }
}

/// Lengths and elements of a forest view.
pub proof fn lemma_views_of_props(ts: Seq<SyntaxNode>)
    ensures
        views_of(ts).len() == ts.len(),
        forall|i: int| 0 <= i < ts.len() ==> views_of(ts)[i] == syntax_view(ts[i]),
    decreases ts.len(),
{
    if ts.len() > 0 {
        lemma_views_of_props(ts.drop_first());
        assert(views_of(ts) == seq![syntax_view(ts[0])] + views_of(ts.drop_first()));
        assert forall|i: int| 0 <= i < ts.len() implies views_of(ts)[i] == syntax_view(ts[i]) by {
            if i > 0 {
                assert(views_of(ts)[i] == views_of(ts.drop_first())[i - 1]);
                assert(ts.drop_first()[i - 1] == ts[i]);
            }
        }
    }
}

/// Appending a node to a forest appends its view.
pub proof fn lemma_views_of_push(ts: Seq<SyntaxNode>, t: SyntaxNode)
    ensures
        views_of(ts.push(t)) =~= views_of(ts).push(syntax_view(t)),
    decreases ts.len(),
{
    assert(views_of(ts.push(t))
        == seq![syntax_view(ts.push(t)[0])] + views_of(ts.push(t).drop_first()));
    if ts.len() == 0 {
        assert(ts.push(t)[0] == t);
        assert(ts.push(t).drop_first() =~= Seq::<SyntaxNode>::empty());
    } else {
        assert(ts.push(t)[0] == ts[0]);
        assert(ts.push(t).drop_first() =~= ts.drop_first().push(t));
        assert(views_of(ts) == seq![syntax_view(ts[0])] + views_of(ts.drop_first()));
        lemma_views_of_push(ts.drop_first(), t);
    }
}

/// The number of nodes in a tree view.
pub open spec fn node_size_v(t: SyntaxNodeV) -> nat
    decreases t,
{
    1 + forest_size_v(t.children)
}

/// The number of nodes in a forest view.
pub open spec fn forest_size_v(ts: Seq<SyntaxNodeV>) -> nat
    decreases ts,
{
    if ts.len() == 0 {
        0
    } else {
        node_size_v(ts[0]) + forest_size_v(ts.drop_first())
    }
}

} // verus!