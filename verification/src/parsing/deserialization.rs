//! The conversion engine: folds a concrete syntax tree bottom-up into one
//! typed document node, resolving named constant and timeout parameters
//! inline, on an explicit heap-allocated work stack so that arbitrarily deep
//! documents never grow the native call stack.
//!
//! The folding table is written once, as the recursive specification
//! `fold_node`; the iterative engine `parse_raw` is proved to return exactly
//! what that specification says, for every tree and every parameter table.

use vstd::prelude::*;
use crate::types::marlowe::{
    Action, AstNode, Bound, Case, ChoiceId, Contract, Observation, Party, Payee, Timeout, Token,
    Value,
};
use crate::types::views::{
    bounds_view, cases_view, lemma_cases_view_push, lemma_nodes_view_props,
    lemma_nodes_view_push, node_view, nodes_view, opt_action_view, opt_bound_view,
    opt_box_contract_view, opt_box_value_view, opt_case_view, opt_choice_id_view,
    opt_observation_view, opt_party_view, opt_payee_view, opt_timeout_view, opt_token_view,
    opt_value_view, ActionV, BoundV, CaseV, ChoiceIdV, ContractV, NodeV, ObservationV, PartyV,
    PayeeV, TimeoutV, TokenV, ValueV,
};
use crate::parsing::cst::{
    forest_size, forest_size_v, lemma_forest_size_drop_last, lemma_forest_size_reverse,
    lemma_views_of_props, node_size, node_size_v, syntax_view, views_of, Rule, SyntaxNode,
    SyntaxNodeV,
};
use crate::parsing::numbers::{parse_i64_chars, parse_i64_spec, string_chars};

verus! {

// ---------------------------------------------------------------------------
// Diagnostics
// ---------------------------------------------------------------------------

/// The kinds a folded node can have; used to report a coercion mismatch.
#[derive(Debug, Clone, Copy, PartialEq, Eq, Structural)]
pub enum NodeKind {
    Contract,
    Value,
    Observation,
    Action,
    Party,
    Payee,
    Token,
    Timeout,
    Case,
    Bound,
    ChoiceId,
    Text,
    Number,
    CaseList,
    BoundList,
    Null,
}

/// Everything that can go wrong while a syntax tree is converted.
#[derive(Debug, Clone, Copy, PartialEq, Eq, Structural)]
pub enum ConvError {
    /// The parameter table holds the same key twice: rejected before any
    /// traversal.
    DuplicateParameterKey,
    /// A rule needed one more already-folded child than it got.
    MissingChild(Rule),
    /// A leaf rule matched no source text.
    MissingText(Rule),
    /// A leaf's text did not read as a 64-bit integer.
    NumberFormat(Rule),
    /// A folded child had the wrong kind for the field it must fill.
    TypeMismatch { expected: NodeKind, found: NodeKind },
    /// A `Let` node's name turned out to be a hole.
    LetNameAbsent,
    /// A rule tag with no entry in the folding table.
    UnhandledRule(Rule),
    /// The conversion did not end with exactly one root node.
    MalformedResult,
}

/// The kind of a folded node.
pub open spec fn kind_of(n: NodeV) -> NodeKind {
    match n {
        NodeV::Contract(_) => NodeKind::Contract,
        NodeV::Value(_) => NodeKind::Value,
        NodeV::Observation(_) => NodeKind::Observation,
        NodeV::Action(_) => NodeKind::Action,
        NodeV::Party(_) => NodeKind::Party,
        NodeV::Payee(_) => NodeKind::Payee,
        NodeV::Token(_) => NodeKind::Token,
        NodeV::Timeout(_) => NodeKind::Timeout,
        NodeV::Case(_) => NodeKind::Case,
        NodeV::Bound(_) => NodeKind::Bound,
        NodeV::ChoiceId(_) => NodeKind::ChoiceId,
        NodeV::Text(_) => NodeKind::Text,
        NodeV::Number(_) => NodeKind::Number,
        NodeV::CaseList(_) => NodeKind::CaseList,
        NodeV::BoundList(_) => NodeKind::BoundList,
        NodeV::Null => NodeKind::Null,
    }
}

/// The mismatch diagnostic for an unexpected node.
pub open spec fn mismatch(expected: NodeKind, found: NodeV) -> ConvError {
    ConvError::TypeMismatch { expected, found: kind_of(found) }
}

fn node_kind(n: &AstNode) -> (k: NodeKind)
    ensures
        k == kind_of(node_view(*n)),
{
    match n {
        AstNode::MarloweContract(_) => NodeKind::Contract,
        AstNode::MarloweValue(_) => NodeKind::Value,
        AstNode::MarloweObservation(_) => NodeKind::Observation,
        AstNode::MarloweAction(_) => NodeKind::Action,
        AstNode::MarloweParty(_) => NodeKind::Party,
        AstNode::MarlowePayee(_) => NodeKind::Payee,
        AstNode::MarloweToken(_) => NodeKind::Token,
        AstNode::MarloweTimeout(_) => NodeKind::Timeout,
        AstNode::MarloweCase(_) => NodeKind::Case,
        AstNode::MarloweBound(_) => NodeKind::Bound,
        AstNode::MarloweChoiceId(_) => NodeKind::ChoiceId,
        AstNode::StringValue(_) => NodeKind::Text,
        AstNode::MarloweNumber(_) => NodeKind::Number,
        AstNode::MarloweCaseList(_) => NodeKind::CaseList,
        AstNode::MarloweBoundList(_) => NodeKind::BoundList,
        AstNode::Null => NodeKind::Null,
    }
}

// ---------------------------------------------------------------------------
// The parameter table
// ---------------------------------------------------------------------------

/// Does the table bind the same name twice?
pub open spec fn has_duplicate_keys(ps: Seq<(String, i64)>) -> bool {
    exists|i: int, j: int| 0 <= i < j < ps.len() && ps[i].0@ == ps[j].0@
}

/// The value bound to `name`, if any: the first binding wins.
pub open spec fn lookup_param(ps: Seq<(String, i64)>, name: Seq<char>) -> Option<i64>
    decreases ps.len(),
{
    if ps.len() == 0 {
        None
    } else if ps[0].0@ == name {
        Some(ps[0].1)
    } else {
        lookup_param(ps.drop_first(), name)
    }
}

fn has_duplicate_keys_exec(ps: &Vec<(String, i64)>) -> (r: bool)
    ensures
        r == has_duplicate_keys(ps@),
{
    let n = ps.len();
    let mut i: usize = 0;
    while i < n
        invariant
            i <= n,
            n == ps@.len(),
            forall|a: int, b: int| 0 <= a < b < n && a < i ==> ps@[a].0@ != ps@[b].0@,
        decreases n - i,
    {
        let mut j: usize = i + 1;
        while j < n
            invariant
                i < j <= n,
                i < n,
                n == ps@.len(),
                forall|b: int| i < b < j ==> ps@[i as int].0@ != ps@[b].0@,
            decreases n - j,
        {
            if ps[i].0.eq(&ps[j].0) {
                return true;
            }
            j = j + 1;
        }
        i = i + 1;
    }
    false
}

fn lookup_param_exec(ps: &Vec<(String, i64)>, name: &String) -> (r: Option<i64>)
    ensures
        r == lookup_param(ps@, name@),
{
    let n = ps.len();
    let mut k: usize = 0;
    proof {
        assert(ps@.skip(0) =~= ps@);
    }
    while k < n
        invariant
            k <= n,
            n == ps@.len(),
            lookup_param(ps@, name@) == lookup_param(ps@.skip(k as int), name@),
        decreases n - k,
    {
        proof {
            assert(ps@.skip(k as int)[0] == ps@[k as int]);
            assert(ps@.skip(k as int).drop_first() =~= ps@.skip(k as int + 1));
        }
        if ps[k].0.eq(name) {
            return Some(ps[k].1);
        }
        k = k + 1;
    }
    proof {
        assert(ps@.skip(n as int) =~= Seq::<(String, i64)>::empty());
    }
    None
}

// ---------------------------------------------------------------------------
// Quote trimming for public-key leaves
// ---------------------------------------------------------------------------

/// `s` with one surrounding layer of double quotes removed: exactly one
/// leading and one trailing quote are dropped, and only when both are there.
pub open spec fn trim_quotes(s: Seq<char>) -> Seq<char> {
    if s.len() >= 2 && s[0] == '"' && s.last() == '"' {
        s.subrange(1, s.len() - 1)
    } else {
        s
    }
}

/// Strips the surrounding quote layer from a quoted leaf's raw text.
fn trim_quotes_exec(s: &String) -> (r: String)
    ensures
        r@ == trim_quotes(s@),
{
    let cs = string_chars(s.as_str());
    let n = cs.len();
    if n >= 2 && cs[0] == '"' && cs[n - 1] == '"' {
        let piece = s.as_str().substring_char(1, n - 1);
        String::from_str(piece)
    } else {
        s.clone()
    }
}

// ---------------------------------------------------------------------------
// Coercions: narrowing a folded node to the type a field requires
// ---------------------------------------------------------------------------

pub open spec fn co_contract(n: NodeV) -> Result<Option<Box<ContractV>>, ConvError> {
    match n {
        NodeV::Contract(c) => Ok(Some(Box::new(c))),
        NodeV::Null => Ok(None),
        _ => Err(mismatch(NodeKind::Contract, n)),
    }
}

pub open spec fn co_value(n: NodeV) -> Result<Option<ValueV>, ConvError> {
    match n {
        NodeV::Value(v) => Ok(Some(v)),
        NodeV::Null => Ok(None),
        _ => Err(mismatch(NodeKind::Value, n)),
    }
}

pub open spec fn co_box_value(n: NodeV) -> Result<Option<Box<ValueV>>, ConvError> {
    match n {
        NodeV::Value(v) => Ok(Some(Box::new(v))),
        NodeV::Null => Ok(None),
        _ => Err(mismatch(NodeKind::Value, n)),
    }
}

pub open spec fn co_observation(n: NodeV) -> Result<Option<crate::types::views::ObservationV>, ConvError> {
    match n {
        NodeV::Observation(o) => Ok(Some(o)),
        NodeV::Null => Ok(None),
        _ => Err(mismatch(NodeKind::Observation, n)),
    }
}

pub open spec fn co_action(n: NodeV) -> Result<Option<crate::types::views::ActionV>, ConvError> {
    match n {
        NodeV::Action(a) => Ok(Some(a)),
        NodeV::Null => Ok(None),
        _ => Err(mismatch(NodeKind::Action, n)),
    }
}

pub open spec fn co_party(n: NodeV) -> Result<Option<crate::types::views::PartyV>, ConvError> {
    match n {
        NodeV::Party(p) => Ok(Some(p)),
        NodeV::Null => Ok(None),
        _ => Err(mismatch(NodeKind::Party, n)),
    }
}

pub open spec fn co_payee(n: NodeV) -> Result<Option<crate::types::views::PayeeV>, ConvError> {
    match n {
        NodeV::Payee(p) => Ok(Some(p)),
        NodeV::Null => Ok(None),
        _ => Err(mismatch(NodeKind::Payee, n)),
    }
}

pub open spec fn co_token(n: NodeV) -> Result<Option<crate::types::views::TokenV>, ConvError> {
    match n {
        NodeV::Token(t) => Ok(Some(t)),
        NodeV::Null => Ok(None),
        _ => Err(mismatch(NodeKind::Token, n)),
    }
}

pub open spec fn co_timeout(n: NodeV) -> Result<Option<crate::types::views::TimeoutV>, ConvError> {
    match n {
        NodeV::Timeout(t) => Ok(Some(t)),
        NodeV::Null => Ok(None),
        _ => Err(mismatch(NodeKind::Timeout, n)),
    }
}

pub open spec fn co_case(n: NodeV) -> Result<Option<CaseV>, ConvError> {
    match n {
        NodeV::Case(c) => Ok(Some(c)),
        NodeV::Null => Ok(None),
        _ => Err(mismatch(NodeKind::Case, n)),
    }
}

pub open spec fn co_bound(n: NodeV) -> Result<Option<BoundV>, ConvError> {
    match n {
        NodeV::Bound(b) => Ok(Some(b)),
        NodeV::Null => Ok(None),
        _ => Err(mismatch(NodeKind::Bound, n)),
    }
}

pub open spec fn co_choice_id(n: NodeV) -> Result<Option<crate::types::views::ChoiceIdV>, ConvError> {
    match n {
        NodeV::ChoiceId(c) => Ok(Some(c)),
        NodeV::Null => Ok(None),
        _ => Err(mismatch(NodeKind::ChoiceId, n)),
    }
}

pub open spec fn co_text(n: NodeV) -> Result<Seq<char>, ConvError> {
    match n {
        NodeV::Text(s) => Ok(s),
        _ => Err(mismatch(NodeKind::Text, n)),
    }
}

pub open spec fn co_opt_text(n: NodeV) -> Result<Option<Seq<char>>, ConvError> {
    match n {
        NodeV::Text(s) => Ok(Some(s)),
        NodeV::Null => Ok(None),
        _ => Err(mismatch(NodeKind::Text, n)),
    }
}

pub open spec fn co_i64(n: NodeV) -> Result<i64, ConvError> {
    match n {
        NodeV::Number(v) => Ok(v),
        _ => Err(mismatch(NodeKind::Number, n)),
    }
}

/// Coerces every element of a folded case list.
pub open spec fn co_cases(xs: Seq<NodeV>) -> Result<Seq<Option<CaseV>>, ConvError>
    decreases xs.len(),
{
    if xs.len() == 0 {
        Ok(Seq::empty())
    } else {
        match co_case(xs[0]) {
            Err(e) => Err(e),
            Ok(c) => match co_cases(xs.drop_first()) {
                Err(e) => Err(e),
                Ok(rest) => Ok(seq![c] + rest),
            },
        }
    }
}

pub open spec fn co_case_list(n: NodeV) -> Result<Seq<Option<CaseV>>, ConvError> {
    match n {
        NodeV::CaseList(xs) => co_cases(xs),
        _ => Err(mismatch(NodeKind::CaseList, n)),
    }
}

/// Coerces every element of a folded bound list.
pub open spec fn co_bounds(xs: Seq<NodeV>) -> Result<Seq<Option<BoundV>>, ConvError>
    decreases xs.len(),
{
    if xs.len() == 0 {
        Ok(Seq::empty())
    } else {
        match co_bound(xs[0]) {
            Err(e) => Err(e),
            Ok(b) => match co_bounds(xs.drop_first()) {
                Err(e) => Err(e),
                Ok(rest) => Ok(seq![b] + rest),
            },
        }
    }
}

pub open spec fn co_bound_list(n: NodeV) -> Result<Seq<Option<BoundV>>, ConvError> {
    match n {
        NodeV::BoundList(xs) => co_bounds(xs),
        _ => Err(mismatch(NodeKind::BoundList, n)),
    }
}

// ---------------------------------------------------------------------------
// The folding table, as a specification
// ---------------------------------------------------------------------------

/// The `i`-th child retrieved while folding: children are popped from the
/// end of the accumulated list, so retrieval order is reverse source order.
pub open spec fn child(cs: Seq<NodeV>, i: int) -> NodeV {
    cs[cs.len() - 1 - i]
}

/// Folds a rule over two value children (retrieved right operand first).
pub open spec fn fold_binary_value(
    rule: Rule,
    cs: Seq<NodeV>,
    make: spec_fn(Option<Box<ValueV>>, Option<Box<ValueV>>) -> NodeV,
) -> Result<NodeV, ConvError> {
    if cs.len() < 1 {
        Err(ConvError::MissingChild(rule))
    } else {
        match co_box_value(child(cs, 0)) {
            Err(e) => Err(e),
            Ok(v2) => if cs.len() < 2 {
                Err(ConvError::MissingChild(rule))
            } else {
                match co_box_value(child(cs, 1)) {
                    Err(e) => Err(e),
                    Ok(v1) => Ok(make(v1, v2)),
                }
            },
        }
    }
}

/// One entry of the folding table: what a ready rule folds to, given its
/// already-folded children (in source order), its raw text (for leaves), and
/// the parameter table.
pub open spec fn fold_rule(
    rule: Rule,
    cs: Seq<NodeV>,
    text: Option<Seq<char>>,
    ps: Seq<(String, i64)>,
) -> Result<NodeV, ConvError> {
    match rule {
        Rule::Contract => {
            if cs.len() < 1 {
                Err(ConvError::MissingChild(rule))
            } else {
                Ok(child(cs, 0))
            }
        },
        Rule::Close => Ok(NodeV::Contract(ContractV::Close)),
        Rule::UseValue => {
            if cs.len() < 1 {
                Err(ConvError::MissingChild(rule))
            } else {
                match co_text(child(cs, 0)) {
                    Err(e) => Err(e),
                    Ok(s) => Ok(NodeV::Value(ValueV::UseValue(s))),
                }
            }
        },
        Rule::ConstantParam => {
            if cs.len() < 1 {
                Err(ConvError::MissingChild(rule))
            } else {
                match co_text(child(cs, 0)) {
                    Err(e) => Err(e),
                    Ok(name) => match lookup_param(ps, name) {
                        Some(v) => Ok(NodeV::Value(ValueV::ConstantValue(v))),
                        None => Ok(NodeV::Value(ValueV::ConstantParam(name))),
                    },
                }
            }
        },
        Rule::ArrayOfCases => Ok(NodeV::CaseList(cs)),
        Rule::ArrayOfBounds => Ok(NodeV::BoundList(cs)),
        Rule::PK => {
            if cs.len() < 1 {
                Err(ConvError::MissingChild(rule))
            } else {
                match co_text(child(cs, 0)) {
                    Err(e) => Err(e),
                    Ok(s) => Ok(NodeV::Party(crate::types::views::PartyV::PK { pk_hash: s })),
                }
            }
        },
        Rule::TimeParam => {
            if cs.len() < 1 {
                Err(ConvError::MissingChild(rule))
            } else {
                match co_text(child(cs, 0)) {
                    Err(e) => Err(e),
                    Ok(name) => match lookup_param(ps, name) {
                        Some(v) => Ok(NodeV::Timeout(crate::types::views::TimeoutV::TimeConstant(v))),
                        None => Ok(NodeV::Timeout(crate::types::views::TimeoutV::TimeParam(name))),
                    },
                }
            }
        },
        Rule::PayeeAccount => {
            if cs.len() < 1 {
                Err(ConvError::MissingChild(rule))
            } else {
                match co_party(child(cs, 0)) {
                    Err(e) => Err(e),
                    Ok(p) => Ok(NodeV::Payee(crate::types::views::PayeeV::Account(p))),
                }
            }
        },
        Rule::PayeeParty => {
            if cs.len() < 1 {
                Err(ConvError::MissingChild(rule))
            } else {
                match co_party(child(cs, 0)) {
                    Err(e) => Err(e),
                    Ok(p) => Ok(NodeV::Payee(crate::types::views::PayeeV::Party(p))),
                }
            }
        },
        Rule::Role => {
            if cs.len() < 1 {
                Err(ConvError::MissingChild(rule))
            } else {
                match co_text(child(cs, 0)) {
                    Err(e) => Err(e),
                    Ok(s) => Ok(NodeV::Party(crate::types::views::PartyV::Role { role_token: s })),
                }
            }
        },
        Rule::Notify => {
            if cs.len() < 1 {
                Err(ConvError::MissingChild(rule))
            } else {
                match co_observation(child(cs, 0)) {
                    Err(e) => Err(e),
                    Ok(o) => Ok(NodeV::Action(crate::types::views::ActionV::Notify { notify_if: o })),
                }
            }
        },
        Rule::Case => {
            if cs.len() < 1 {
                Err(ConvError::MissingChild(rule))
            } else {
                match co_contract(child(cs, 0)) {
                    Err(e) => Err(e),
                    Ok(cont) => if cs.len() < 2 {
                        Err(ConvError::MissingChild(rule))
                    } else {
                        match co_action(child(cs, 1)) {
                            Err(e) => Err(e),
                            Ok(a) => Ok(NodeV::Case(CaseV { case: a, then: cont })),
                        }
                    },
                }
            }
        },
        Rule::When => {
            if cs.len() < 1 {
                Err(ConvError::MissingChild(rule))
            } else {
                match co_contract(child(cs, 0)) {
                    Err(e) => Err(e),
                    Ok(cont) => if cs.len() < 2 {
                        Err(ConvError::MissingChild(rule))
                    } else {
                        match co_timeout(child(cs, 1)) {
                            Err(e) => Err(e),
                            Ok(t) => if cs.len() < 3 {
                                Err(ConvError::MissingChild(rule))
                            } else {
                                match co_case_list(child(cs, 2)) {
                                    Err(e) => Err(e),
                                    Ok(cases) => Ok(NodeV::Contract(ContractV::When {
                                        when: cases,
                                        timeout: t,
                                        timeout_continuation: cont,
                                    })),
                                }
                            },
                        }
                    },
                }
            }
        },
        Rule::ADA => Ok(NodeV::Token(crate::types::views::TokenV::ADA)),
        Rule::Currency => {
            if cs.len() < 1 {
                Err(ConvError::MissingChild(rule))
            } else {
                match co_text(child(cs, 0)) {
                    Err(e) => Err(e),
                    Ok(v2) => if cs.len() < 2 {
                        Err(ConvError::MissingChild(rule))
                    } else {
                        match co_text(child(cs, 1)) {
                            Err(e) => Err(e),
                            Ok(v1) => Ok(NodeV::Token(crate::types::views::TokenV::Custom {
                                currency_symbol: v1,
                                token_name: v2,
                            })),
                        }
                    },
                }
            }
        },
        Rule::Deposit => {
            if cs.len() < 1 {
                Err(ConvError::MissingChild(rule))
            } else {
                match co_value(child(cs, 0)) {
                    Err(e) => Err(e),
                    Ok(value) => if cs.len() < 2 {
                        Err(ConvError::MissingChild(rule))
                    } else {
                        match co_token(child(cs, 1)) {
                            Err(e) => Err(e),
                            Ok(token) => if cs.len() < 3 {
                                Err(ConvError::MissingChild(rule))
                            } else {
                                match co_party(child(cs, 2)) {
                                    Err(e) => Err(e),
                                    Ok(by_party) => if cs.len() < 4 {
                                        Err(ConvError::MissingChild(rule))
                                    } else {
                                        match co_party(child(cs, 3)) {
                                            Err(e) => Err(e),
                                            Ok(into_account) => Ok(NodeV::Action(
                                                crate::types::views::ActionV::Deposit {
                                                    party: by_party,
                                                    into_account,
                                                    of_token: token,
                                                    deposits: value,
                                                },
                                            )),
                                        }
                                    },
                                }
                            },
                        }
                    },
                }
            }
        },
        Rule::ChoiceId => {
            if cs.len() < 1 {
                Err(ConvError::MissingChild(rule))
            } else {
                match co_party(child(cs, 0)) {
                    Err(e) => Err(e),
                    Ok(party) => if cs.len() < 2 {
                        Err(ConvError::MissingChild(rule))
                    } else {
                        match co_text(child(cs, 1)) {
                            Err(e) => Err(e),
                            Ok(s) => Ok(NodeV::ChoiceId(crate::types::views::ChoiceIdV {
                                choice_name: s,
                                choice_owner: party,
                            })),
                        }
                    },
                }
            }
        },
        Rule::Bound => {
            if cs.len() < 1 {
                Err(ConvError::MissingChild(rule))
            } else {
                match co_i64(child(cs, 0)) {
                    Err(e) => Err(e),
                    Ok(end) => if cs.len() < 2 {
                        Err(ConvError::MissingChild(rule))
                    } else {
                        match co_i64(child(cs, 1)) {
                            Err(e) => Err(e),
                            Ok(start) => Ok(NodeV::Bound(BoundV(start, end))),
                        }
                    },
                }
            }
        },
        Rule::Choice => {
            if cs.len() < 1 {
                Err(ConvError::MissingChild(rule))
            } else {
                match co_bound_list(child(cs, 0)) {
                    Err(e) => Err(e),
                    Ok(bounds) => if cs.len() < 2 {
                        Err(ConvError::MissingChild(rule))
                    } else {
                        match co_choice_id(child(cs, 1)) {
                            Err(e) => Err(e),
                            Ok(cid) => Ok(NodeV::Action(crate::types::views::ActionV::Choice {
                                for_choice: cid,
                                choose_between: bounds,
                            })),
                        }
                    },
                }
            }
        },
        Rule::StringLit => {
            match text {
                Some(s) => Ok(NodeV::Text(s)),
                None => Err(ConvError::MissingText(rule)),
            }
        },
        Rule::TrueObs => Ok(NodeV::Observation(crate::types::views::ObservationV::True)),
        Rule::FalseObs => Ok(NodeV::Observation(crate::types::views::ObservationV::False)),
        Rule::Number => {
            match text {
                None => Err(ConvError::MissingText(rule)),
                Some(s) => match parse_i64_spec(s) {
                    Some(v) => Ok(NodeV::Number(v)),
                    None => Err(ConvError::NumberFormat(rule)),
                },
            }
        },
        Rule::Pay => {
            if cs.len() < 1 {
                Err(ConvError::MissingChild(rule))
            } else {
                match co_contract(child(cs, 0)) {
                    Err(e) => Err(e),
                    Ok(cont) => if cs.len() < 2 {
                        Err(ConvError::MissingChild(rule))
                    } else {
                        match co_value(child(cs, 1)) {
                            Err(e) => Err(e),
                            Ok(value) => if cs.len() < 3 {
                                Err(ConvError::MissingChild(rule))
                            } else {
                                match co_token(child(cs, 2)) {
                                    Err(e) => Err(e),
                                    Ok(token) => if cs.len() < 4 {
                                        Err(ConvError::MissingChild(rule))
                                    } else {
                                        match co_payee(child(cs, 3)) {
                                            Err(e) => Err(e),
                                            Ok(payee) => if cs.len() < 5 {
                                                Err(ConvError::MissingChild(rule))
                                            } else {
                                                match co_party(child(cs, 4)) {
                                                    Err(e) => Err(e),
                                                    Ok(party) => Ok(NodeV::Contract(ContractV::Pay {
                                                        from_account: party,
                                                        to: payee,
                                                        token,
                                                        pay: value,
                                                        then: cont,
                                                    })),
                                                }
                                            },
                                        }
                                    },
                                }
                            },
                        }
                    },
                }
            }
        },
        Rule::SubValue => fold_binary_value(
            rule,
            cs,
            |a: Option<Box<ValueV>>, b: Option<Box<ValueV>>| NodeV::Value(ValueV::SubValue(a, b)),
        ),
        Rule::MulValue => fold_binary_value(
            rule,
            cs,
            |a: Option<Box<ValueV>>, b: Option<Box<ValueV>>| NodeV::Value(ValueV::MulValue(a, b)),
        ),
        Rule::AddValue => fold_binary_value(
            rule,
            cs,
            |a: Option<Box<ValueV>>, b: Option<Box<ValueV>>| NodeV::Value(ValueV::AddValue(a, b)),
        ),
        Rule::DivValue => fold_binary_value(
            rule,
            cs,
            |a: Option<Box<ValueV>>, b: Option<Box<ValueV>>| NodeV::Value(ValueV::DivValue(a, b)),
        ),
        Rule::ValueGT => fold_binary_value(
            rule,
            cs,
            |a: Option<Box<ValueV>>, b: Option<Box<ValueV>>| NodeV::Observation(
                crate::types::views::ObservationV::ValueGT { value: a, gt_than: b },
            ),
        ),
        Rule::ValueGE => fold_binary_value(
            rule,
            cs,
            |a: Option<Box<ValueV>>, b: Option<Box<ValueV>>| NodeV::Observation(
                crate::types::views::ObservationV::ValueGE { value: a, ge_than: b },
            ),
        ),
        Rule::ValueLT => fold_binary_value(
            rule,
            cs,
            |a: Option<Box<ValueV>>, b: Option<Box<ValueV>>| NodeV::Observation(
                crate::types::views::ObservationV::ValueLT { value: a, lt_than: b },
            ),
        ),
        Rule::NegValue => {
            if cs.len() < 1 {
                Err(ConvError::MissingChild(rule))
            } else {
                match co_box_value(child(cs, 0)) {
                    Err(e) => Err(e),
                    Ok(v) => Ok(NodeV::Value(ValueV::NegValue(v))),
                }
            }
        },
        Rule::Cond => {
            if cs.len() < 1 {
                Err(ConvError::MissingChild(rule))
            } else {
                match co_box_value(child(cs, 0)) {
                    Err(e) => Err(e),
                    Ok(v2) => if cs.len() < 2 {
                        Err(ConvError::MissingChild(rule))
                    } else {
                        match co_box_value(child(cs, 1)) {
                            Err(e) => Err(e),
                            Ok(v1) => if cs.len() < 3 {
                                Err(ConvError::MissingChild(rule))
                            } else {
                                match co_observation(child(cs, 2)) {
                                    Err(e) => Err(e),
                                    Ok(o) => Ok(NodeV::Value(ValueV::Cond(o, v1, v2))),
                                }
                            },
                        }
                    },
                }
            }
        },
        Rule::ChoiceValue => {
            if cs.len() < 1 {
                Err(ConvError::MissingChild(rule))
            } else {
                match co_choice_id(child(cs, 0)) {
                    Err(e) => Err(e),
                    Ok(c) => Ok(NodeV::Value(ValueV::ChoiceValue(c))),
                }
            }
        },
        Rule::AvailableMoney => {
            if cs.len() < 1 {
                Err(ConvError::MissingChild(rule))
            } else {
                match co_token(child(cs, 0)) {
                    Err(e) => Err(e),
                    Ok(t) => if cs.len() < 2 {
                        Err(ConvError::MissingChild(rule))
                    } else {
                        match co_party(child(cs, 1)) {
                            Err(e) => Err(e),
                            Ok(p) => Ok(NodeV::Value(ValueV::AvailableMoney(p, t))),
                        }
                    },
                }
            }
        },
        Rule::TimeIntervalEnd => Ok(NodeV::Value(ValueV::TimeIntervalEnd)),
        Rule::TimeIntervalStart => Ok(NodeV::Value(ValueV::TimeIntervalStart)),
        Rule::TimeConstant => {
            match text {
                None => Err(ConvError::MissingText(rule)),
                Some(s) => match parse_i64_spec(s) {
                    Some(v) => Ok(NodeV::Timeout(crate::types::views::TimeoutV::TimeConstant(v))),
                    None => Err(ConvError::NumberFormat(rule)),
                },
            }
        },
        Rule::If => {
            if cs.len() < 1 {
                Err(ConvError::MissingChild(rule))
            } else {
                match co_contract(child(cs, 0)) {
                    Err(e) => Err(e),
                    Ok(els) => if cs.len() < 2 {
                        Err(ConvError::MissingChild(rule))
                    } else {
                        match co_contract(child(cs, 1)) {
                            Err(e) => Err(e),
                            Ok(thn) => if cs.len() < 3 {
                                Err(ConvError::MissingChild(rule))
                            } else {
                                match co_observation(child(cs, 2)) {
                                    Err(e) => Err(e),
                                    Ok(o) => Ok(NodeV::Contract(ContractV::If {
                                        condition: o,
                                        then: thn,
                                        otherwise: els,
                                    })),
                                }
                            },
                        }
                    },
                }
            }
        },
        Rule::Let => {
            if cs.len() < 1 {
                Err(ConvError::MissingChild(rule))
            } else {
                match co_contract(child(cs, 0)) {
                    Err(e) => Err(e),
                    Ok(cont) => if cs.len() < 2 {
                        Err(ConvError::MissingChild(rule))
                    } else {
                        match co_value(child(cs, 1)) {
                            Err(e) => Err(e),
                            Ok(value) => if cs.len() < 3 {
                                Err(ConvError::MissingChild(rule))
                            } else {
                                match co_opt_text(child(cs, 2)) {
                                    Err(e) => Err(e),
                                    Ok(None) => Err(ConvError::LetNameAbsent),
                                    Ok(Some(name)) => Ok(NodeV::Contract(ContractV::Let {
                                        name,
                                        be: value,
                                        then: cont,
                                    })),
                                }
                            },
                        }
                    },
                }
            }
        },
        Rule::Constant => {
            if cs.len() < 1 {
                Err(ConvError::MissingChild(rule))
            } else {
                match co_i64(child(cs, 0)) {
                    Err(e) => Err(e),
                    Ok(v) => Ok(NodeV::Value(ValueV::ConstantValue(v))),
                }
            }
        },
        Rule::PubKey => {
            match text {
                None => Err(ConvError::MissingText(rule)),
                Some(s) => Ok(NodeV::Text(trim_quotes(s))),
            }
        },
        Rule::ActionHole => Ok(NodeV::Null),
        Rule::ContractHole => Ok(NodeV::Null),
        Rule::TokenHole => Ok(NodeV::Null),
        Rule::CaseHole => Ok(NodeV::Null),
        Rule::ValueHole => Ok(NodeV::Null),
        Rule::ObservationHole => Ok(NodeV::Null),
        Rule::PartyHole => Ok(NodeV::Null),
        Rule::FromPartyHole => Ok(NodeV::Null),
        Rule::BoundHole => Ok(NodeV::Null),
        Rule::PayeeHole => Ok(NodeV::Null),
        Rule::TimeoutHole => Ok(NodeV::Null),
        _ => Err(ConvError::UnhandledRule(rule)),
    }
}

/// The view of an optional raw text.
pub open spec fn opt_text_view(t: Option<String>) -> Option<Seq<char>> {
    match t {
        Some(s) => Some(s@),
        None => None,
    }
}

/// The raw text available to a ready node: only childless nodes carry text.
pub open spec fn leaf_text(t: SyntaxNode) -> Option<Seq<char>> {
    if t.children@.len() == 0 {
        Some(t.text@)
    } else {
        None
    }
}

/// What converting a whole tree yields: fold the children left to right
/// (first error wins), then fold the node's own rule over their results.
pub open spec fn fold_node(t: SyntaxNode, ps: Seq<(String, i64)>) -> Result<NodeV, ConvError>
    decreases 2 * node_size(t),
{
    match fold_list(t.children@, ps) {
        Err(e) => Err(e),
        Ok(cs) => fold_rule(t.rule, cs, leaf_text(t), ps),
    }
}

/// Folds a forest left to right; the first error aborts the whole conversion.
pub open spec fn fold_list(ts: Seq<SyntaxNode>, ps: Seq<(String, i64)>) -> Result<
    Seq<NodeV>,
    ConvError,
>
    decreases 2 * forest_size(ts) + 1,
    via fold_list_dec
{
    if ts.len() == 0 {
        Ok(Seq::empty())
    } else {
        match fold_node(ts[0], ps) {
            Err(e) => Err(e),
            Ok(n) => match fold_list(ts.drop_first(), ps) {
                Err(e) => Err(e),
                Ok(rest) => Ok(seq![n] + rest),
            },
        }
    }
}

#[via_fn]
proof fn fold_list_dec(ts: Seq<SyntaxNode>, ps: Seq<(String, i64)>) {
    if ts.len() > 0 {
        assert(node_size(ts[0]) >= 1);
        assert(forest_size(ts) == node_size(ts[0]) + forest_size(ts.drop_first()));
    }
}

/// What the conversion engine as a whole yields, duplicate-key check included.
pub open spec fn convert_spec(t: SyntaxNode, ps: Seq<(String, i64)>) -> Result<NodeV, ConvError> {
    if has_duplicate_keys(ps) {
        Err(ConvError::DuplicateParameterKey)
    } else {
        fold_node(t, ps)
    }
}

/// The raw text available to a ready node view.
pub open spec fn leaf_text_v(t: SyntaxNodeV) -> Option<Seq<char>> {
    if t.children.len() == 0 {
        Some(t.text)
    } else {
        None
    }
}

/// `fold_node`, stated over the mathematical view of a tree: the form of the
/// conversion that the grammar specification composes with.
pub open spec fn fold_node_v(t: SyntaxNodeV, ps: Seq<(String, i64)>) -> Result<NodeV, ConvError>
    decreases 2 * node_size_v(t),
{
    match fold_list_v(t.children, ps) {
        Err(e) => Err(e),
        Ok(cs) => fold_rule(t.rule, cs, leaf_text_v(t), ps),
    }
}

/// `fold_list`, stated over tree views.
pub open spec fn fold_list_v(ts: Seq<SyntaxNodeV>, ps: Seq<(String, i64)>) -> Result<
    Seq<NodeV>,
    ConvError,
>
    decreases 2 * forest_size_v(ts) + 1,
    via fold_list_v_dec
{
    if ts.len() == 0 {
        Ok(Seq::empty())
    } else {
        match fold_node_v(ts[0], ps) {
            Err(e) => Err(e),
            Ok(n) => match fold_list_v(ts.drop_first(), ps) {
                Err(e) => Err(e),
                Ok(rest) => Ok(seq![n] + rest),
            },
        }
    }
}

#[via_fn]
proof fn fold_list_v_dec(ts: Seq<SyntaxNodeV>, ps: Seq<(String, i64)>) {
    if ts.len() > 0 {
        assert(node_size_v(ts[0]) >= 1);
        assert(forest_size_v(ts) == node_size_v(ts[0]) + forest_size_v(ts.drop_first()));
    }
}

/// `convert_spec`, stated over the view of a tree.
pub open spec fn convert_spec_v(t: SyntaxNodeV, ps: Seq<(String, i64)>) -> Result<NodeV, ConvError> {
    if has_duplicate_keys(ps) {
        Err(ConvError::DuplicateParameterKey)
    } else {
        fold_node_v(t, ps)
    }
}

/// Folding a tree is folding its view.
pub proof fn lemma_fold_node_view(t: SyntaxNode, ps: Seq<(String, i64)>)
    ensures
        fold_node(t, ps) == fold_node_v(syntax_view(t), ps),
    decreases 2 * node_size(t),
{
    lemma_fold_list_view(t.children@, ps);
    lemma_views_of_props(t.children@);
}

/// Folding a forest is folding its views.
pub proof fn lemma_fold_list_view(ts: Seq<SyntaxNode>, ps: Seq<(String, i64)>)
    ensures
        fold_list(ts, ps) == fold_list_v(views_of(ts), ps),
    decreases 2 * forest_size(ts) + 1,
{
    if ts.len() > 0 {
        assert(node_size(ts[0]) >= 1);
        assert(forest_size(ts) == node_size(ts[0]) + forest_size(ts.drop_first()));
        lemma_fold_node_view(ts[0], ps);
        lemma_fold_list_view(ts.drop_first(), ps);
        lemma_views_of_props(ts);
        assert(views_of(ts)[0] == syntax_view(ts[0]));
        assert(views_of(ts).drop_first() =~= views_of(ts.drop_first()));
    }
}

// ---------------------------------------------------------------------------
// Result views: an executable result, seen at the specification level
// ---------------------------------------------------------------------------

pub open spec fn rv_node(r: Result<AstNode, ConvError>) -> Result<NodeV, ConvError> {
    match r {
        Ok(n) => Ok(node_view(n)),
        Err(e) => Err(e),
    }
}

pub open spec fn rv_contract(r: Result<Option<Box<Contract>>, ConvError>) -> Result<
    Option<Box<ContractV>>,
    ConvError,
> {
    match r {
        Ok(o) => Ok(opt_box_contract_view(o)),
        Err(e) => Err(e),
    }
}

pub open spec fn rv_value(r: Result<Option<Value>, ConvError>) -> Result<Option<ValueV>, ConvError> {
    match r {
        Ok(o) => Ok(opt_value_view(o)),
        Err(e) => Err(e),
    }
}

pub open spec fn rv_box_value(r: Result<Option<Box<Value>>, ConvError>) -> Result<
    Option<Box<ValueV>>,
    ConvError,
> {
    match r {
        Ok(o) => Ok(opt_box_value_view(o)),
        Err(e) => Err(e),
    }
}

pub open spec fn rv_observation(r: Result<Option<Observation>, ConvError>) -> Result<
    Option<ObservationV>,
    ConvError,
> {
    match r {
        Ok(o) => Ok(opt_observation_view(o)),
        Err(e) => Err(e),
    }
}

pub open spec fn rv_action(r: Result<Option<Action>, ConvError>) -> Result<
    Option<ActionV>,
    ConvError,
> {
    match r {
        Ok(o) => Ok(opt_action_view(o)),
        Err(e) => Err(e),
    }
}

pub open spec fn rv_party(r: Result<Option<Party>, ConvError>) -> Result<Option<PartyV>, ConvError> {
    match r {
        Ok(o) => Ok(opt_party_view(o)),
        Err(e) => Err(e),
    }
}

pub open spec fn rv_payee(r: Result<Option<Payee>, ConvError>) -> Result<Option<PayeeV>, ConvError> {
    match r {
        Ok(o) => Ok(opt_payee_view(o)),
        Err(e) => Err(e),
    }
}

pub open spec fn rv_token(r: Result<Option<Token>, ConvError>) -> Result<Option<TokenV>, ConvError> {
    match r {
        Ok(o) => Ok(opt_token_view(o)),
        Err(e) => Err(e),
    }
}

pub open spec fn rv_timeout(r: Result<Option<Timeout>, ConvError>) -> Result<
    Option<TimeoutV>,
    ConvError,
> {
    match r {
        Ok(o) => Ok(opt_timeout_view(o)),
        Err(e) => Err(e),
    }
}

pub open spec fn rv_case(r: Result<Option<Case>, ConvError>) -> Result<Option<CaseV>, ConvError> {
    match r {
        Ok(o) => Ok(opt_case_view(o)),
        Err(e) => Err(e),
    }
}

pub open spec fn rv_bound(r: Result<Option<Bound>, ConvError>) -> Result<Option<BoundV>, ConvError> {
    match r {
        Ok(o) => Ok(opt_bound_view(o)),
        Err(e) => Err(e),
    }
}

pub open spec fn rv_choice_id(r: Result<Option<ChoiceId>, ConvError>) -> Result<
    Option<ChoiceIdV>,
    ConvError,
> {
    match r {
        Ok(o) => Ok(opt_choice_id_view(o)),
        Err(e) => Err(e),
    }
}

pub open spec fn rv_text(r: Result<String, ConvError>) -> Result<Seq<char>, ConvError> {
    match r {
        Ok(s) => Ok(s@),
        Err(e) => Err(e),
    }
}

pub open spec fn rv_opt_text(r: Result<Option<String>, ConvError>) -> Result<
    Option<Seq<char>>,
    ConvError,
> {
    match r {
        Ok(Some(s)) => Ok(Some(s@)),
        Ok(None) => Ok(None),
        Err(e) => Err(e),
    }
}

pub open spec fn rv_cases(r: Result<Vec<Option<Case>>, ConvError>) -> Result<
    Seq<Option<CaseV>>,
    ConvError,
> {
    match r {
        Ok(v) => Ok(cases_view(v@)),
        Err(e) => Err(e),
    }
}

pub open spec fn rv_bounds(r: Result<Vec<Option<Bound>>, ConvError>) -> Result<
    Seq<Option<BoundV>>,
    ConvError,
> {
    match r {
        Ok(v) => Ok(bounds_view(v@)),
        Err(e) => Err(e),
    }
}

// ---------------------------------------------------------------------------
// Executable coercions
// ---------------------------------------------------------------------------

fn ex_co_contract(n: AstNode) -> (r: Result<Option<Box<Contract>>, ConvError>)
    ensures
        rv_contract(r) == co_contract(node_view(n)),
{
    match n {
        AstNode::MarloweContract(c) => Ok(Some(Box::new(c))),
        AstNode::Null => Ok(None),
        other => Err(
            ConvError::TypeMismatch { expected: NodeKind::Contract, found: node_kind(&other) },
        ),
    }
}

fn ex_co_value(n: AstNode) -> (r: Result<Option<Value>, ConvError>)
    ensures
        rv_value(r) == co_value(node_view(n)),
{
    match n {
        AstNode::MarloweValue(v) => Ok(Some(v)),
        AstNode::Null => Ok(None),
        other => Err(ConvError::TypeMismatch { expected: NodeKind::Value, found: node_kind(&other) }),
    }
}

fn ex_co_box_value(n: AstNode) -> (r: Result<Option<Box<Value>>, ConvError>)
    ensures
        rv_box_value(r) == co_box_value(node_view(n)),
{
    match n {
        AstNode::MarloweValue(v) => Ok(Some(Box::new(v))),
        AstNode::Null => Ok(None),
        other => Err(ConvError::TypeMismatch { expected: NodeKind::Value, found: node_kind(&other) }),
    }
}

fn ex_co_observation(n: AstNode) -> (r: Result<Option<Observation>, ConvError>)
    ensures
        rv_observation(r) == co_observation(node_view(n)),
{
    match n {
        AstNode::MarloweObservation(o) => Ok(Some(o)),
        AstNode::Null => Ok(None),
        other => Err(
            ConvError::TypeMismatch { expected: NodeKind::Observation, found: node_kind(&other) },
        ),
    }
}

fn ex_co_action(n: AstNode) -> (r: Result<Option<Action>, ConvError>)
    ensures
        rv_action(r) == co_action(node_view(n)),
{
    match n {
        AstNode::MarloweAction(a) => Ok(Some(a)),
        AstNode::Null => Ok(None),
        other => Err(
            ConvError::TypeMismatch { expected: NodeKind::Action, found: node_kind(&other) },
        ),
    }
}

fn ex_co_party(n: AstNode) -> (r: Result<Option<Party>, ConvError>)
    ensures
        rv_party(r) == co_party(node_view(n)),
{
    match n {
        AstNode::MarloweParty(p) => Ok(Some(p)),
        AstNode::Null => Ok(None),
        other => Err(ConvError::TypeMismatch { expected: NodeKind::Party, found: node_kind(&other) }),
    }
}

fn ex_co_payee(n: AstNode) -> (r: Result<Option<Payee>, ConvError>)
    ensures
        rv_payee(r) == co_payee(node_view(n)),
{
    match n {
        AstNode::MarlowePayee(p) => Ok(Some(p)),
        AstNode::Null => Ok(None),
        other => Err(ConvError::TypeMismatch { expected: NodeKind::Payee, found: node_kind(&other) }),
    }
}

fn ex_co_token(n: AstNode) -> (r: Result<Option<Token>, ConvError>)
    ensures
        rv_token(r) == co_token(node_view(n)),
{
    match n {
        AstNode::MarloweToken(t) => Ok(Some(t)),
        AstNode::Null => Ok(None),
        other => Err(ConvError::TypeMismatch { expected: NodeKind::Token, found: node_kind(&other) }),
    }
}

fn ex_co_timeout(n: AstNode) -> (r: Result<Option<Timeout>, ConvError>)
    ensures
        rv_timeout(r) == co_timeout(node_view(n)),
{
    match n {
        AstNode::MarloweTimeout(t) => Ok(Some(t)),
        AstNode::Null => Ok(None),
        other => Err(
            ConvError::TypeMismatch { expected: NodeKind::Timeout, found: node_kind(&other) },
        ),
    }
}

fn ex_co_case(n: AstNode) -> (r: Result<Option<Case>, ConvError>)
    ensures
        rv_case(r) == co_case(node_view(n)),
{
    match n {
        AstNode::MarloweCase(c) => Ok(Some(c)),
        AstNode::Null => Ok(None),
        other => Err(ConvError::TypeMismatch { expected: NodeKind::Case, found: node_kind(&other) }),
    }
}

fn ex_co_bound(n: AstNode) -> (r: Result<Option<Bound>, ConvError>)
    ensures
        rv_bound(r) == co_bound(node_view(n)),
{
    match n {
        AstNode::MarloweBound(b) => Ok(Some(b)),
        AstNode::Null => Ok(None),
        other => Err(ConvError::TypeMismatch { expected: NodeKind::Bound, found: node_kind(&other) }),
    }
}

fn ex_co_choice_id(n: AstNode) -> (r: Result<Option<ChoiceId>, ConvError>)
    ensures
        rv_choice_id(r) == co_choice_id(node_view(n)),
{
    match n {
        AstNode::MarloweChoiceId(c) => Ok(Some(c)),
        AstNode::Null => Ok(None),
        other => Err(
            ConvError::TypeMismatch { expected: NodeKind::ChoiceId, found: node_kind(&other) },
        ),
    }
}

fn ex_co_text(n: AstNode) -> (r: Result<String, ConvError>)
    ensures
        rv_text(r) == co_text(node_view(n)),
{
    match n {
        AstNode::StringValue(s) => Ok(s),
        other => Err(ConvError::TypeMismatch { expected: NodeKind::Text, found: node_kind(&other) }),
    }
}

fn ex_co_opt_text(n: AstNode) -> (r: Result<Option<String>, ConvError>)
    ensures
        rv_opt_text(r) == co_opt_text(node_view(n)),
{
    match n {
        AstNode::StringValue(s) => Ok(Some(s)),
        AstNode::Null => Ok(None),
        other => Err(ConvError::TypeMismatch { expected: NodeKind::Text, found: node_kind(&other) }),
    }
}

fn ex_co_i64(n: AstNode) -> (r: Result<i64, ConvError>)
    ensures
        r == co_i64(node_view(n)),
{
    match n {
        AstNode::MarloweNumber(v) => Ok(v),
        other => Err(
            ConvError::TypeMismatch { expected: NodeKind::Number, found: node_kind(&other) },
        ),
    }
}

fn ex_co_case_list(n: AstNode) -> (r: Result<Vec<Option<Case>>, ConvError>)
    ensures
        rv_cases(r) == co_case_list(node_view(n)),
{
    match n {
        AstNode::MarloweCaseList(items) => {
            let mut items = items;
            let ghost orig = items@;
            let mut out: Vec<Option<Case>> = Vec::new();
            proof {
                assert(cases_view(out@) + Seq::<Option<CaseV>>::empty() =~= cases_view(out@));
                assert(cases_view(Seq::<Option<Case>>::empty()) =~= Seq::<Option<CaseV>>::empty());
            }
            while items.len() > 0
                invariant
                    node_view(n) == NodeV::CaseList(nodes_view(orig)),
                    co_cases(nodes_view(orig)) == match co_cases(nodes_view(items@)) {
                        Ok(rest) => Ok::<Seq<Option<CaseV>>, ConvError>(cases_view(out@) + rest),
                        Err(e) => Err::<Seq<Option<CaseV>>, ConvError>(e),
                    },
                decreases items@.len(),
            {
                let ghost before = items@;
                let x = items.remove(0);
                proof {
                    lemma_nodes_view_props(before);
                    lemma_nodes_view_props(items@);
                    assert(nodes_view(before)[0] == node_view(x));
                    assert(nodes_view(before).drop_first() =~= nodes_view(items@));
                    assert(co_cases(nodes_view(before)) == match co_case(node_view(x)) {
                        Err(e) => Err::<Seq<Option<CaseV>>, ConvError>(e),
                        Ok(c) => match co_cases(nodes_view(items@)) {
                            Err(e) => Err::<Seq<Option<CaseV>>, ConvError>(e),
                            Ok(rest) => Ok::<Seq<Option<CaseV>>, ConvError>(seq![c] + rest),
                        },
                    });
                }
                let c = match ex_co_case(x) {
                    Ok(c) => c,
                    Err(e) => {
                        return Err(e);
                    },
                };
                proof {
                    lemma_cases_view_push(out@, c);
                    assert(cases_view(out@) + (seq![opt_case_view(c)]
                        + co_cases(nodes_view(items@))->Ok_0) =~= cases_view(out@.push(c))
                        + co_cases(nodes_view(items@))->Ok_0) by {
                        if co_cases(nodes_view(items@)) is Ok {
                        }
                    }
                }
                out.push(c);
            }
            proof {
                assert(nodes_view(items@) =~= Seq::<NodeV>::empty());
                assert(cases_view(out@) + Seq::<Option<CaseV>>::empty() =~= cases_view(out@));
            }
            Ok(out)
        },
        other => Err(
            ConvError::TypeMismatch { expected: NodeKind::CaseList, found: node_kind(&other) },
        ),
    }
}

fn ex_co_bound_list(n: AstNode) -> (r: Result<Vec<Option<Bound>>, ConvError>)
    ensures
        rv_bounds(r) == co_bound_list(node_view(n)),
{
    match n {
        AstNode::MarloweBoundList(items) => {
            let mut items = items;
            let ghost orig = items@;
            let mut out: Vec<Option<Bound>> = Vec::new();
            proof {
                assert(bounds_view(Seq::<Option<Bound>>::empty()) =~= Seq::<Option<BoundV>>::empty());
            }
            while items.len() > 0
                invariant
                    node_view(n) == NodeV::BoundList(nodes_view(orig)),
                    co_bounds(nodes_view(orig)) == match co_bounds(nodes_view(items@)) {
                        Ok(rest) => Ok::<Seq<Option<BoundV>>, ConvError>(bounds_view(out@) + rest),
                        Err(e) => Err::<Seq<Option<BoundV>>, ConvError>(e),
                    },
                decreases items@.len(),
            {
                let ghost before = items@;
                let x = items.remove(0);
                proof {
                    lemma_nodes_view_props(before);
                    lemma_nodes_view_props(items@);
                    assert(nodes_view(before)[0] == node_view(x));
                    assert(nodes_view(before).drop_first() =~= nodes_view(items@));
                    assert(co_bounds(nodes_view(before)) == match co_bound(node_view(x)) {
                        Err(e) => Err::<Seq<Option<BoundV>>, ConvError>(e),
                        Ok(b) => match co_bounds(nodes_view(items@)) {
                            Err(e) => Err::<Seq<Option<BoundV>>, ConvError>(e),
                            Ok(rest) => Ok::<Seq<Option<BoundV>>, ConvError>(seq![b] + rest),
                        },
                    });
                }
                let b = match ex_co_bound(x) {
                    Ok(b) => b,
                    Err(e) => {
                        return Err(e);
                    },
                };
                proof {
                    assert(bounds_view(out@.push(b)) =~= bounds_view(out@).push(opt_bound_view(b)));
                    assert(bounds_view(out@) + (seq![opt_bound_view(b)]
                        + co_bounds(nodes_view(items@))->Ok_0) =~= bounds_view(out@.push(b))
                        + co_bounds(nodes_view(items@))->Ok_0) by {
                        if co_bounds(nodes_view(items@)) is Ok {
                        }
                    }
                }
                out.push(b);
            }
            proof {
                assert(nodes_view(items@) =~= Seq::<NodeV>::empty());
                assert(bounds_view(out@) + Seq::<Option<BoundV>>::empty() =~= bounds_view(out@));
            }
            Ok(out)
        },
        other => Err(
            ConvError::TypeMismatch { expected: NodeKind::BoundList, found: node_kind(&other) },
        ),
    }
}

// ---------------------------------------------------------------------------
// The executable folding step
// ---------------------------------------------------------------------------

/// The table entries that build contract nodes.
#[verifier::rlimit(100)]
#[verifier::spinoff_prover]
fn fold_contract_rules(
    rule: Rule,
    children: Vec<AstNode>,
    text: Option<String>,
    input: &Vec<(String, i64)>,
) -> (r: Result<AstNode, ConvError>)
    requires
        rule == Rule::Contract
            || rule == Rule::Close
            || rule == Rule::Pay
            || rule == Rule::If
            || rule == Rule::When
            || rule == Rule::Let,
    ensures
        rv_node(r) == fold_rule(rule, nodes_view(children@), opt_text_view(text), input@),
{
    proof {
        lemma_nodes_view_props(children@);
    }
    let ghost cs = nodes_view(children@);
    let mut kids = children;
    match rule {
        Rule::Contract => {
            match kids.pop() {
                None => Err(ConvError::MissingChild(rule)),
                Some(n0) => Ok(n0),
            }
        },
        Rule::Close => Ok(AstNode::MarloweContract(Contract::Close)),
        Rule::Pay => {
            let n0 = match kids.pop() {
                Some(x) => x,
                None => {
                    return Err(ConvError::MissingChild(rule));
                },
            };
            let continuation = match ex_co_contract(n0) {
                Err(e) => {
                    return Err(e);
                },
                Ok(c) => c,
            };
            let n1 = match kids.pop() {
                Some(x) => x,
                None => {
                    return Err(ConvError::MissingChild(rule));
                },
            };
            let value = match ex_co_value(n1) {
                Err(e) => {
                    return Err(e);
                },
                Ok(v) => v,
            };
            let n2 = match kids.pop() {
                Some(x) => x,
                None => {
                    return Err(ConvError::MissingChild(rule));
                },
            };
            let token = match ex_co_token(n2) {
                Err(e) => {
                    return Err(e);
                },
                Ok(t) => t,
            };
            let n3 = match kids.pop() {
                Some(x) => x,
                None => {
                    return Err(ConvError::MissingChild(rule));
                },
            };
            let payee = match ex_co_payee(n3) {
                Err(e) => {
                    return Err(e);
                },
                Ok(p) => p,
            };
            let n4 = match kids.pop() {
                Some(x) => x,
                None => {
                    return Err(ConvError::MissingChild(rule));
                },
            };
            match ex_co_party(n4) {
                Err(e) => Err(e),
                Ok(party) => Ok(AstNode::MarloweContract(Contract::Pay {
                    from_account: party,
                    to: payee,
                    token,
                    pay: value,
                    then: continuation,
                })),
            }
        },
        Rule::If => {
            let n0 = match kids.pop() {
                Some(x) => x,
                None => {
                    return Err(ConvError::MissingChild(rule));
                },
            };
            let else_contract = match ex_co_contract(n0) {
                Err(e) => {
                    return Err(e);
                },
                Ok(c) => c,
            };
            let n1 = match kids.pop() {
                Some(x) => x,
                None => {
                    return Err(ConvError::MissingChild(rule));
                },
            };
            let then_contract = match ex_co_contract(n1) {
                Err(e) => {
                    return Err(e);
                },
                Ok(c) => c,
            };
            let n2 = match kids.pop() {
                Some(x) => x,
                None => {
                    return Err(ConvError::MissingChild(rule));
                },
            };
            match ex_co_observation(n2) {
                Err(e) => Err(e),
                Ok(o) => Ok(AstNode::MarloweContract(Contract::If {
                    condition: o,
                    then: then_contract,
                    otherwise: else_contract,
                })),
            }
        },
        Rule::When => {
            let n0 = match kids.pop() {
                Some(x) => x,
                None => {
                    return Err(ConvError::MissingChild(rule));
                },
            };
            let cont = match ex_co_contract(n0) {
                Err(e) => {
                    return Err(e);
                },
                Ok(c) => c,
            };
            let n1 = match kids.pop() {
                Some(x) => x,
                None => {
                    return Err(ConvError::MissingChild(rule));
                },
            };
            let t = match ex_co_timeout(n1) {
                Err(e) => {
                    return Err(e);
                },
                Ok(t) => t,
            };
            let n2 = match kids.pop() {
                Some(x) => x,
                None => {
                    return Err(ConvError::MissingChild(rule));
                },
            };
            match ex_co_case_list(n2) {
                Err(e) => Err(e),
                Ok(cases) => Ok(AstNode::MarloweContract(Contract::When {
                    when: cases,
                    timeout: t,
                    timeout_continuation: cont,
                })),
            }
        },
        Rule::Let => {
            let n0 = match kids.pop() {
                Some(x) => x,
                None => {
                    return Err(ConvError::MissingChild(rule));
                },
            };
            let continue_as = match ex_co_contract(n0) {
                Err(e) => {
                    return Err(e);
                },
                Ok(c) => c,
            };
            let n1 = match kids.pop() {
                Some(x) => x,
                None => {
                    return Err(ConvError::MissingChild(rule));
                },
            };
            let value = match ex_co_value(n1) {
                Err(e) => {
                    return Err(e);
                },
                Ok(v) => v,
            };
            let n2 = match kids.pop() {
                Some(x) => x,
                None => {
                    return Err(ConvError::MissingChild(rule));
                },
            };
            match ex_co_opt_text(n2) {
                Err(e) => Err(e),
                Ok(None) => Err(ConvError::LetNameAbsent),
                Ok(Some(name)) => Ok(AstNode::MarloweContract(Contract::Let {
                    name,
                    be: value,
                    then: continue_as,
                })),
            }
        },
        _ => Err(ConvError::UnhandledRule(rule)),
    }
}

#[verifier::rlimit(100)]
#[verifier::spinoff_prover]
fn fold_value_rules(
    rule: Rule,
    children: Vec<AstNode>,
    text: Option<String>,
    input: &Vec<(String, i64)>,
) -> (r: Result<AstNode, ConvError>)
    requires
        rule == Rule::UseValue
            || rule == Rule::ConstantParam
            || rule == Rule::Constant
            || rule == Rule::SubValue
            || rule == Rule::MulValue
            || rule == Rule::AddValue
            || rule == Rule::DivValue
            || rule == Rule::NegValue
            || rule == Rule::Cond
            || rule == Rule::ChoiceValue
            || rule == Rule::AvailableMoney
            || rule == Rule::TimeIntervalEnd
            || rule == Rule::TimeIntervalStart,
    ensures
        rv_node(r) == fold_rule(rule, nodes_view(children@), opt_text_view(text), input@),
{
    proof {
        lemma_nodes_view_props(children@);
    }
    let ghost cs = nodes_view(children@);
    let mut kids = children;
    match rule {
        Rule::UseValue => {
            let n0 = match kids.pop() {
                Some(x) => x,
                None => {
                    return Err(ConvError::MissingChild(rule));
                },
            };
            match ex_co_text(n0) {
                Err(e) => Err(e),
                Ok(s) => Ok(AstNode::MarloweValue(Value::UseValue(s))),
            }
        },
        Rule::ConstantParam => {
            let n0 = match kids.pop() {
                Some(x) => x,
                None => {
                    return Err(ConvError::MissingChild(rule));
                },
            };
            match ex_co_text(n0) {
                Err(e) => Err(e),
                Ok(name) => match lookup_param_exec(input, &name) {
                    Some(v) => Ok(AstNode::MarloweValue(Value::ConstantValue(v))),
                    None => Ok(AstNode::MarloweValue(Value::ConstantParam(name))),
                },
            }
        },
        Rule::Constant => {
            let n0 = match kids.pop() {
                Some(x) => x,
                None => {
                    return Err(ConvError::MissingChild(rule));
                },
            };
            match ex_co_i64(n0) {
                Err(e) => Err(e),
                Ok(v) => Ok(AstNode::MarloweValue(Value::ConstantValue(v))),
            }
        },
        Rule::SubValue => {
            let n0 = match kids.pop() {
                Some(x) => x,
                None => {
                    return Err(ConvError::MissingChild(rule));
                },
            };
            let v2 = match ex_co_box_value(n0) {
                Err(e) => {
                    return Err(e);
                },
                Ok(v) => v,
            };
            let n1 = match kids.pop() {
                Some(x) => x,
                None => {
                    return Err(ConvError::MissingChild(rule));
                },
            };
            match ex_co_box_value(n1) {
                Err(e) => Err(e),
                Ok(v1) => Ok(AstNode::MarloweValue(Value::SubValue(v1, v2))),
            }
        },
        Rule::MulValue => {
            let n0 = match kids.pop() {
                Some(x) => x,
                None => {
                    return Err(ConvError::MissingChild(rule));
                },
            };
            let v2 = match ex_co_box_value(n0) {
                Err(e) => {
                    return Err(e);
                },
                Ok(v) => v,
            };
            let n1 = match kids.pop() {
                Some(x) => x,
                None => {
                    return Err(ConvError::MissingChild(rule));
                },
            };
            match ex_co_box_value(n1) {
                Err(e) => Err(e),
                Ok(v1) => Ok(AstNode::MarloweValue(Value::MulValue(v1, v2))),
            }
        },
        Rule::AddValue => {
            let n0 = match kids.pop() {
                Some(x) => x,
                None => {
                    return Err(ConvError::MissingChild(rule));
                },
            };
            let v2 = match ex_co_box_value(n0) {
                Err(e) => {
                    return Err(e);
                },
                Ok(v) => v,
            };
            let n1 = match kids.pop() {
                Some(x) => x,
                None => {
                    return Err(ConvError::MissingChild(rule));
                },
            };
            match ex_co_box_value(n1) {
                Err(e) => Err(e),
                Ok(v1) => Ok(AstNode::MarloweValue(Value::AddValue(v1, v2))),
            }
        },
        Rule::DivValue => {
            let n0 = match kids.pop() {
                Some(x) => x,
                None => {
                    return Err(ConvError::MissingChild(rule));
                },
            };
            let v2 = match ex_co_box_value(n0) {
                Err(e) => {
                    return Err(e);
                },
                Ok(v) => v,
            };
            let n1 = match kids.pop() {
                Some(x) => x,
                None => {
                    return Err(ConvError::MissingChild(rule));
                },
            };
            match ex_co_box_value(n1) {
                Err(e) => Err(e),
                Ok(v1) => Ok(AstNode::MarloweValue(Value::DivValue(v1, v2))),
            }
        },
        Rule::NegValue => {
            let n0 = match kids.pop() {
                Some(x) => x,
                None => {
                    return Err(ConvError::MissingChild(rule));
                },
            };
            match ex_co_box_value(n0) {
                Err(e) => Err(e),
                Ok(v) => Ok(AstNode::MarloweValue(Value::NegValue(v))),
            }
        },
        Rule::Cond => {
            let n0 = match kids.pop() {
                Some(x) => x,
                None => {
                    return Err(ConvError::MissingChild(rule));
                },
            };
            let v2 = match ex_co_box_value(n0) {
                Err(e) => {
                    return Err(e);
                },
                Ok(v) => v,
            };
            let n1 = match kids.pop() {
                Some(x) => x,
                None => {
                    return Err(ConvError::MissingChild(rule));
                },
            };
            let v1 = match ex_co_box_value(n1) {
                Err(e) => {
                    return Err(e);
                },
                Ok(v) => v,
            };
            let n2 = match kids.pop() {
                Some(x) => x,
                None => {
                    return Err(ConvError::MissingChild(rule));
                },
            };
            match ex_co_observation(n2) {
                Err(e) => Err(e),
                Ok(o) => Ok(AstNode::MarloweValue(Value::Cond(o, v1, v2))),
            }
        },
        Rule::ChoiceValue => {
            let n0 = match kids.pop() {
                Some(x) => x,
                None => {
                    return Err(ConvError::MissingChild(rule));
                },
            };
            match ex_co_choice_id(n0) {
                Err(e) => Err(e),
                Ok(v) => Ok(AstNode::MarloweValue(Value::ChoiceValue(v))),
            }
        },
        Rule::AvailableMoney => {
            let n0 = match kids.pop() {
                Some(x) => x,
                None => {
                    return Err(ConvError::MissingChild(rule));
                },
            };
            let t = match ex_co_token(n0) {
                Err(e) => {
                    return Err(e);
                },
                Ok(t) => t,
            };
            let n1 = match kids.pop() {
                Some(x) => x,
                None => {
                    return Err(ConvError::MissingChild(rule));
                },
            };
            match ex_co_party(n1) {
                Err(e) => Err(e),
                Ok(p) => Ok(AstNode::MarloweValue(Value::AvailableMoney(p, t))),
            }
        },
        Rule::TimeIntervalEnd => Ok(AstNode::MarloweValue(Value::TimeIntervalEnd)),
        Rule::TimeIntervalStart => Ok(AstNode::MarloweValue(Value::TimeIntervalStart)),
        _ => Err(ConvError::UnhandledRule(rule)),
    }
}

#[verifier::rlimit(100)]
#[verifier::spinoff_prover]
fn fold_observation_and_leaf_rules(
    rule: Rule,
    children: Vec<AstNode>,
    text: Option<String>,
    input: &Vec<(String, i64)>,
) -> (r: Result<AstNode, ConvError>)
    requires
        rule == Rule::TrueObs
            || rule == Rule::FalseObs
            || rule == Rule::ValueGT
            || rule == Rule::ValueGE
            || rule == Rule::ValueLT
            || rule == Rule::Number
            || rule == Rule::StringLit
            || rule == Rule::PubKey
            || rule == Rule::TimeConstant,
    ensures
        rv_node(r) == fold_rule(rule, nodes_view(children@), opt_text_view(text), input@),
{
    proof {
        lemma_nodes_view_props(children@);
    }
    let ghost cs = nodes_view(children@);
    let mut kids = children;
    match rule {
        Rule::TrueObs => Ok(AstNode::MarloweObservation(Observation::True)),
        Rule::FalseObs => Ok(AstNode::MarloweObservation(Observation::False)),
        Rule::ValueGT => {
            let n0 = match kids.pop() {
                Some(x) => x,
                None => {
                    return Err(ConvError::MissingChild(rule));
                },
            };
            let v2 = match ex_co_box_value(n0) {
                Err(e) => {
                    return Err(e);
                },
                Ok(v) => v,
            };
            let n1 = match kids.pop() {
                Some(x) => x,
                None => {
                    return Err(ConvError::MissingChild(rule));
                },
            };
            match ex_co_box_value(n1) {
                Err(e) => Err(e),
                Ok(v1) => Ok(AstNode::MarloweObservation(Observation::ValueGT {
                    value: v1,
                    gt_than: v2,
                })),
            }
        },
        Rule::ValueGE => {
            let n0 = match kids.pop() {
                Some(x) => x,
                None => {
                    return Err(ConvError::MissingChild(rule));
                },
            };
            let v2 = match ex_co_box_value(n0) {
                Err(e) => {
                    return Err(e);
                },
                Ok(v) => v,
            };
            let n1 = match kids.pop() {
                Some(x) => x,
                None => {
                    return Err(ConvError::MissingChild(rule));
                },
            };
            match ex_co_box_value(n1) {
                Err(e) => Err(e),
                Ok(v1) => Ok(AstNode::MarloweObservation(Observation::ValueGE {
                    value: v1,
                    ge_than: v2,
                })),
            }
        },
        Rule::ValueLT => {
            let n0 = match kids.pop() {
                Some(x) => x,
                None => {
                    return Err(ConvError::MissingChild(rule));
                },
            };
            let v2 = match ex_co_box_value(n0) {
                Err(e) => {
                    return Err(e);
                },
                Ok(v) => v,
            };
            let n1 = match kids.pop() {
                Some(x) => x,
                None => {
                    return Err(ConvError::MissingChild(rule));
                },
            };
            match ex_co_box_value(n1) {
                Err(e) => Err(e),
                Ok(v1) => Ok(AstNode::MarloweObservation(Observation::ValueLT {
                    value: v1,
                    lt_than: v2,
                })),
            }
        },
        Rule::Number => {
            match text {
                None => Err(ConvError::MissingText(rule)),
                Some(s) => {
                    let digits = string_chars(s.as_str());
                    match parse_i64_chars(&digits) {
                        Some(v) => Ok(AstNode::MarloweNumber(v)),
                        None => Err(ConvError::NumberFormat(rule)),
                    }
                },
            }
        },
        Rule::StringLit => {
            match text {
                Some(s) => Ok(AstNode::StringValue(s)),
                None => Err(ConvError::MissingText(rule)),
            }
        },
        Rule::PubKey => {
            match text {
                None => Err(ConvError::MissingText(rule)),
                Some(s) => {
                    let trimmed = trim_quotes_exec(&s);
                    Ok(AstNode::StringValue(trimmed))
                },
            }
        },
        Rule::TimeConstant => {
            match text {
                None => Err(ConvError::MissingText(rule)),
                Some(s) => {
                    let digits = string_chars(s.as_str());
                    match parse_i64_chars(&digits) {
                        Some(v) => Ok(AstNode::MarloweTimeout(Timeout::TimeConstant(v))),
                        None => Err(ConvError::NumberFormat(rule)),
                    }
                },
            }
        },
        _ => Err(ConvError::UnhandledRule(rule)),
    }
}

#[verifier::rlimit(100)]
#[verifier::spinoff_prover]
fn fold_structure_rules(
    rule: Rule,
    children: Vec<AstNode>,
    text: Option<String>,
    input: &Vec<(String, i64)>,
) -> (r: Result<AstNode, ConvError>)
    requires
        rule == Rule::ArrayOfCases
            || rule == Rule::ArrayOfBounds
            || rule == Rule::PK
            || rule == Rule::Role
            || rule == Rule::TimeParam
            || rule == Rule::PayeeAccount
            || rule == Rule::PayeeParty
            || rule == Rule::Notify
            || rule == Rule::Case
            || rule == Rule::ADA
            || rule == Rule::Currency
            || rule == Rule::Deposit
            || rule == Rule::ChoiceId
            || rule == Rule::Bound
            || rule == Rule::Choice
            || rule == Rule::ActionHole
            || rule == Rule::ContractHole
            || rule == Rule::TokenHole
            || rule == Rule::CaseHole
            || rule == Rule::ValueHole
            || rule == Rule::ObservationHole
            || rule == Rule::PartyHole
            || rule == Rule::FromPartyHole
            || rule == Rule::BoundHole
            || rule == Rule::PayeeHole
            || rule == Rule::TimeoutHole,
    ensures
        rv_node(r) == fold_rule(rule, nodes_view(children@), opt_text_view(text), input@),
{
    proof {
        lemma_nodes_view_props(children@);
    }
    let ghost cs = nodes_view(children@);
    let mut kids = children;
    match rule {
        Rule::ArrayOfCases => Ok(AstNode::MarloweCaseList(kids)),
        Rule::ArrayOfBounds => Ok(AstNode::MarloweBoundList(kids)),
        Rule::PK => {
            let n0 = match kids.pop() {
                Some(x) => x,
                None => {
                    return Err(ConvError::MissingChild(rule));
                },
            };
            match ex_co_text(n0) {
                Err(e) => Err(e),
                Ok(s) => Ok(AstNode::MarloweParty(Party::PK { pk_hash: s })),
            }
        },
        Rule::Role => {
            let n0 = match kids.pop() {
                Some(x) => x,
                None => {
                    return Err(ConvError::MissingChild(rule));
                },
            };
            match ex_co_text(n0) {
                Err(e) => Err(e),
                Ok(s) => Ok(AstNode::MarloweParty(Party::Role { role_token: s })),
            }
        },
        Rule::TimeParam => {
            let n0 = match kids.pop() {
                Some(x) => x,
                None => {
                    return Err(ConvError::MissingChild(rule));
                },
            };
            match ex_co_text(n0) {
                Err(e) => Err(e),
                Ok(name) => match lookup_param_exec(input, &name) {
                    Some(v) => Ok(AstNode::MarloweTimeout(Timeout::TimeConstant(v))),
                    None => Ok(AstNode::MarloweTimeout(Timeout::TimeParam(name))),
                },
            }
        },
        Rule::PayeeAccount => {
            let n0 = match kids.pop() {
                Some(x) => x,
                None => {
                    return Err(ConvError::MissingChild(rule));
                },
            };
            match ex_co_party(n0) {
                Err(e) => Err(e),
                Ok(p) => Ok(AstNode::MarlowePayee(Payee::Account(p))),
            }
        },
        Rule::PayeeParty => {
            let n0 = match kids.pop() {
                Some(x) => x,
                None => {
                    return Err(ConvError::MissingChild(rule));
                },
            };
            match ex_co_party(n0) {
                Err(e) => Err(e),
                Ok(p) => Ok(AstNode::MarlowePayee(Payee::Party(p))),
            }
        },
        Rule::Notify => {
            let n0 = match kids.pop() {
                Some(x) => x,
                None => {
                    return Err(ConvError::MissingChild(rule));
                },
            };
            match ex_co_observation(n0) {
                Err(e) => Err(e),
                Ok(o) => Ok(AstNode::MarloweAction(Action::Notify { notify_if: o })),
            }
        },
        Rule::Case => {
            let n0 = match kids.pop() {
                Some(x) => x,
                None => {
                    return Err(ConvError::MissingChild(rule));
                },
            };
            let cont = match ex_co_contract(n0) {
                Err(e) => {
                    return Err(e);
                },
                Ok(c) => c,
            };
            let n1 = match kids.pop() {
                Some(x) => x,
                None => {
                    return Err(ConvError::MissingChild(rule));
                },
            };
            match ex_co_action(n1) {
                Err(e) => Err(e),
                Ok(a) => Ok(AstNode::MarloweCase(Case { case: a, then: cont })),
            }
        },
        Rule::ADA => Ok(AstNode::MarloweToken(Token::ADA)),
        Rule::Currency => {
            let n0 = match kids.pop() {
                Some(x) => x,
                None => {
                    return Err(ConvError::MissingChild(rule));
                },
            };
            let v2 = match ex_co_text(n0) {
                Err(e) => {
                    return Err(e);
                },
                Ok(s) => s,
            };
            let n1 = match kids.pop() {
                Some(x) => x,
                None => {
                    return Err(ConvError::MissingChild(rule));
                },
            };
            match ex_co_text(n1) {
                Err(e) => Err(e),
                Ok(v1) => Ok(AstNode::MarloweToken(Token::Custom {
                    currency_symbol: v1,
                    token_name: v2,
                })),
            }
        },
        Rule::Deposit => {
            let n0 = match kids.pop() {
                Some(x) => x,
                None => {
                    return Err(ConvError::MissingChild(rule));
                },
            };
            let value = match ex_co_value(n0) {
                Err(e) => {
                    return Err(e);
                },
                Ok(v) => v,
            };
            let n1 = match kids.pop() {
                Some(x) => x,
                None => {
                    return Err(ConvError::MissingChild(rule));
                },
            };
            let token = match ex_co_token(n1) {
                Err(e) => {
                    return Err(e);
                },
                Ok(t) => t,
            };
            let n2 = match kids.pop() {
                Some(x) => x,
                None => {
                    return Err(ConvError::MissingChild(rule));
                },
            };
            let by_party = match ex_co_party(n2) {
                Err(e) => {
                    return Err(e);
                },
                Ok(p) => p,
            };
            let n3 = match kids.pop() {
                Some(x) => x,
                None => {
                    return Err(ConvError::MissingChild(rule));
                },
            };
            match ex_co_party(n3) {
                Err(e) => Err(e),
                Ok(into_account_of) => Ok(AstNode::MarloweAction(Action::Deposit {
                    party: by_party,
                    into_account: into_account_of,
                    of_token: token,
                    deposits: value,
                })),
            }
        },
        Rule::ChoiceId => {
            let n0 = match kids.pop() {
                Some(x) => x,
                None => {
                    return Err(ConvError::MissingChild(rule));
                },
            };
            let party = match ex_co_party(n0) {
                Err(e) => {
                    return Err(e);
                },
                Ok(p) => p,
            };
            let n1 = match kids.pop() {
                Some(x) => x,
                None => {
                    return Err(ConvError::MissingChild(rule));
                },
            };
            match ex_co_text(n1) {
                Err(e) => Err(e),
                Ok(s) => Ok(AstNode::MarloweChoiceId(ChoiceId {
                    choice_name: s,
                    choice_owner: party,
                })),
            }
        },
        Rule::Bound => {
            let n0 = match kids.pop() {
                Some(x) => x,
                None => {
                    return Err(ConvError::MissingChild(rule));
                },
            };
            let end = match ex_co_i64(n0) {
                Err(e) => {
                    return Err(e);
                },
                Ok(v) => v,
            };
            let n1 = match kids.pop() {
                Some(x) => x,
                None => {
                    return Err(ConvError::MissingChild(rule));
                },
            };
            match ex_co_i64(n1) {
                Err(e) => Err(e),
                Ok(start) => Ok(AstNode::MarloweBound(Bound(start, end))),
            }
        },
        Rule::Choice => {
            let n0 = match kids.pop() {
                Some(x) => x,
                None => {
                    return Err(ConvError::MissingChild(rule));
                },
            };
            let bound = match ex_co_bound_list(n0) {
                Err(e) => {
                    return Err(e);
                },
                Ok(b) => b,
            };
            let n1 = match kids.pop() {
                Some(x) => x,
                None => {
                    return Err(ConvError::MissingChild(rule));
                },
            };
            match ex_co_choice_id(n1) {
                Err(e) => Err(e),
                Ok(cid) => Ok(AstNode::MarloweAction(Action::Choice {
                    for_choice: cid,
                    choose_between: bound,
                })),
            }
        },
        Rule::ActionHole
        | Rule::ContractHole
        | Rule::TokenHole
        | Rule::CaseHole
        | Rule::ValueHole
        | Rule::ObservationHole
        | Rule::PartyHole
        | Rule::FromPartyHole
        | Rule::BoundHole
        | Rule::PayeeHole
        | Rule::TimeoutHole => Ok(AstNode::Null),
        _ => Err(ConvError::UnhandledRule(rule)),
    }
}

/// Folds one ready rule over its accumulated children, retrieved by popping
/// from the end of the list (reverse completion order), exactly as
/// `fold_rule` specifies.
fn fold_rule_exec(
    rule: Rule,
    children: Vec<AstNode>,
    text: Option<String>,
    input: &Vec<(String, i64)>,
) -> (r: Result<AstNode, ConvError>)
    ensures
        rv_node(r) == fold_rule(rule, nodes_view(children@), opt_text_view(text), input@),
{
    match rule {
        Rule::Contract
        | Rule::Close
        | Rule::Pay
        | Rule::If
        | Rule::When
        | Rule::Let => fold_contract_rules(rule, children, text, input),
        Rule::UseValue
        | Rule::ConstantParam
        | Rule::Constant
        | Rule::SubValue
        | Rule::MulValue
        | Rule::AddValue
        | Rule::DivValue
        | Rule::NegValue
        | Rule::Cond
        | Rule::ChoiceValue
        | Rule::AvailableMoney
        | Rule::TimeIntervalEnd
        | Rule::TimeIntervalStart => fold_value_rules(rule, children, text, input),
        Rule::TrueObs
        | Rule::FalseObs
        | Rule::ValueGT
        | Rule::ValueGE
        | Rule::ValueLT
        | Rule::Number
        | Rule::StringLit
        | Rule::PubKey
        | Rule::TimeConstant => fold_observation_and_leaf_rules(rule, children, text, input),
        Rule::ArrayOfCases
        | Rule::ArrayOfBounds
        | Rule::PK
        | Rule::Role
        | Rule::TimeParam
        | Rule::PayeeAccount
        | Rule::PayeeParty
        | Rule::Notify
        | Rule::Case
        | Rule::ADA
        | Rule::Currency
        | Rule::Deposit
        | Rule::ChoiceId
        | Rule::Bound
        | Rule::Choice
        | Rule::ActionHole
        | Rule::ContractHole
        | Rule::TokenHole
        | Rule::CaseHole
        | Rule::ValueHole
        | Rule::ObservationHole
        | Rule::PartyHole
        | Rule::FromPartyHole
        | Rule::BoundHole
        | Rule::PayeeHole
        | Rule::TimeoutHole => fold_structure_rules(rule, children, text, input),
        unmatched_rule => Err(ConvError::UnhandledRule(unmatched_rule)),
    }
}

// ---------------------------------------------------------------------------
// The explicit work stack
// ---------------------------------------------------------------------------

/// One pending expansion: a syntax node whose children are still being
/// converted. `remaining_children` is kept reversed, so the next child to
/// visit is its last element; completed children accumulate in
/// `extracted_child_ast_nodes` in source order.
struct Operation {
    pair_rule_type: Rule,
    remaining_children: Vec<SyntaxNode>,
    extracted_child_ast_nodes: Vec<AstNode>,
    string_representation: Option<String>,
}

/// The view of a pending expansion.
pub struct FrameV {
    pub rule: Rule,
    pub pending: Seq<SyntaxNode>,
    pub done: Seq<NodeV>,
    pub text: Option<Seq<char>>,
}

spec fn frame_view(op: Operation) -> FrameV {
    FrameV {
        rule: op.pair_rule_type,
        pending: op.remaining_children@,
        done: nodes_view(op.extracted_child_ast_nodes@),
        text: opt_text_view(op.string_representation),
    }
}

spec fn stack_view(s: Seq<Operation>) -> Seq<FrameV> {
    s.map_values(|op: Operation| frame_view(op))
}

/// The frame a freshly visited node starts with.
pub open spec fn new_frame(c: SyntaxNode) -> FrameV {
    FrameV { rule: c.rule, pending: c.children@.reverse(), done: Seq::empty(), text: leaf_text(c) }
}

/// The frame after one completed child has been attached.
pub open spec fn push_done(f: FrameV, v: NodeV) -> FrameV {
    FrameV { done: f.done.push(v), ..f }
}

/// What a frame will eventually fold to: the rest of its children, then its
/// own rule.
pub open spec fn finish_frame(f: FrameV, ps: Seq<(String, i64)>) -> Result<NodeV, ConvError> {
    match fold_list(f.pending.reverse(), ps) {
        Err(e) => Err(e),
        Ok(cs) => fold_rule(f.rule, f.done + cs, f.text, ps),
    }
}

/// What the whole machine yields from a given stack: finish the top frame,
/// hand its value down, and so on to the bottom.
pub open spec fn denote(stack: Seq<FrameV>, ps: Seq<(String, i64)>) -> Result<NodeV, ConvError>
    decreases stack.len(), 0int,
{
    if stack.len() == 0 {
        Err(ConvError::MalformedResult)
    } else {
        match finish_frame(stack.last(), ps) {
            Err(e) => Err(e),
            Ok(v) => if stack.len() == 1 {
                Ok(v)
            } else {
                denote_with(stack.drop_last(), v, ps)
            },
        }
    }
}

/// `denote`, after attaching one completed value to the top frame.
pub open spec fn denote_with(stack: Seq<FrameV>, v: NodeV, ps: Seq<(String, i64)>) -> Result<
    NodeV,
    ConvError,
>
    decreases stack.len(), 1int,
{
    if stack.len() == 0 {
        Err(ConvError::MalformedResult)
    } else {
        denote(stack.update(stack.len() - 1, push_done(stack.last(), v)), ps)
    }
}

// ---------------------------------------------------------------------------
// Termination measure for the engine loop
// ---------------------------------------------------------------------------

spec fn pending_weight(s: Seq<Operation>) -> nat
    decreases s.len(),
{
    if s.len() == 0 {
        0
    } else {
        forest_size(s[0].remaining_children@) + pending_weight(s.drop_first())
    }
}

proof fn lemma_weight_push(s: Seq<Operation>, op: Operation)
    ensures
        pending_weight(s.push(op)) == pending_weight(s) + forest_size(op.remaining_children@),
    decreases s.len(),
{
    assert(pending_weight(s.push(op)) == forest_size(s.push(op)[0].remaining_children@)
        + pending_weight(s.push(op).drop_first()));
    if s.len() == 0 {
        assert(s.push(op)[0] == op);
        assert(s.push(op).drop_first() =~= Seq::<Operation>::empty());
    } else {
        assert(s.push(op)[0] == s[0]);
        assert(s.push(op).drop_first() =~= s.drop_first().push(op));
        lemma_weight_push(s.drop_first(), op);
    }
}

proof fn lemma_weight_drop_last(s: Seq<Operation>)
    requires
        s.len() > 0,
    ensures
        pending_weight(s) == pending_weight(s.drop_last()) + forest_size(
            s.last().remaining_children@,
        ),
{
    assert(s =~= s.drop_last().push(s.last()));
    lemma_weight_push(s.drop_last(), s.last());
}

/// The engine's loop measure: every step removes a frame or moves one node's
/// worth of pending work into a strictly smaller new frame.
spec fn stack_measure(s: Seq<Operation>) -> nat {
    s.len() + 2 * pending_weight(s)
}

// ---------------------------------------------------------------------------
// Steps of the refinement proof
// ---------------------------------------------------------------------------

proof fn lemma_fold_list_cons(c: SyntaxNode, s: Seq<SyntaxNode>, ps: Seq<(String, i64)>)
    ensures
        fold_list(seq![c] + s, ps) == match fold_node(c, ps) {
            Err(e) => Err::<Seq<NodeV>, ConvError>(e),
            Ok(n) => match fold_list(s, ps) {
                Err(e) => Err::<Seq<NodeV>, ConvError>(e),
                Ok(rest) => Ok::<Seq<NodeV>, ConvError>(seq![n] + rest),
            },
        },
{
    assert((seq![c] + s).len() > 0);
    assert((seq![c] + s)[0] == c);
    assert((seq![c] + s).drop_first() =~= s);
}

proof fn lemma_finish_new_frame(c: SyntaxNode, ps: Seq<(String, i64)>)
    ensures
        finish_frame(new_frame(c), ps) == fold_node(c, ps),
{
    assert(c.children@.reverse().reverse() =~= c.children@);
    if fold_list(c.children@, ps) is Ok {
        let cs = fold_list(c.children@, ps)->Ok_0;
        assert(Seq::<NodeV>::empty() + cs =~= cs);
    }
}

/// Descending into the next child preserves what the machine denotes.
proof fn lemma_denote_descend(below: Seq<FrameV>, f: FrameV, ps: Seq<(String, i64)>)
    requires
        f.pending.len() > 0,
    ensures
        denote(below.push(f), ps) == denote(
            below.push(FrameV { pending: f.pending.drop_last(), ..f }).push(
                new_frame(f.pending.last()),
            ),
            ps,
        ),
{
    let c = f.pending.last();
    let f2 = FrameV { pending: f.pending.drop_last(), ..f };
    let s1 = below.push(f);
    let s2 = below.push(f2).push(new_frame(c));
    lemma_finish_new_frame(c, ps);
    assert(f.pending.reverse() =~= seq![c] + f2.pending.reverse());
    lemma_fold_list_cons(c, f2.pending.reverse(), ps);
    assert(s2.last() == new_frame(c));
    assert(s2.drop_last() =~= below.push(f2));
    assert(s1.last() == f);
    assert(s1.drop_last() =~= below);
    match fold_node(c, ps) {
        Err(e) => {
            assert(finish_frame(f, ps) == Err::<NodeV, ConvError>(e));
            assert(denote(s1, ps) == Err::<NodeV, ConvError>(e));
            assert(finish_frame(new_frame(c), ps) == Err::<NodeV, ConvError>(e));
            assert(denote(s2, ps) == Err::<NodeV, ConvError>(e));
        },
        Ok(v) => {
            assert(denote(s2, ps) == denote_with(below.push(f2), v, ps));
            let f3 = push_done(f2, v);
            assert(below.push(f2).last() == f2);
            assert(below.push(f2).update(below.len() as int, f3) =~= below.push(f3));
            assert(denote_with(below.push(f2), v, ps) == denote(below.push(f3), ps));
            match fold_list(f2.pending.reverse(), ps) {
                Err(e2) => {
                    assert(finish_frame(f, ps) == Err::<NodeV, ConvError>(e2));
                    assert(finish_frame(f3, ps) == Err::<NodeV, ConvError>(e2));
                },
                Ok(cs) => {
                    assert(f.done + (seq![v] + cs) =~= f3.done + cs);
                    assert(finish_frame(f, ps) == fold_rule(f.rule, f.done + (seq![v] + cs), f.text, ps));
                    assert(finish_frame(f3, ps) == fold_rule(f3.rule, f3.done + cs, f3.text, ps));
                },
            }
            assert(finish_frame(f, ps) == finish_frame(f3, ps));
            assert(below.push(f3).last() == f3);
            assert(below.push(f3).drop_last() =~= below);
            assert(denote(s1, ps) == denote(below.push(f3), ps));
        },
    }
}

// ---------------------------------------------------------------------------
// The engine
// ---------------------------------------------------------------------------

fn reverse_nodes(children: Vec<SyntaxNode>) -> (r: Vec<SyntaxNode>)
    ensures
        r@ == children@.reverse(),
{
    let mut inp = children;
    let ghost orig = inp@;
    let mut out: Vec<SyntaxNode> = Vec::new();
    while inp.len() > 0
        invariant
            orig =~= inp@ + out@.reverse(),
        decreases inp@.len(),
    {
        let x = inp.pop().unwrap();
        proof {
            assert(out@.push(x).reverse() =~= seq![x] + out@.reverse());
        }
        out.push(x);
    }
    proof {
        assert(inp@ =~= Seq::<SyntaxNode>::empty());
        assert(out@ =~= orig.reverse());
    }
    out
}

fn make_operation(node: SyntaxNode) -> (op: Operation)
    ensures
        frame_view(op) == new_frame(node),
{
    let SyntaxNode { rule, children, text } = node;
    let is_leaf = children.len() == 0;
    let remaining = reverse_nodes(children);
    let op = Operation {
        pair_rule_type: rule,
        remaining_children: remaining,
        extracted_child_ast_nodes: Vec::new(),
        string_representation: if is_leaf {
            Some(text)
        } else {
            None
        },
    };
    proof {
        assert(frame_view(op).done =~= Seq::<NodeV>::empty());
    }
    op
}

/// Attaches a completed node to the expansion below it, or, when none is
/// left, parks it as the machine's overall result.
fn add_to_parent(
    call_stack: &mut Vec<Operation>,
    result_stack: &mut Vec<AstNode>,
    node: AstNode,
)
    ensures
        old(call_stack)@.len() == 0 ==> final(call_stack)@ == old(call_stack)@ && final(result_stack)@ == old(result_stack)@.push(node),
        old(call_stack)@.len() > 0 ==> final(result_stack)@ == old(result_stack)@ && final(call_stack)@.len() == old(call_stack)@.len() && stack_view(final(call_stack)@) =~= stack_view(
            old(call_stack)@,
        ).update(
            old(call_stack)@.len() - 1,
            push_done(frame_view(old(call_stack)@.last()), node_view(node)),
        ) && forall|i: int|
            0 <= i < final(call_stack)@.len() ==> final(call_stack)@[i].remaining_children
                == old(call_stack)@[i].remaining_children,
{
    if call_stack.len() > 0 {
        let mut parent = call_stack.pop().unwrap();
        parent.extracted_child_ast_nodes.push(node);
        proof {
            lemma_nodes_view_push(old(call_stack)@.last().extracted_child_ast_nodes@, node);
        }
        call_stack.push(parent);
        proof {
            assert(call_stack@ =~= old(call_stack)@.update(
                old(call_stack)@.len() - 1,
                call_stack@.last(),
            ));
            assert(frame_view(call_stack@.last()) == push_done(
                frame_view(old(call_stack)@.last()),
                node_view(node),
            ));
        }
    } else {
        result_stack.push(node);
    }
}

/// Converts a whole syntax tree into one intermediate node, iteratively.
///
/// The returned value is, seen at the specification level, exactly
/// `convert_spec(pair, input@)`: the duplicate-key check, then the recursive
/// fold of the tree by the folding table.
#[verifier::loop_isolation(false)]
pub fn parse_raw(pair: SyntaxNode, input: &Vec<(String, i64)>) -> (r: Result<AstNode, ConvError>)
    ensures
        rv_node(r) == convert_spec(pair, input@),
{
    if has_duplicate_keys_exec(input) {
        return Err(ConvError::DuplicateParameterKey);
    }
    let ghost root = pair;
    let mut call_stack: Vec<Operation> = Vec::new();
    let mut result_stack: Vec<AstNode> = Vec::new();
    let op0 = make_operation(pair);
    call_stack.push(op0);
    proof {
        assert(stack_view(call_stack@) =~= seq![new_frame(root)]);
        lemma_finish_new_frame(root, input@);
        assert(seq![new_frame(root)].last() == new_frame(root));
        assert(denote(stack_view(call_stack@), input@) == fold_node(root, input@));
    }
    while call_stack.len() > 0
        invariant
            call_stack@.len() > 0 ==> result_stack@.len() == 0 && denote(
                stack_view(call_stack@),
                input@,
            ) == fold_node(root, input@),
            call_stack@.len() == 0 ==> result_stack@.len() == 1 && Ok::<NodeV, ConvError>(
                node_view(result_stack@[0]),
            ) == fold_node(root, input@),
        decreases stack_measure(call_stack@),
    {
        let ghost stack0 = call_stack@;
        let mut current_operation = call_stack.pop().unwrap();
        let ghost below = call_stack@;
        let ghost f = frame_view(current_operation);
        proof {
            assert(stack0 =~= below.push(current_operation));
            assert(stack_view(stack0) =~= stack_view(below).push(f));
            lemma_weight_drop_last(stack0);
        }
        if current_operation.remaining_children.len() > 0 {
            let ghost pending0 = current_operation.remaining_children@;
            let child = current_operation.remaining_children.pop().unwrap();
            proof {
                lemma_denote_descend(stack_view(below), f, input@);
                lemma_forest_size_drop_last(pending0);
            }
            let ghost f2 = frame_view(current_operation);
            call_stack.push(current_operation);
            let child_op = make_operation(child);
            call_stack.push(child_op);
            proof {
                assert(f2 == FrameV { pending: f.pending.drop_last(), ..f });
                assert(stack_view(call_stack@) =~= stack_view(below).push(f2).push(
                    new_frame(f.pending.last()),
                ));
                assert(denote(stack_view(call_stack@), input@) == fold_node(root, input@));
                lemma_weight_push(below, call_stack@[call_stack@.len() - 2]);
                lemma_weight_push(below.push(call_stack@[call_stack@.len() - 2]), call_stack@.last());
                assert(call_stack@ =~= below.push(call_stack@[call_stack@.len() - 2]).push(
                    call_stack@.last(),
                ));
                lemma_forest_size_reverse(child.children@);
                assert(node_size(child) == 1 + forest_size(child.children@));
                assert(stack_measure(call_stack@) < stack_measure(stack0));
            }
        } else {
            let Operation {
                pair_rule_type,
                remaining_children,
                extracted_child_ast_nodes,
                string_representation,
            } = current_operation;
            let ghost done_nodes = extracted_child_ast_nodes@;
            let folded = fold_rule_exec(
                pair_rule_type,
                extracted_child_ast_nodes,
                string_representation,
                input,
            );
            proof {
                assert(f.pending.reverse() =~= Seq::<SyntaxNode>::empty());
                assert(fold_list(Seq::<SyntaxNode>::empty(), input@) == Ok::<
                    Seq<NodeV>,
                    ConvError,
                >(Seq::empty()));
                assert(f.done + Seq::<NodeV>::empty() =~= f.done);
                assert(finish_frame(f, input@) == fold_rule(f.rule, f.done, f.text, input@));
                assert(finish_frame(f, input@) == rv_node(folded));
            }
            match folded {
                Err(e) => {
                    proof {
                        assert(stack_view(stack0).last() == f);
                        assert(denote(stack_view(stack0), input@) == Err::<NodeV, ConvError>(e));
                    }
                    return Err(e);
                },
                Ok(node) => {
                    let ghost v = node_view(node);
                    proof {
                        assert(stack_view(stack0).last() == f);
                        assert(stack_view(stack0).drop_last() =~= stack_view(below));
                        assert(finish_frame(f, input@) == Ok::<NodeV, ConvError>(v));
                    }
                    add_to_parent(&mut call_stack, &mut result_stack, node);
                    proof {
                        if below.len() == 0 {
                            assert(denote(stack_view(stack0), input@) == Ok::<NodeV, ConvError>(v));
                        } else {
                            assert(denote(stack_view(stack0), input@) == denote_with(
                                stack_view(below),
                                v,
                                input@,
                            ));
                            assert(stack_view(below).update(
                                below.len() - 1,
                                push_done(stack_view(below).last(), v),
                            ) =~= stack_view(call_stack@));
                            assert(denote(stack_view(call_stack@), input@) == fold_node(
                                root,
                                input@,
                            ));
                            assert forall|i: int| 0 <= i < call_stack@.len() implies forest_size(
                                call_stack@[i].remaining_children@,
                            ) == forest_size(below[i].remaining_children@) by {}
                            lemma_weight_pointwise(call_stack@, below);
                            assert(stack_measure(call_stack@) < stack_measure(stack0));
                        }
                    }
                },
            }
        }
    }
    if result_stack.len() != 1 {
        return Err(ConvError::MalformedResult);
    }
    match result_stack.pop() {
        Some(v) => Ok(v),
        None => Err(ConvError::MalformedResult),
    }
}

proof fn lemma_weight_pointwise(s1: Seq<Operation>, s2: Seq<Operation>)
    requires
        s1.len() == s2.len(),
        forall|i: int|
            0 <= i < s1.len() ==> forest_size(#[trigger] s1[i].remaining_children@) == forest_size(
                s2[i].remaining_children@,
            ),
    ensures
        pending_weight(s1) == pending_weight(s2),
    decreases s1.len(),
{
    if s1.len() > 0 {
        assert(forest_size(s1[0].remaining_children@) == forest_size(s2[0].remaining_children@));
        assert forall|i: int|
            0 <= i < s1.drop_first().len() implies forest_size(
            #[trigger] s1.drop_first()[i].remaining_children@,
        ) == forest_size(s2.drop_first()[i].remaining_children@) by {
            assert(s1.drop_first()[i] == s1[i + 1]);
            assert(s2.drop_first()[i] == s2[i + 1]);
        }
        lemma_weight_pointwise(s1.drop_first(), s2.drop_first());
    }
}

// ---------------------------------------------------------------------------
// Rendering diagnostics, and the public entry points
// ---------------------------------------------------------------------------

/// The name of a node kind, for mismatch messages.
pub open spec fn kind_text(k: NodeKind) -> Seq<char> {
    match k {
        NodeKind::Contract => "contract"@,
        NodeKind::Value => "value"@,
        NodeKind::Observation => "observation"@,
        NodeKind::Action => "action"@,
        NodeKind::Party => "party"@,
        NodeKind::Payee => "payee"@,
        NodeKind::Token => "token"@,
        NodeKind::Timeout => "timeout"@,
        NodeKind::Case => "case"@,
        NodeKind::Bound => "bound"@,
        NodeKind::ChoiceId => "choice identifier"@,
        NodeKind::Text => "string"@,
        NodeKind::Number => "number"@,
        NodeKind::CaseList => "case list"@,
        NodeKind::BoundList => "bound list"@,
        NodeKind::Null => "hole"@,
    }
}

/// The message each conversion error carries to the caller.
pub open spec fn err_text(e: ConvError) -> Seq<char> {
    match e {
        ConvError::DuplicateParameterKey => "Input data cannot contain duplicate keys."@,
        ConvError::MissingChild(_) => "Failed to get the next node while folding a rule. This is likely a bug in the contract grammar or its folding table."@,
        ConvError::MissingText(r) => match r {
            Rule::StringLit => "failed to parse a string."@,
            Rule::Number => "Failed to parse a number!"@,
            Rule::TimeConstant => "failed to parse time constant"@,
            Rule::PubKey => "failed to parse pubkey"@,
            _ => "a leaf rule matched no source text"@,
        },
        ConvError::NumberFormat(r) => match r {
            Rule::TimeConstant => "failed to convert time constant value to i64."@,
            _ => "Failed to parse a number"@,
        },
        ConvError::TypeMismatch { expected, found } => "type mismatch while folding: expected a "@
            + kind_text(expected) + " but found a "@ + kind_text(found),
        ConvError::LetNameAbsent => "Failed to parse a 'let' contract node."@,
        ConvError::UnhandledRule(_) => "The rule is ready to be initialized but there is no match for it. This is most likely a bug in the contract parser."@,
        ConvError::MalformedResult => "the conversion did not end with exactly one root node"@,
    }
}

fn kind_name(k: NodeKind) -> (r: &'static str)
    ensures
        r@ == kind_text(k),
{
    match k {
        NodeKind::Contract => "contract",
        NodeKind::Value => "value",
        NodeKind::Observation => "observation",
        NodeKind::Action => "action",
        NodeKind::Party => "party",
        NodeKind::Payee => "payee",
        NodeKind::Token => "token",
        NodeKind::Timeout => "timeout",
        NodeKind::Case => "case",
        NodeKind::Bound => "bound",
        NodeKind::ChoiceId => "choice identifier",
        NodeKind::Text => "string",
        NodeKind::Number => "number",
        NodeKind::CaseList => "case list",
        NodeKind::BoundList => "bound list",
        NodeKind::Null => "hole",
    }
}

/// Renders a conversion error as the message the public entry points return.
pub fn err_string(e: &ConvError) -> (r: String)
    ensures
        r@ == err_text(*e),
{
    match e {
        ConvError::DuplicateParameterKey => String::from_str(
            "Input data cannot contain duplicate keys.",
        ),
        ConvError::MissingChild(_) => String::from_str(
            "Failed to get the next node while folding a rule. This is likely a bug in the contract grammar or its folding table.",
        ),
        ConvError::MissingText(r) => match r {
            Rule::StringLit => String::from_str("failed to parse a string."),
            Rule::Number => String::from_str("Failed to parse a number!"),
            Rule::TimeConstant => String::from_str("failed to parse time constant"),
            Rule::PubKey => String::from_str("failed to parse pubkey"),
            _ => String::from_str("a leaf rule matched no source text"),
        },
        ConvError::NumberFormat(r) => match r {
            Rule::TimeConstant => String::from_str("failed to convert time constant value to i64."),
            _ => String::from_str("Failed to parse a number"),
        },
        ConvError::TypeMismatch { expected, found } => {
            let mut out = String::from_str("type mismatch while folding: expected a ");
            out.append(kind_name(*expected));
            out.append(" but found a ");
            out.append(kind_name(*found));
            proof {
                assert(out@ =~= err_text(*e));
            }
            out
        },
        ConvError::LetNameAbsent => String::from_str("Failed to parse a 'let' contract node."),
        ConvError::UnhandledRule(_) => String::from_str(
            "The rule is ready to be initialized but there is no match for it. This is most likely a bug in the contract parser.",
        ),
        ConvError::MalformedResult => String::from_str(
            "the conversion did not end with exactly one root node",
        ),
    }
}

/// What converting a tree and asking for a contract yields: the folded root
/// when it is a contract node, and a message otherwise.
pub open spec fn deser_result(t: SyntaxNode, ps: Seq<(String, i64)>) -> Result<ContractV, Seq<char>> {
    match convert_spec(t, ps) {
        Ok(NodeV::Contract(c)) => Ok(c),
        Ok(_) => Err("the input did not fold to a contract node"@),
        Err(e) => Err(err_text(e)),
    }
}

/// `deser_result`, stated over the view of a tree.
pub open spec fn deser_result_v(t: SyntaxNodeV, ps: Seq<(String, i64)>) -> Result<
    ContractV,
    Seq<char>,
> {
    match convert_spec_v(t, ps) {
        Ok(NodeV::Contract(c)) => Ok(c),
        Ok(_) => Err("the input did not fold to a contract node"@),
        Err(e) => Err(err_text(e)),
    }
}

/// Converting a tree and asking for a contract is the same on the tree and
/// on its view.
pub proof fn lemma_deser_result_view(t: SyntaxNode, ps: Seq<(String, i64)>)
    ensures
        deser_result(t, ps) == deser_result_v(syntax_view(t), ps),
{
    lemma_fold_node_view(t, ps);
}

/// Converts a syntax tree into a typed contract document, resolving
/// parameters from `input`. Exactly `deser_result` at the view level.
pub fn parse_with_input(pair: SyntaxNode, input: &Vec<(String, i64)>) -> (r: Result<
    Contract,
    String,
>)
    ensures
        match (r, deser_result(pair, input@)) {
            (Ok(c), Ok(cv)) => crate::types::views::contract_view(c) == cv,
            (Err(m), Err(mv)) => m@ == mv,
            _ => false,
        },
{
    match parse_raw(pair, input) {
        Err(e) => Err(err_string(&e)),
        Ok(node) => {
            proof {
                crate::types::views::lemma_node_view_contract(node);
            }
            match node {
                AstNode::MarloweContract(c) => Ok(c),
                _ => Err(String::from_str("the input did not fold to a contract node")),
            }
        },
    }
}

/// One occurrence of a named timeout parameter is resolved inline: bound in
/// the table it folds to the literal constant, unbound it survives as a
/// named placeholder. Each occurrence is resolved independently against the
/// same immutable table.
pub proof fn lemma_time_param_substitution(t: SyntaxNode, ps: Seq<(String, i64)>)
    requires
        t.rule == Rule::TimeParam,
        t.children@.len() == 1,
        t.children@[0].rule == Rule::StringLit,
        t.children@[0].children@.len() == 0,
        !has_duplicate_keys(ps),
    ensures
        convert_spec(t, ps) == match lookup_param(ps, t.children@[0].text@) {
            Some(v) => Ok::<NodeV, ConvError>(
                NodeV::Timeout(crate::types::views::TimeoutV::TimeConstant(v)),
            ),
            None => Ok::<NodeV, ConvError>(
                NodeV::Timeout(crate::types::views::TimeoutV::TimeParam(t.children@[0].text@)),
            ),
        },
{
    let c = t.children@[0];
    assert(t.children@.drop_first() =~= Seq::<SyntaxNode>::empty());
    assert(c.children@.len() == 0);
    assert(fold_list(c.children@, ps) == Ok::<Seq<NodeV>, ConvError>(Seq::empty()));
    assert(leaf_text(c) == Some(c.text@));
    assert(fold_rule(Rule::StringLit, Seq::empty(), Some(c.text@), ps) == Ok::<NodeV, ConvError>(
        NodeV::Text(c.text@),
    ));
    assert(fold_node(c, ps) == Ok::<NodeV, ConvError>(NodeV::Text(c.text@)));
    assert(fold_list(Seq::<SyntaxNode>::empty(), ps) == Ok::<Seq<NodeV>, ConvError>(Seq::empty()));
    assert(fold_list(t.children@.drop_first(), ps) == Ok::<Seq<NodeV>, ConvError>(Seq::empty()));
    assert(t.children@[0] == c);
    assert(fold_list(t.children@, ps) == Ok::<Seq<NodeV>, ConvError>(
        seq![NodeV::Text(c.text@)] + Seq::<NodeV>::empty(),
    ));
    assert(seq![NodeV::Text(c.text@)] + Seq::<NodeV>::empty() =~= seq![NodeV::Text(c.text@)]);
    assert(child(seq![NodeV::Text(c.text@)], 0) == NodeV::Text(c.text@));
}

/// As `lemma_time_param_substitution`, for a named constant parameter in a
/// value position.
pub proof fn lemma_constant_param_substitution(t: SyntaxNode, ps: Seq<(String, i64)>)
    requires
        t.rule == Rule::ConstantParam,
        t.children@.len() == 1,
        t.children@[0].rule == Rule::StringLit,
        t.children@[0].children@.len() == 0,
        !has_duplicate_keys(ps),
    ensures
        convert_spec(t, ps) == match lookup_param(ps, t.children@[0].text@) {
            Some(v) => Ok::<NodeV, ConvError>(NodeV::Value(ValueV::ConstantValue(v))),
            None => Ok::<NodeV, ConvError>(
                NodeV::Value(ValueV::ConstantParam(t.children@[0].text@)),
            ),
        },
{
    let c = t.children@[0];
    assert(t.children@.drop_first() =~= Seq::<SyntaxNode>::empty());
    assert(c.children@.len() == 0);
    assert(fold_list(c.children@, ps) == Ok::<Seq<NodeV>, ConvError>(Seq::empty()));
    assert(leaf_text(c) == Some(c.text@));
    assert(fold_rule(Rule::StringLit, Seq::empty(), Some(c.text@), ps) == Ok::<NodeV, ConvError>(
        NodeV::Text(c.text@),
    ));
    assert(fold_node(c, ps) == Ok::<NodeV, ConvError>(NodeV::Text(c.text@)));
    assert(fold_list(Seq::<SyntaxNode>::empty(), ps) == Ok::<Seq<NodeV>, ConvError>(Seq::empty()));
    assert(fold_list(t.children@.drop_first(), ps) == Ok::<Seq<NodeV>, ConvError>(Seq::empty()));
    assert(t.children@[0] == c);
    assert(fold_list(t.children@, ps) == Ok::<Seq<NodeV>, ConvError>(
        seq![NodeV::Text(c.text@)] + Seq::<NodeV>::empty(),
    ));
    assert(seq![NodeV::Text(c.text@)] + Seq::<NodeV>::empty() =~= seq![NodeV::Text(c.text@)]);
    assert(child(seq![NodeV::Text(c.text@)], 0) == NodeV::Text(c.text@));
}

/// The message a failed parse carries to the caller.
pub open spec fn parse_err_text(pe: crate::parsing::parser::ParseErrorV) -> Seq<char> {
    "could not parse the contract text: expected "@ + pe.expected + " at position "@
        + crate::parsing::numbers::nat_text(pe.at as nat)
}

fn render_parse_error(pe: &crate::parsing::parser::ParseError) -> (r: String)
    ensures
        r@ == parse_err_text(crate::parsing::parser::err_view(*pe)),
{
    let mut out = String::from_str("could not parse the contract text: expected ");
    out.append(pe.expected);
    out.append(" at position ");
    crate::parsing::numbers::push_u64_text(&mut out, pe.at as u64);
    proof {
        assert(out@ =~= parse_err_text(crate::parsing::parser::err_view(*pe)));
    }
    out
}

/// Turns an optional value into a result, with the given message for the
/// absent case.
pub fn option_to_result<T>(maybe_ast_node: Option<T>, msg: &str) -> (r: Result<T, &str>)
    ensures
        match maybe_ast_node {
            Some(_) => r matches Ok(x) && maybe_ast_node == Some(x),
            None => r matches Err(m) && m@ == msg@,
        },
{
    match maybe_ast_node {
        Some(x) => Ok(x),
        None => Err(msg),
    }
}

/// Parses a string into a contract document. The parameter table defaults
/// to empty, so named parameters survive as placeholders.
pub fn deserialize(content: &str) -> (r: Result<Contract, String>)
    ensures
        match crate::parsing::parser::parse_text_spec(content@) {
            Ok(t) => match (r, deser_result_v(t, Seq::<(String, i64)>::empty())) {
                (Ok(c), Ok(cv)) => crate::types::views::contract_view(c) == cv,
                (Err(m), Err(mv)) => m@ == mv,
                _ => false,
            },
            Err(pe) => r matches Err(m) && m@ == parse_err_text(pe),
        },
{
    let input: Vec<(String, i64)> = Vec::new();
    proof {
        assert(input@ =~= Seq::<(String, i64)>::empty());
    }
    deserialize_with_input(content, input)
}

/// Parses a string into a contract document, resolving named constant and
/// timeout parameters from `input`.
///
/// The text is tokenized and parsed exactly as `parse_text_spec` describes;
/// an accepted text is then folded by `deser_result_v`, which resolves each
/// named parameter against the table and rejects a table with a duplicate
/// key before any traversal, whatever the text says.
pub fn deserialize_with_input(content: &str, input: Vec<(String, i64)>) -> (r: Result<
    Contract,
    String,
>)
    ensures
        has_duplicate_keys(input@) ==> r is Err,
        match crate::parsing::parser::parse_text_spec(content@) {
            Ok(t) => match (r, deser_result_v(t, input@)) {
                (Ok(c), Ok(cv)) => crate::types::views::contract_view(c) == cv,
                (Err(m), Err(mv)) => m@ == mv,
                _ => false,
            },
            Err(pe) => r matches Err(m) && m@ == parse_err_text(pe),
        },
{
    match crate::parsing::parser::parse_text(content) {
        Err(pe) => Err(render_parse_error(&pe)),
        Ok(root) => {
            let ghost tree = root;
            let r = parse_with_input(root, &input);
            proof {
                lemma_deser_result_view(tree, input@);
            }
            r
        },
    }
}

} // verus!
