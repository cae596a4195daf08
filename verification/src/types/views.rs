//! Mathematical views of the document types: the same shapes expressed over
//! `Seq` and `Seq<char>`, so that contracts can speak about documents as
//! pure values. Every executable document type has a view function here.

use vstd::prelude::*;
use crate::types::marlowe::{
    Action, AstNode, Bound, Case, ChoiceId, Contract, Observation, Party, Payee, Timeout, Token,
    Value,
};

verus! {

pub enum PartyV {
    PK { pk_hash: Seq<char> },
    Role { role_token: Seq<char> },
}

pub enum PayeeV {
    Account(Option<PartyV>),
    Party(Option<PartyV>),
}

pub enum TokenV {
    ADA,
    Custom { currency_symbol: Seq<char>, token_name: Seq<char> },
}

pub enum TimeoutV {
    TimeConstant(i64),
    TimeParam(Seq<char>),
}

pub struct ChoiceIdV {
    pub choice_name: Seq<char>,
    pub choice_owner: Option<PartyV>,
}

pub struct BoundV(pub i64, pub i64);

pub enum ValueV {
    AvailableMoney(Option<PartyV>, Option<TokenV>),
    ConstantValue(i64),
    ConstantParam(Seq<char>),
    UseValue(Seq<char>),
    AddValue(Option<Box<ValueV>>, Option<Box<ValueV>>),
    SubValue(Option<Box<ValueV>>, Option<Box<ValueV>>),
    MulValue(Option<Box<ValueV>>, Option<Box<ValueV>>),
    DivValue(Option<Box<ValueV>>, Option<Box<ValueV>>),
    NegValue(Option<Box<ValueV>>),
    ChoiceValue(Option<ChoiceIdV>),
    Cond(Option<ObservationV>, Option<Box<ValueV>>, Option<Box<ValueV>>),
    TimeIntervalStart,
    TimeIntervalEnd,
}

pub enum ObservationV {
    True,
    False,
    ValueGT { value: Option<Box<ValueV>>, gt_than: Option<Box<ValueV>> },
    ValueGE { value: Option<Box<ValueV>>, ge_than: Option<Box<ValueV>> },
    ValueLT { value: Option<Box<ValueV>>, lt_than: Option<Box<ValueV>> },
}

pub enum ActionV {
    Deposit {
        party: Option<PartyV>,
        into_account: Option<PartyV>,
        of_token: Option<TokenV>,
        deposits: Option<ValueV>,
    },
    Choice { for_choice: Option<ChoiceIdV>, choose_between: Seq<Option<BoundV>> },
    Notify { notify_if: Option<ObservationV> },
}

pub struct CaseV {
    pub case: Option<ActionV>,
    pub then: Option<Box<ContractV>>,
}

pub enum ContractV {
    Close,
    Pay {
        from_account: Option<PartyV>,
        to: Option<PayeeV>,
        token: Option<TokenV>,
        pay: Option<ValueV>,
        then: Option<Box<ContractV>>,
    },
    If {
        condition: Option<ObservationV>,
        then: Option<Box<ContractV>>,
        otherwise: Option<Box<ContractV>>,
    },
    When {
        when: Seq<Option<CaseV>>,
        timeout: Option<TimeoutV>,
        timeout_continuation: Option<Box<ContractV>>,
    },
    Let { name: Seq<char>, be: Option<ValueV>, then: Option<Box<ContractV>> },
    Assert { assert: Option<ObservationV>, then: Option<Box<ContractV>> },
}

/// The view of the intermediate tagged union.
pub enum NodeV {
    Contract(ContractV),
    Value(ValueV),
    Observation(ObservationV),
    Action(ActionV),
    Party(PartyV),
    Payee(PayeeV),
    Token(TokenV),
    Timeout(TimeoutV),
    Case(CaseV),
    Bound(BoundV),
    ChoiceId(ChoiceIdV),
    Text(Seq<char>),
    Number(i64),
    CaseList(Seq<NodeV>),
    BoundList(Seq<NodeV>),
    Null,
}

pub open spec fn party_view(p: Party) -> PartyV {
    match p {
        Party::PK { pk_hash } => PartyV::PK { pk_hash: pk_hash@ },
        Party::Role { role_token } => PartyV::Role { role_token: role_token@ },
    }
}

pub open spec fn opt_party_view(p: Option<Party>) -> Option<PartyV> {
    match p {
        Some(x) => Some(party_view(x)),
        None => None,
    }
}

pub open spec fn payee_view(p: Payee) -> PayeeV {
    match p {
        Payee::Account(a) => PayeeV::Account(opt_party_view(a)),
        Payee::Party(a) => PayeeV::Party(opt_party_view(a)),
    }
}

pub open spec fn opt_payee_view(p: Option<Payee>) -> Option<PayeeV> {
    match p {
        Some(x) => Some(payee_view(x)),
        None => None,
    }
}

pub open spec fn token_view(t: Token) -> TokenV {
    match t {
        Token::ADA => TokenV::ADA,
        Token::Custom { currency_symbol, token_name } => TokenV::Custom {
            currency_symbol: currency_symbol@,
            token_name: token_name@,
        },
    }
}

pub open spec fn opt_token_view(t: Option<Token>) -> Option<TokenV> {
    match t {
        Some(x) => Some(token_view(x)),
        None => None,
    }
}

pub open spec fn timeout_view(t: Timeout) -> TimeoutV {
    match t {
        Timeout::TimeConstant(n) => TimeoutV::TimeConstant(n),
        Timeout::TimeParam(s) => TimeoutV::TimeParam(s@),
    }
}

pub open spec fn opt_timeout_view(t: Option<Timeout>) -> Option<TimeoutV> {
    match t {
        Some(x) => Some(timeout_view(x)),
        None => None,
    }
}

pub open spec fn choice_id_view(c: ChoiceId) -> ChoiceIdV {
    ChoiceIdV { choice_name: c.choice_name@, choice_owner: opt_party_view(c.choice_owner) }
}

pub open spec fn opt_choice_id_view(c: Option<ChoiceId>) -> Option<ChoiceIdV> {
    match c {
        Some(x) => Some(choice_id_view(x)),
        None => None,
    }
}

pub open spec fn bound_view(b: Bound) -> BoundV {
    BoundV(b.0, b.1)
}

pub open spec fn opt_bound_view(b: Option<Bound>) -> Option<BoundV> {
    match b {
        Some(x) => Some(bound_view(x)),
        None => None,
    }
}

pub open spec fn bounds_view(bs: Seq<Option<Bound>>) -> Seq<Option<BoundV>> {
    bs.map_values(|b: Option<Bound>| opt_bound_view(b))
}

pub open spec fn value_view(v: Value) -> ValueV
    decreases v,
{
    match v {
        Value::AvailableMoney(p, t) => ValueV::AvailableMoney(opt_party_view(p), opt_token_view(t)),
        Value::ConstantValue(n) => ValueV::ConstantValue(n),
        Value::ConstantParam(s) => ValueV::ConstantParam(s@),
        Value::UseValue(s) => ValueV::UseValue(s@),
        Value::AddValue(a, b) => ValueV::AddValue(opt_box_value_view(a), opt_box_value_view(b)),
        Value::SubValue(a, b) => ValueV::SubValue(opt_box_value_view(a), opt_box_value_view(b)),
        Value::MulValue(a, b) => ValueV::MulValue(opt_box_value_view(a), opt_box_value_view(b)),
        Value::DivValue(a, b) => ValueV::DivValue(opt_box_value_view(a), opt_box_value_view(b)),
        Value::NegValue(a) => ValueV::NegValue(opt_box_value_view(a)),
        Value::ChoiceValue(c) => ValueV::ChoiceValue(opt_choice_id_view(c)),
        Value::Cond(o, a, b) => ValueV::Cond(
            opt_observation_view(o),
            opt_box_value_view(a),
            opt_box_value_view(b),
        ),
        Value::TimeIntervalStart => ValueV::TimeIntervalStart,
        Value::TimeIntervalEnd => ValueV::TimeIntervalEnd,
    }
}

pub open spec fn opt_value_view(v: Option<Value>) -> Option<ValueV>
    decreases v,
{
    match v {
        Some(x) => Some(value_view(x)),
        None => None,
    }
}

pub open spec fn opt_box_value_view(v: Option<Box<Value>>) -> Option<Box<ValueV>>
    decreases v,
{
    match v {
        Some(b) => Some(Box::new(value_view(*b))),
        None => None,
    }
}

pub open spec fn observation_view(o: Observation) -> ObservationV
    decreases o,
{
    match o {
        Observation::True => ObservationV::True,
        Observation::False => ObservationV::False,
        Observation::ValueGT { value, gt_than } => ObservationV::ValueGT {
            value: opt_box_value_view(value),
            gt_than: opt_box_value_view(gt_than),
        },
        Observation::ValueGE { value, ge_than } => ObservationV::ValueGE {
            value: opt_box_value_view(value),
            ge_than: opt_box_value_view(ge_than),
        },
        Observation::ValueLT { value, lt_than } => ObservationV::ValueLT {
            value: opt_box_value_view(value),
            lt_than: opt_box_value_view(lt_than),
        },
    }
}

pub open spec fn opt_observation_view(o: Option<Observation>) -> Option<ObservationV>
    decreases o,
{
    match o {
        Some(x) => Some(observation_view(x)),
        None => None,
    }
}

pub open spec fn action_view(a: Action) -> ActionV
    decreases a,
{
    match a {
        Action::Deposit { party, into_account, of_token, deposits } => ActionV::Deposit {
            party: opt_party_view(party),
            into_account: opt_party_view(into_account),
            of_token: opt_token_view(of_token),
            deposits: opt_value_view(deposits),
        },
        Action::Choice { for_choice, choose_between } => ActionV::Choice {
            for_choice: opt_choice_id_view(for_choice),
            choose_between: bounds_view(choose_between@),
        },
        Action::Notify { notify_if } => ActionV::Notify { notify_if: opt_observation_view(notify_if) },
    }
}

pub open spec fn opt_action_view(a: Option<Action>) -> Option<ActionV>
    decreases a,
{
    match a {
        Some(x) => Some(action_view(x)),
        None => None,
    }
}

pub open spec fn case_view(c: Case) -> CaseV
    decreases c,
{
    match c {
        Case { case: a, then: t } => CaseV { case: opt_action_view(a), then: opt_box_contract_view(t) },
    }
}

pub open spec fn opt_case_view(c: Option<Case>) -> Option<CaseV>
    decreases c,
{
    match c {
        Some(x) => Some(case_view(x)),
        None => None,
    }
}

pub open spec fn cases_view(cs: Seq<Option<Case>>) -> Seq<Option<CaseV>>
    decreases cs,
{
    if cs.len() == 0 {
        Seq::empty()
    } else {
        seq![opt_case_view(cs[0])] + cases_view(cs.drop_first())
    }
}

pub open spec fn contract_view(c: Contract) -> ContractV
    decreases c,
{
    match c {
        Contract::Close => ContractV::Close,
        Contract::Pay { from_account, to, token, pay, then } => ContractV::Pay {
            from_account: opt_party_view(from_account),
            to: opt_payee_view(to),
            token: opt_token_view(token),
            pay: opt_value_view(pay),
            then: opt_box_contract_view(then),
        },
        Contract::If { condition, then, otherwise } => ContractV::If {
            condition: opt_observation_view(condition),
            then: opt_box_contract_view(then),
            otherwise: opt_box_contract_view(otherwise),
        },
        Contract::When { when, timeout, timeout_continuation } => ContractV::When {
            when: cases_view(when@),
            timeout: opt_timeout_view(timeout),
            timeout_continuation: opt_box_contract_view(timeout_continuation),
        },
        Contract::Let { name, be, then } => ContractV::Let {
            name: name@,
            be: opt_value_view(be),
            then: opt_box_contract_view(then),
        },
        Contract::Assert { assert, then } => ContractV::Assert {
            assert: opt_observation_view(assert),
            then: opt_box_contract_view(then),
        },
    }
}

pub open spec fn opt_box_contract_view(c: Option<Box<Contract>>) -> Option<Box<ContractV>>
    decreases c,
{
    match c {
        Some(b) => Some(Box::new(contract_view(*b))),
        None => None,
    }
}

pub open spec fn node_view(n: AstNode) -> NodeV
    decreases n,
{
    match n {
        AstNode::MarloweContract(c) => NodeV::Contract(contract_view(c)),
        AstNode::MarloweValue(v) => NodeV::Value(value_view(v)),
        AstNode::MarloweObservation(o) => NodeV::Observation(observation_view(o)),
        AstNode::MarloweAction(a) => NodeV::Action(action_view(a)),
        AstNode::MarloweParty(p) => NodeV::Party(party_view(p)),
        AstNode::MarlowePayee(p) => NodeV::Payee(payee_view(p)),
        AstNode::MarloweToken(t) => NodeV::Token(token_view(t)),
        AstNode::MarloweTimeout(t) => NodeV::Timeout(timeout_view(t)),
        AstNode::MarloweCase(c) => NodeV::Case(case_view(c)),
        AstNode::MarloweBound(b) => NodeV::Bound(bound_view(b)),
        AstNode::MarloweChoiceId(c) => NodeV::ChoiceId(choice_id_view(c)),
        AstNode::StringValue(s) => NodeV::Text(s@),
        AstNode::MarloweNumber(n) => NodeV::Number(n),
        AstNode::MarloweCaseList(xs) => NodeV::CaseList(nodes_view(xs@)),
        AstNode::MarloweBoundList(xs) => NodeV::BoundList(nodes_view(xs@)),
        AstNode::Null => NodeV::Null,
    }
}

pub open spec fn nodes_view(ns: Seq<AstNode>) -> Seq<NodeV>
    decreases ns,
{
    if ns.len() == 0 {
        Seq::empty()
    } else {
        seq![node_view(ns[0])] + nodes_view(ns.drop_first())
    }
}

/// Appending a node to a list appends its view.
pub proof fn lemma_nodes_view_push(ns: Seq<AstNode>, n: AstNode)
    ensures
        nodes_view(ns.push(n)) =~= nodes_view(ns).push(node_view(n)),
    decreases ns.len(),
{
    assert(nodes_view(ns.push(n))
        == seq![node_view(ns.push(n)[0])] + nodes_view(ns.push(n).drop_first()));
    if ns.len() == 0 {
        assert(ns.push(n)[0] == n);
        assert(ns.push(n).drop_first() =~= Seq::<AstNode>::empty());
    } else {
        assert(ns.push(n)[0] == ns[0]);
        assert(ns.push(n).drop_first() =~= ns.drop_first().push(n));
        assert(nodes_view(ns) == seq![node_view(ns[0])] + nodes_view(ns.drop_first()));
        lemma_nodes_view_push(ns.drop_first(), n);
    }
}

/// Appending a case to a case list appends its view.
pub proof fn lemma_cases_view_push(cs: Seq<Option<Case>>, c: Option<Case>)
    ensures
        cases_view(cs.push(c)) =~= cases_view(cs).push(opt_case_view(c)),
    decreases cs.len(),
{
    assert(cases_view(cs.push(c))
        == seq![opt_case_view(cs.push(c)[0])] + cases_view(cs.push(c).drop_first()));
    if cs.len() == 0 {
        assert(cs.push(c)[0] == c);
        assert(cs.push(c).drop_first() =~= Seq::<Option<Case>>::empty());
    } else {
        assert(cs.push(c)[0] == cs[0]);
        assert(cs.push(c).drop_first() =~= cs.drop_first().push(c));
        assert(cases_view(cs) == seq![opt_case_view(cs[0])] + cases_view(cs.drop_first()));
        lemma_cases_view_push(cs.drop_first(), c);
    }
}

/// Lengths and elements of a node-list view.
pub proof fn lemma_nodes_view_props(ns: Seq<AstNode>)
    ensures
        nodes_view(ns).len() == ns.len(),
        forall|i: int| 0 <= i < ns.len() ==> nodes_view(ns)[i] == node_view(ns[i]),
    decreases ns.len(),
{
    if ns.len() > 0 {
        lemma_nodes_view_props(ns.drop_first());
        assert(nodes_view(ns) == seq![node_view(ns[0])] + nodes_view(ns.drop_first()));
        assert forall|i: int| 0 <= i < ns.len() implies nodes_view(ns)[i] == node_view(ns[i]) by {
            if i > 0 {
                assert(nodes_view(ns)[i] == nodes_view(ns.drop_first())[i - 1]);
                assert(ns.drop_first()[i - 1] == ns[i]);
            }
        }
    }
}

/// A node views to a contract exactly when it is the contract variant of
/// the intermediate union.
pub proof fn lemma_node_view_contract(n: AstNode)
    ensures
        (node_view(n) is Contract) <==> (n is MarloweContract),
{
    match n {
        AstNode::MarloweContract(_) => {},
        AstNode::MarloweValue(_) => {},
        AstNode::MarloweObservation(_) => {},
        AstNode::MarloweAction(_) => {},
        AstNode::MarloweParty(_) => {},
        AstNode::MarlowePayee(_) => {},
        AstNode::MarloweToken(_) => {},
        AstNode::MarloweTimeout(_) => {},
        AstNode::MarloweCase(_) => {},
        AstNode::MarloweBound(_) => {},
        AstNode::MarloweChoiceId(_) => {},
        AstNode::StringValue(_) => {},
        AstNode::MarloweNumber(_) => {},
        AstNode::MarloweCaseList(_) => {},
        AstNode::MarloweBoundList(_) => {},
        AstNode::Null => {},
    }
}

} // verus!
