//! The typed contract document and the intermediate tagged union used while
//! a syntax tree is folded into a document.
//!
//! Every sub-term field is nullable: a template contract may leave any
//! sub-term unresolved (a "hole"), and absence is a first-class value.

use vstd::prelude::*;

verus! {

/// A participant: a public-key hash or a named role.
#[derive(Debug, Clone, PartialEq, Eq)]
pub enum Party {
    PK { pk_hash: String },
    Role { role_token: String },
}

/// Where a payment goes: into a party's internal account, or out to a party.
#[derive(Debug, Clone, PartialEq, Eq)]
pub enum Payee {
    Account(Option<Party>),
    Party(Option<Party>),
}

/// A currency: the built-in one, or a custom asset.
#[derive(Debug, Clone, PartialEq, Eq)]
pub enum Token {
    ADA,
    Custom { currency_symbol: String, token_name: String },
}

/// An instant in time: a literal constant (milliseconds), or a named
/// parameter still to be resolved.
#[derive(Debug, Clone, PartialEq, Eq)]
pub enum Timeout {
    TimeConstant(i64),
    TimeParam(String),
}

/// An identifier for a choice made by a party.
#[derive(Debug, Clone, PartialEq, Eq)]
pub struct ChoiceId {
    pub choice_name: String,
    pub choice_owner: Option<Party>,
}

/// An inclusive integer range.
#[derive(Debug, Clone, PartialEq, Eq)]
pub struct Bound(pub i64, pub i64);

/// A recursive numeric expression.
#[derive(Debug, PartialEq, Eq)]
pub enum Value {
    AvailableMoney(Option<Party>, Option<Token>),
    ConstantValue(i64),
    ConstantParam(String),
    UseValue(String),
    AddValue(Option<Box<Value>>, Option<Box<Value>>),
    SubValue(Option<Box<Value>>, Option<Box<Value>>),
    MulValue(Option<Box<Value>>, Option<Box<Value>>),
    DivValue(Option<Box<Value>>, Option<Box<Value>>),
    NegValue(Option<Box<Value>>),
    ChoiceValue(Option<ChoiceId>),
    Cond(Option<Observation>, Option<Box<Value>>, Option<Box<Value>>),
    TimeIntervalStart,
    TimeIntervalEnd,
}

/// A recursive boolean expression.
#[derive(Debug, PartialEq, Eq)]
pub enum Observation {
    True,
    False,
    ValueGT { value: Option<Box<Value>>, gt_than: Option<Box<Value>> },
    ValueGE { value: Option<Box<Value>>, ge_than: Option<Box<Value>> },
    ValueLT { value: Option<Box<Value>>, lt_than: Option<Box<Value>> },
}

/// Something a party can do while a `When` contract waits.
#[derive(Debug, PartialEq, Eq)]
pub enum Action {
    Deposit {
        party: Option<Party>,
        into_account: Option<Party>,
        of_token: Option<Token>,
        deposits: Option<Value>,
    },
    Choice { for_choice: Option<ChoiceId>, choose_between: Vec<Option<Bound>> },
    Notify { notify_if: Option<Observation> },
}

/// One guarded continuation of a `When` contract.
#[derive(Debug, PartialEq, Eq)]
pub struct Case {
    pub case: Option<Action>,
    pub then: Option<Box<Contract>>,
}

/// The contract document itself.
#[derive(Debug, PartialEq, Eq)]
pub enum Contract {
    Close,
    Pay {
        from_account: Option<Party>,
        to: Option<Payee>,
        token: Option<Token>,
        pay: Option<Value>,
        then: Option<Box<Contract>>,
    },
    If {
        condition: Option<Observation>,
        then: Option<Box<Contract>>,
        otherwise: Option<Box<Contract>>,
    },
    When {
        when: Vec<Option<Case>>,
        timeout: Option<Timeout>,
        timeout_continuation: Option<Box<Contract>>,
    },
    Let { name: String, be: Option<Value>, then: Option<Box<Contract>> },
    Assert { assert: Option<Observation>, then: Option<Box<Contract>> },
}

impl Contract {
    /// Moves the contract onto the heap, for use in a recursive field.
    pub fn boxed(self) -> (r: Box<Contract>)
        ensures
            *r == self,
    {
        Box::new(self)
    }
}

/// The intermediate tagged union: wide enough to hold any partially or fully
/// built fragment of the document while a syntax tree is being folded.
/// `Null` is the explicit "absent" marker that every hole folds to.
#[derive(Debug, PartialEq, Eq)]
pub enum AstNode {
    MarloweContract(Contract),
    MarloweValue(Value),
    MarloweObservation(Observation),
    MarloweAction(Action),
    MarloweParty(Party),
    MarlowePayee(Payee),
    MarloweToken(Token),
    MarloweTimeout(Timeout),
    MarloweCase(Case),
    MarloweBound(Bound),
    MarloweChoiceId(ChoiceId),
    StringValue(String),
    MarloweNumber(i64),
    MarloweCaseList(Vec<AstNode>),
    MarloweBoundList(Vec<AstNode>),
    Null,
}

/// Holds when every continuation that `modify` unwraps is present.
pub open spec fn modify_ready(c: Contract) -> bool
    decreases c,
{
    match c {
        Contract::Close => true,
        Contract::When { .. } => true,
        Contract::If { then, otherwise, .. } => {
            &&& then is Some
            &&& otherwise is Some
            &&& modify_ready(*then->0)
            &&& modify_ready(*otherwise->0)
        },
        Contract::Assert { then, .. } => then is Some && modify_ready(*then->0),
        Contract::Let { then, .. } => then is Some && modify_ready(*then->0),
        Contract::Pay { then, .. } => then is Some && modify_ready(*then->0),
    }
}

/// Walks a contract and rebuilds it unchanged: a worked example of taking a
/// document apart and putting it back together node by node.
pub fn modify(contract: Contract) -> (r: Contract)
    requires
        modify_ready(contract),
    ensures
        r == contract,
    decreases contract,
{
    match contract {
        Contract::Close => Contract::Close,
        Contract::When { when: cases, timeout, timeout_continuation } => Contract::When {
            when: cases,
            timeout,
            timeout_continuation,
        },
        Contract::If { condition: observation, then: then_contract, otherwise: else_contract } => {
            Contract::If {
                condition: observation,
                then: Some(modify(*then_contract.unwrap()).boxed()),
                otherwise: Some(modify(*else_contract.unwrap()).boxed()),
            }
        },
        Contract::Assert { assert: a, then } => Contract::Assert {
            assert: a,
            then: Some(modify(*then.unwrap()).boxed()),
        },
        Contract::Let { name: let_x, be: be_value, then: continue_as } => Contract::Let {
            name: let_x,
            be: be_value,
            then: Some(Box::new(modify(*continue_as.unwrap()))),
        },
        Contract::Pay { from_account: party, to: payee, token: currency, pay: amount, then: continue_as } => {
            Contract::Pay {
                from_account: party,
                to: payee,
                token: currency,
                pay: amount,
                then: Some(modify(*continue_as.unwrap()).boxed()),
            }
        },
    }
}

} // verus!
