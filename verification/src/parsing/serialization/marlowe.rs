//! The native-text serializer: a document back to the surface syntax the
//! grammar accepts. Unresolved parameters are welcome here — they come out
//! as `(ConstantParam "...")` and `(TimeParam "...")` — and every absent
//! sub-term comes out as a typed hole.

use vstd::prelude::*;
use crate::types::marlowe::{
    Action, Bound, Case, ChoiceId, Contract, Observation, Party, Payee, Timeout, Token, Value,
};
use crate::parsing::numbers::{i64_text, push_i64_text};

verus! {

pub open spec fn party_text(p: Party) -> Seq<char> {
    match p {
        Party::PK { pk_hash } => "PK \""@ + pk_hash@ + "\""@,
        Party::Role { role_token } => "Role \""@ + role_token@ + "\""@,
    }
}

pub open spec fn party_arg_text(p: Option<Party>) -> Seq<char> {
    match p {
        None => "?party"@,
        Some(x) => "("@ + party_text(x) + ")"@,
    }
}

pub open spec fn payee_arg_text(p: Option<Payee>) -> Seq<char> {
    match p {
        None => "?payee"@,
        Some(Payee::Account(a)) => "(Account "@ + party_arg_text(a) + ")"@,
        Some(Payee::Party(a)) => "(Party "@ + party_arg_text(a) + ")"@,
    }
}

pub open spec fn token_arg_text(t: Option<Token>) -> Seq<char> {
    match t {
        None => "?token"@,
        Some(Token::ADA) => "(Token \"\" \"\")"@,
        Some(Token::Custom { currency_symbol, token_name }) => "(Token \""@ + currency_symbol@
            + "\" \""@ + token_name@ + "\")"@,
    }
}

pub open spec fn timeout_arg_text(t: Option<Timeout>) -> Seq<char> {
    match t {
        None => "?timeout"@,
        Some(Timeout::TimeConstant(n)) => i64_text(n),
        Some(Timeout::TimeParam(s)) => "(TimeParam \""@ + s@ + "\")"@,
    }
}

pub open spec fn choice_id_arg_text(c: Option<ChoiceId>) -> Seq<char> {
    match c {
        None => "?choiceId"@,
        Some(cid) => "(ChoiceId \""@ + cid.choice_name@ + "\" "@ + party_arg_text(
            cid.choice_owner,
        ) + ")"@,
    }
}

pub open spec fn bound_elem_text(b: Option<Bound>) -> Seq<char> {
    match b {
        None => "?bound"@,
        Some(Bound(lo, hi)) => "(Bound "@ + i64_text(lo) + " "@ + i64_text(hi) + ")"@,
    }
}

pub open spec fn bounds_join_text(bs: Seq<Option<Bound>>) -> Seq<char>
    decreases bs.len(),
{
    if bs.len() == 0 {
        Seq::empty()
    } else if bs.len() == 1 {
        bound_elem_text(bs[0])
    } else {
        bound_elem_text(bs[0]) + ", "@ + bounds_join_text(bs.drop_first())
    }
}

pub open spec fn bounds_list_text(bs: Seq<Option<Bound>>) -> Seq<char> {
    if bs.len() == 0 {
        "[]"@
    } else {
        "[ "@ + bounds_join_text(bs) + " ]"@
    }
}

pub open spec fn value_text(v: Value) -> Seq<char>
    decreases v, 0int,
{
    match v {
        Value::AvailableMoney(p, t) => "AvailableMoney "@ + party_arg_text(p) + " "@
            + token_arg_text(t),
        Value::ConstantValue(n) => "Constant "@ + i64_text(n),
        Value::ConstantParam(s) => "ConstantParam \""@ + s@ + "\""@,
        Value::UseValue(s) => "UseValue \""@ + s@ + "\""@,
        Value::AddValue(a, b) => "AddValue "@ + value_box_arg_text(a) + " "@ + value_box_arg_text(b),
        Value::SubValue(a, b) => "SubValue "@ + value_box_arg_text(a) + " "@ + value_box_arg_text(b),
        Value::MulValue(a, b) => "MulValue "@ + value_box_arg_text(a) + " "@ + value_box_arg_text(b),
        Value::DivValue(a, b) => "DivValue "@ + value_box_arg_text(a) + " "@ + value_box_arg_text(b),
        Value::NegValue(a) => "NegValue "@ + value_box_arg_text(a),
        Value::ChoiceValue(c) => "ChoiceValue "@ + choice_id_arg_text(c),
        Value::Cond(o, a, b) => "Cond "@ + obs_arg_text(o) + " "@ + value_box_arg_text(a) + " "@
            + value_box_arg_text(b),
        Value::TimeIntervalStart => "TimeIntervalStart"@,
        Value::TimeIntervalEnd => "TimeIntervalEnd"@,
    }
}

/// A value at an argument position: interval atoms stay bare, anything else
/// is parenthesized.
pub open spec fn value_wrapped_text(v: Value) -> Seq<char>
    decreases v, 1int,
{
    match v {
        Value::TimeIntervalStart => "TimeIntervalStart"@,
        Value::TimeIntervalEnd => "TimeIntervalEnd"@,
        _ => "("@ + value_text(v) + ")"@,
    }
}

pub open spec fn value_arg_text(v: Option<Value>) -> Seq<char>
    decreases v, 2int,
{
    match v {
        None => "?value"@,
        Some(x) => value_wrapped_text(x),
    }
}

pub open spec fn value_box_arg_text(v: Option<Box<Value>>) -> Seq<char>
    decreases v, 2int,
{
    match v {
        None => "?value"@,
        Some(b) => value_wrapped_text(*b),
    }
}

pub open spec fn obs_arg_text(o: Option<Observation>) -> Seq<char>
    decreases o, 3int,
{
    match o {
        None => "?observation"@,
        Some(Observation::True) => "TrueObs"@,
        Some(Observation::False) => "FalseObs"@,
        Some(Observation::ValueGT { value, gt_than }) => "(ValueGT "@ + value_box_arg_text(value)
            + " "@ + value_box_arg_text(gt_than) + ")"@,
        Some(Observation::ValueGE { value, ge_than }) => "(ValueGE "@ + value_box_arg_text(value)
            + " "@ + value_box_arg_text(ge_than) + ")"@,
        Some(Observation::ValueLT { value, lt_than }) => "(ValueLT "@ + value_box_arg_text(value)
            + " "@ + value_box_arg_text(lt_than) + ")"@,
    }
}

pub open spec fn action_arg_text(a: Option<Action>) -> Seq<char>
    decreases a, 4int,
{
    match a {
        None => "?action"@,
        Some(Action::Deposit { party, into_account, of_token, deposits }) => "(Deposit "@
            + party_arg_text(into_account) + " "@ + party_arg_text(party) + " "@ + token_arg_text(
            of_token,
        ) + " "@ + value_arg_text(deposits) + ")"@,
        Some(Action::Choice { for_choice, choose_between }) => "(Choice "@ + choice_id_arg_text(
            for_choice,
        ) + " "@ + bounds_list_text(choose_between@) + ")"@,
        Some(Action::Notify { notify_if }) => "(Notify "@ + obs_arg_text(notify_if) + ")"@,
    }
}

pub open spec fn case_elem_text(c: Option<Case>) -> Seq<char>
    decreases c, 5int,
{
    match c {
        None => "?case"@,
        Some(Case { case: a, then: t }) => "(Case "@ + action_arg_text(a) + " "@
            + contract_arg_text(t) + ")"@,
    }
}

pub open spec fn cases_join_text(cs: Seq<Option<Case>>) -> Seq<char>
    decreases cs, 0int,
{
    if cs.len() == 0 {
        Seq::empty()
    } else if cs.len() == 1 {
        case_elem_text(cs[0])
    } else {
        case_elem_text(cs[0]) + ", "@ + cases_join_text(cs.drop_first())
    }
}

pub open spec fn cases_list_text(cs: Seq<Option<Case>>) -> Seq<char>
    decreases cs, 1int,
{
    if cs.len() == 0 {
        "[]"@
    } else {
        "[ "@ + cases_join_text(cs) + " ]"@
    }
}

/// The native text of a whole document.
pub open spec fn contract_text(c: Contract) -> Seq<char>
    decreases c, 6int,
{
    match c {
        Contract::Close => "Close"@,
        Contract::Pay { from_account, to, token, pay, then } => "Pay "@ + party_arg_text(
            from_account,
        ) + " "@ + payee_arg_text(to) + " "@ + token_arg_text(token) + " "@ + value_arg_text(pay)
            + " "@ + contract_arg_text(then),
        Contract::If { condition, then, otherwise } => "If "@ + obs_arg_text(condition) + " "@
            + contract_arg_text(then) + " "@ + contract_arg_text(otherwise),
        Contract::When { when, timeout, timeout_continuation } => "When "@ + cases_list_text(when@)
            + " "@ + timeout_arg_text(timeout) + " "@ + contract_arg_text(timeout_continuation),
        Contract::Let { name, be, then } => "Let \""@ + name@ + "\" "@ + value_arg_text(be) + " "@
            + contract_arg_text(then),
        Contract::Assert { assert: a, then } => "Assert "@ + obs_arg_text(a) + " "@
            + contract_arg_text(then),
    }
}

/// A contract at an argument position: `Close` and holes stay bare,
/// composites are parenthesized.
pub open spec fn contract_arg_text(c: Option<Box<Contract>>) -> Seq<char>
    decreases c, 7int,
{
    match c {
        None => "?contract"@,
        Some(b) => if *b is Close {
            "Close"@
        } else {
            "("@ + contract_text(*b) + ")"@
        },
    }
}

fn write_party_arg(out: &mut String, p: &Option<Party>)
    ensures
        final(out)@ == old(out)@ + party_arg_text(*p),
{
    match p {
        None => out.append("?party"),
        Some(Party::PK { pk_hash }) => {
            out.append("(");
            out.append("PK \"");
            out.append(pk_hash.as_str());
            out.append("\"");
            out.append(")");
            proof {
                assert(out@ =~= old(out)@ + party_arg_text(*p));
            }
        },
        Some(Party::Role { role_token }) => {
            out.append("(");
            out.append("Role \"");
            out.append(role_token.as_str());
            out.append("\"");
            out.append(")");
            proof {
                assert(out@ =~= old(out)@ + party_arg_text(*p));
            }
        },
    }
}

fn write_payee_arg(out: &mut String, p: &Option<Payee>)
    ensures
        final(out)@ == old(out)@ + payee_arg_text(*p),
{
    match p {
        None => out.append("?payee"),
        Some(Payee::Account(a)) => {
            out.append("(Account ");
            write_party_arg(out, a);
            out.append(")");
            proof {
                assert(out@ =~= old(out)@ + payee_arg_text(*p));
            }
        },
        Some(Payee::Party(a)) => {
            out.append("(Party ");
            write_party_arg(out, a);
            out.append(")");
            proof {
                assert(out@ =~= old(out)@ + payee_arg_text(*p));
            }
        },
    }
}

fn write_token_arg(out: &mut String, t: &Option<Token>)
    ensures
        final(out)@ == old(out)@ + token_arg_text(*t),
{
    match t {
        None => out.append("?token"),
        Some(Token::ADA) => out.append("(Token \"\" \"\")"),
        Some(Token::Custom { currency_symbol, token_name }) => {
            out.append("(Token \"");
            out.append(currency_symbol.as_str());
            out.append("\" \"");
            out.append(token_name.as_str());
            out.append("\")");
            proof {
                assert(out@ =~= old(out)@ + token_arg_text(*t));
            }
        },
    }
}

fn write_timeout_arg(out: &mut String, t: &Option<Timeout>)
    ensures
        final(out)@ == old(out)@ + timeout_arg_text(*t),
{
    match t {
        None => out.append("?timeout"),
        Some(Timeout::TimeConstant(n)) => push_i64_text(out, *n),
        Some(Timeout::TimeParam(s)) => {
            out.append("(TimeParam \"");
            out.append(s.as_str());
            out.append("\")");
            proof {
                assert(out@ =~= old(out)@ + timeout_arg_text(*t));
            }
        },
    }
}

fn write_choice_id_arg(out: &mut String, c: &Option<ChoiceId>)
    ensures
        final(out)@ == old(out)@ + choice_id_arg_text(*c),
{
    match c {
        None => out.append("?choiceId"),
        Some(cid) => {
            out.append("(ChoiceId \"");
            out.append(cid.choice_name.as_str());
            out.append("\" ");
            write_party_arg(out, &cid.choice_owner);
            out.append(")");
            proof {
                assert(out@ =~= old(out)@ + choice_id_arg_text(*c));
            }
        },
    }
}

fn write_bound_elem(out: &mut String, b: &Option<Bound>)
    ensures
        final(out)@ == old(out)@ + bound_elem_text(*b),
{
    match b {
        None => out.append("?bound"),
        Some(Bound(lo, hi)) => {
            out.append("(Bound ");
            push_i64_text(out, *lo);
            out.append(" ");
            push_i64_text(out, *hi);
            out.append(")");
            proof {
                assert(out@ =~= old(out)@ + bound_elem_text(*b));
            }
        },
    }
}

fn write_bounds_join(out: &mut String, bs: &Vec<Option<Bound>>, i: usize)
    requires
        i <= bs@.len(),
    ensures
        final(out)@ == old(out)@ + bounds_join_text(bs@.skip(i as int)),
    decreases bs@.len() - i,
{
    if i < bs.len() {
        write_bound_elem(out, &bs[i]);
        proof {
            assert(bs@.skip(i as int)[0] == bs@[i as int]);
            assert(bs@.skip(i as int).drop_first() =~= bs@.skip(i as int + 1));
        }
        if i + 1 < bs.len() {
            out.append(", ");
            write_bounds_join(out, bs, i + 1);
            proof {
                assert(out@ =~= old(out)@ + bounds_join_text(bs@.skip(i as int)));
            }
        }
    }
}

fn write_bounds_list(out: &mut String, bs: &Vec<Option<Bound>>)
    ensures
        final(out)@ == old(out)@ + bounds_list_text(bs@),
{
    if bs.len() == 0 {
        out.append("[]");
    } else {
        out.append("[ ");
        proof {
            assert(bs@.skip(0) =~= bs@);
        }
        write_bounds_join(out, bs, 0);
        out.append(" ]");
        proof {
            assert(out@ =~= old(out)@ + bounds_list_text(bs@));
        }
    }
}

fn write_value_arg(out: &mut String, v: &Option<Value>)
    ensures
        final(out)@ == old(out)@ + value_arg_text(*v),
    decreases *v, 2int,
{
    match v {
        None => out.append("?value"),
        Some(x) => write_value_wrapped(out, x),
    }
}

fn write_value_box_arg(out: &mut String, v: &Option<Box<Value>>)
    ensures
        final(out)@ == old(out)@ + value_box_arg_text(*v),
    decreases *v, 2int,
{
    match v {
        None => out.append("?value"),
        Some(b) => write_value_wrapped(out, b),
    }
}

fn write_value_wrapped(out: &mut String, v: &Value)
    ensures
        final(out)@ == old(out)@ + value_wrapped_text(*v),
    decreases *v, 1int,
{
    match v {
        Value::TimeIntervalStart => out.append("TimeIntervalStart"),
        Value::TimeIntervalEnd => out.append("TimeIntervalEnd"),
        _ => {
            out.append("(");
            write_value(out, v);
            out.append(")");
            proof {
                assert(out@ =~= old(out)@ + value_wrapped_text(*v));
            }
        },
    }
}

#[verifier::rlimit(100)]
#[verifier::spinoff_prover]
fn write_value(out: &mut String, v: &Value)
    ensures
        final(out)@ == old(out)@ + value_text(*v),
    decreases *v, 0int,
{
    match v {
        Value::AvailableMoney(p, t) => {
            out.append("AvailableMoney ");
            write_party_arg(out, p);
            out.append(" ");
            write_token_arg(out, t);
            proof {
                assert(out@ =~= old(out)@ + value_text(*v));
            }
        },
        Value::ConstantValue(n) => {
            out.append("Constant ");
            push_i64_text(out, *n);
            proof {
                assert(out@ =~= old(out)@ + value_text(*v));
            }
        },
        Value::ConstantParam(s) => {
            out.append("ConstantParam \"");
            out.append(s.as_str());
            out.append("\"");
            proof {
                assert(out@ =~= old(out)@ + value_text(*v));
            }
        },
        Value::UseValue(s) => {
            out.append("UseValue \"");
            out.append(s.as_str());
            out.append("\"");
            proof {
                assert(out@ =~= old(out)@ + value_text(*v));
            }
        },
        Value::AddValue(a, b) => {
            out.append("AddValue ");
            write_value_box_arg(out, a);
            out.append(" ");
            write_value_box_arg(out, b);
            proof {
                assert(out@ =~= old(out)@ + value_text(*v));
            }
        },
        Value::SubValue(a, b) => {
            out.append("SubValue ");
            write_value_box_arg(out, a);
            out.append(" ");
            write_value_box_arg(out, b);
            proof {
                assert(out@ =~= old(out)@ + value_text(*v));
            }
        },
        Value::MulValue(a, b) => {
            out.append("MulValue ");
            write_value_box_arg(out, a);
            out.append(" ");
            write_value_box_arg(out, b);
            proof {
                assert(out@ =~= old(out)@ + value_text(*v));
            }
        },
        Value::DivValue(a, b) => {
            out.append("DivValue ");
            write_value_box_arg(out, a);
            out.append(" ");
            write_value_box_arg(out, b);
            proof {
                assert(out@ =~= old(out)@ + value_text(*v));
            }
        },
        Value::NegValue(a) => {
            out.append("NegValue ");
            write_value_box_arg(out, a);
            proof {
                assert(out@ =~= old(out)@ + value_text(*v));
            }
        },
        Value::ChoiceValue(c) => {
            out.append("ChoiceValue ");
            write_choice_id_arg(out, c);
            proof {
                assert(out@ =~= old(out)@ + value_text(*v));
            }
        },
        Value::Cond(o, a, b) => {
            out.append("Cond ");
            write_obs_arg(out, o);
            out.append(" ");
            write_value_box_arg(out, a);
            out.append(" ");
            write_value_box_arg(out, b);
            proof {
                assert(out@ =~= old(out)@ + value_text(*v));
            }
        },
        Value::TimeIntervalStart => out.append("TimeIntervalStart"),
        Value::TimeIntervalEnd => out.append("TimeIntervalEnd"),
    }
}

fn write_obs_arg(out: &mut String, o: &Option<Observation>)
    ensures
        final(out)@ == old(out)@ + obs_arg_text(*o),
    decreases *o, 3int,
{
    match o {
        None => out.append("?observation"),
        Some(Observation::True) => out.append("TrueObs"),
        Some(Observation::False) => out.append("FalseObs"),
        Some(Observation::ValueGT { value, gt_than }) => {
            out.append("(ValueGT ");
            write_value_box_arg(out, value);
            out.append(" ");
            write_value_box_arg(out, gt_than);
            out.append(")");
            proof {
                assert(out@ =~= old(out)@ + obs_arg_text(*o));
            }
        },
        Some(Observation::ValueGE { value, ge_than }) => {
            out.append("(ValueGE ");
            write_value_box_arg(out, value);
            out.append(" ");
            write_value_box_arg(out, ge_than);
            out.append(")");
            proof {
                assert(out@ =~= old(out)@ + obs_arg_text(*o));
            }
        },
        Some(Observation::ValueLT { value, lt_than }) => {
            out.append("(ValueLT ");
            write_value_box_arg(out, value);
            out.append(" ");
            write_value_box_arg(out, lt_than);
            out.append(")");
            proof {
                assert(out@ =~= old(out)@ + obs_arg_text(*o));
            }
        },
    }
}

fn write_action_arg(out: &mut String, a: &Option<Action>)
    ensures
        final(out)@ == old(out)@ + action_arg_text(*a),
{
    match a {
        None => out.append("?action"),
        Some(Action::Deposit { party, into_account, of_token, deposits }) => {
            out.append("(Deposit ");
            write_party_arg(out, into_account);
            out.append(" ");
            write_party_arg(out, party);
            out.append(" ");
            write_token_arg(out, of_token);
            out.append(" ");
            write_value_arg(out, deposits);
            out.append(")");
            proof {
                assert(out@ =~= old(out)@ + action_arg_text(*a));
            }
        },
        Some(Action::Choice { for_choice, choose_between }) => {
            out.append("(Choice ");
            write_choice_id_arg(out, for_choice);
            out.append(" ");
            write_bounds_list(out, choose_between);
            out.append(")");
            proof {
                assert(out@ =~= old(out)@ + action_arg_text(*a));
            }
        },
        Some(Action::Notify { notify_if }) => {
            out.append("(Notify ");
            write_obs_arg(out, notify_if);
            out.append(")");
            proof {
                assert(out@ =~= old(out)@ + action_arg_text(*a));
            }
        },
    }
}

fn write_case_elem(out: &mut String, c: &Option<Case>)
    ensures
        final(out)@ == old(out)@ + case_elem_text(*c),
    decreases *c, 0int,
{
    match c {
        None => out.append("?case"),
        Some(Case { case: a, then: t }) => {
            out.append("(Case ");
            write_action_arg(out, a);
            out.append(" ");
            write_contract_arg(out, t);
            out.append(")");
            proof {
                assert(out@ =~= old(out)@ + case_elem_text(*c));
            }
        },
    }
}

fn write_cases_join(out: &mut String, cs: &Vec<Option<Case>>, i: usize)
    requires
        i <= cs@.len(),
    ensures
        final(out)@ == old(out)@ + cases_join_text(cs@.skip(i as int)),
    decreases *cs, cs@.len() - i,
{
    if i < cs.len() {
        write_case_elem(out, &cs[i]);
        proof {
            assert(cs@.skip(i as int)[0] == cs@[i as int]);
            assert(cs@.skip(i as int).drop_first() =~= cs@.skip(i as int + 1));
        }
        if i + 1 < cs.len() {
            out.append(", ");
            write_cases_join(out, cs, i + 1);
            proof {
                assert(out@ =~= old(out)@ + cases_join_text(cs@.skip(i as int)));
            }
        }
    }
}

fn write_contract_arg(out: &mut String, c: &Option<Box<Contract>>)
    ensures
        final(out)@ == old(out)@ + contract_arg_text(*c),
    decreases *c, 1int,
{
    match c {
        None => out.append("?contract"),
        Some(b) => {
            let is_close = match &**b {
                Contract::Close => true,
                _ => false,
            };
            if is_close {
                out.append("Close");
            } else {
                out.append("(");
                write_contract(out, b);
                out.append(")");
                proof {
                    assert(out@ =~= old(out)@ + contract_arg_text(*c));
                }
            }
        },
    }
}

#[verifier::rlimit(100)]
#[verifier::spinoff_prover]
fn write_contract(out: &mut String, c: &Contract)
    ensures
        final(out)@ == old(out)@ + contract_text(*c),
    decreases *c, 0int,
{
    match c {
        Contract::Close => out.append("Close"),
        Contract::Pay { from_account, to, token, pay, then } => {
            out.append("Pay ");
            write_party_arg(out, from_account);
            out.append(" ");
            write_payee_arg(out, to);
            out.append(" ");
            write_token_arg(out, token);
            out.append(" ");
            write_value_arg(out, pay);
            out.append(" ");
            write_contract_arg(out, then);
            proof {
                assert(out@ =~= old(out)@ + contract_text(*c));
            }
        },
        Contract::If { condition, then, otherwise } => {
            out.append("If ");
            write_obs_arg(out, condition);
            out.append(" ");
            write_contract_arg(out, then);
            out.append(" ");
            write_contract_arg(out, otherwise);
            proof {
                assert(out@ =~= old(out)@ + contract_text(*c));
            }
        },
        Contract::When { when, timeout, timeout_continuation } => {
            out.append("When ");
            if when.len() == 0 {
                out.append("[]");
            } else {
                out.append("[ ");
                proof {
                    assert(when@.skip(0) =~= when@);
                }
                write_cases_join(out, when, 0);
                out.append(" ]");
            }
            out.append(" ");
            write_timeout_arg(out, timeout);
            out.append(" ");
            write_contract_arg(out, timeout_continuation);
            proof {
                assert(out@ =~= old(out)@ + contract_text(*c));
            }
        },
        Contract::Let { name, be, then } => {
            out.append("Let \"");
            out.append(name.as_str());
            out.append("\" ");
            write_value_arg(out, be);
            out.append(" ");
            write_contract_arg(out, then);
            proof {
                assert(out@ =~= old(out)@ + contract_text(*c));
            }
        },
        Contract::Assert { assert: a, then } => {
            out.append("Assert ");
            write_obs_arg(out, a);
            out.append(" ");
            write_contract_arg(out, then);
            proof {
                assert(out@ =~= old(out)@ + contract_text(*c));
            }
        },
    }
}

/// Serializes a document to its native text, exactly as `contract_text`
/// describes it. Unresolved parameters and holes serialize losslessly.
pub fn serialize(contract: Contract) -> (r: String)
    ensures
        r@ == contract_text(contract),
{
    let mut out = String::new();
    write_contract(&mut out, &contract);
    out
}

} // verus!
