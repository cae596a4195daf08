//! The JSON serializer. A document that still carries an unresolved named
//! constant or timeout parameter cannot be exported: the export fails with a
//! distinct error naming the parameter, and succeeds exactly when no such
//! parameter is left anywhere in the document.

use vstd::prelude::*;
use crate::types::marlowe::{
    Action, Bound, Case, ChoiceId, Contract, Observation, Party, Payee, Timeout, Token, Value,
};
use crate::parsing::numbers::{i64_text, push_i64_text};

verus! {

/// The error that gates the export: the name of an unresolved parameter.
#[derive(Debug, PartialEq, Eq)]
pub struct JsonError {
    pub parameter: String,
}

// ---------------------------------------------------------------------------
// Where unresolved parameters can hide
// ---------------------------------------------------------------------------

pub open spec fn value_has_params(v: Value) -> bool
    decreases v,
{
    match v {
        Value::ConstantParam(_) => true,
        Value::AvailableMoney(_, _) => false,
        Value::ConstantValue(_) => false,
        Value::UseValue(_) => false,
        Value::AddValue(a, b) => obv_has_params(a) || obv_has_params(b),
        Value::SubValue(a, b) => obv_has_params(a) || obv_has_params(b),
        Value::MulValue(a, b) => obv_has_params(a) || obv_has_params(b),
        Value::DivValue(a, b) => obv_has_params(a) || obv_has_params(b),
        Value::NegValue(a) => obv_has_params(a),
        Value::ChoiceValue(_) => false,
        Value::Cond(o, a, b) => oobs_has_params(o) || obv_has_params(a) || obv_has_params(b),
        Value::TimeIntervalStart => false,
        Value::TimeIntervalEnd => false,
    }
}

pub open spec fn ov_has_params(v: Option<Value>) -> bool
    decreases v,
{
    match v {
        Some(x) => value_has_params(x),
        None => false,
    }
}

pub open spec fn obv_has_params(v: Option<Box<Value>>) -> bool
    decreases v,
{
    match v {
        Some(b) => value_has_params(*b),
        None => false,
    }
}

pub open spec fn oobs_has_params(o: Option<Observation>) -> bool
    decreases o,
{
    match o {
        Some(Observation::ValueGT { value, gt_than }) => obv_has_params(value) || obv_has_params(
            gt_than,
        ),
        Some(Observation::ValueGE { value, ge_than }) => obv_has_params(value) || obv_has_params(
            ge_than,
        ),
        Some(Observation::ValueLT { value, lt_than }) => obv_has_params(value) || obv_has_params(
            lt_than,
        ),
        _ => false,
    }
}

pub open spec fn otimeout_has_params(t: Option<Timeout>) -> bool {
    match t {
        Some(Timeout::TimeParam(_)) => true,
        _ => false,
    }
}

pub open spec fn oaction_has_params(a: Option<Action>) -> bool
    decreases a,
{
    match a {
        None => false,
        Some(Action::Deposit { deposits, .. }) => ov_has_params(deposits),
        Some(Action::Choice { .. }) => false,
        Some(Action::Notify { notify_if }) => oobs_has_params(notify_if),
    }
}

pub open spec fn ocase_has_params(c: Option<Case>) -> bool
    decreases c,
{
    match c {
        None => false,
        Some(Case { case: a, then: t }) => oaction_has_params(a) || obc_has_params(t),
    }
}

pub open spec fn cases_have_params(cs: Seq<Option<Case>>) -> bool
    decreases cs,
{
    if cs.len() == 0 {
        false
    } else {
        ocase_has_params(cs[0]) || cases_have_params(cs.drop_first())
    }
}

/// Does the document still carry any unresolved constant or timeout
/// parameter anywhere?
pub open spec fn contract_has_params(c: Contract) -> bool
    decreases c,
{
    match c {
        Contract::Close => false,
        Contract::Pay { pay, then, .. } => ov_has_params(pay) || obc_has_params(then),
        Contract::If { condition, then, otherwise } => oobs_has_params(condition) || obc_has_params(
            then,
        ) || obc_has_params(otherwise),
        Contract::When { when, timeout, timeout_continuation } => cases_have_params(when@)
            || otimeout_has_params(timeout) || obc_has_params(timeout_continuation),
        Contract::Let { be, then, .. } => ov_has_params(be) || obc_has_params(then),
        Contract::Assert { assert: a, then } => oobs_has_params(a) || obc_has_params(then),
    }
}

pub open spec fn obc_has_params(c: Option<Box<Contract>>) -> bool
    decreases c,
{
    match c {
        Some(b) => contract_has_params(*b),
        None => false,
    }
}

// ---------------------------------------------------------------------------
// The JSON text, for documents free of parameters
// ---------------------------------------------------------------------------

pub open spec fn jstr(s: Seq<char>) -> Seq<char> {
    "\""@ + s + "\""@
}

pub open spec fn party_json(p: Option<Party>) -> Seq<char> {
    match p {
        None => "null"@,
        Some(Party::PK { pk_hash }) => "{\"pk_hash\":"@ + jstr(pk_hash@) + "}"@,
        Some(Party::Role { role_token }) => "{\"role_token\":"@ + jstr(role_token@) + "}"@,
    }
}

pub open spec fn payee_json(p: Option<Payee>) -> Seq<char> {
    match p {
        None => "null"@,
        Some(Payee::Account(a)) => "{\"account\":"@ + party_json(a) + "}"@,
        Some(Payee::Party(a)) => "{\"party\":"@ + party_json(a) + "}"@,
    }
}

pub open spec fn token_json(t: Option<Token>) -> Seq<char> {
    match t {
        None => "null"@,
        Some(Token::ADA) => "{\"currency_symbol\":\"\",\"token_name\":\"\"}"@,
        Some(Token::Custom { currency_symbol, token_name }) => "{\"currency_symbol\":"@ + jstr(
            currency_symbol@,
        ) + ",\"token_name\":"@ + jstr(token_name@) + "}"@,
    }
}

pub open spec fn timeout_json(t: Option<Timeout>) -> Seq<char> {
    match t {
        None => "null"@,
        Some(Timeout::TimeConstant(n)) => i64_text(n),
        Some(Timeout::TimeParam(_)) => "null"@,
    }
}

pub open spec fn choice_id_json(c: Option<ChoiceId>) -> Seq<char> {
    match c {
        None => "null"@,
        Some(cid) => "{\"choice_name\":"@ + jstr(cid.choice_name@) + ",\"choice_owner\":"@
            + party_json(cid.choice_owner) + "}"@,
    }
}

pub open spec fn bound_json(b: Option<Bound>) -> Seq<char> {
    match b {
        None => "null"@,
        Some(Bound(lo, hi)) => "{\"from\":"@ + i64_text(lo) + ",\"to\":"@ + i64_text(hi) + "}"@,
    }
}

pub open spec fn bounds_join_json(bs: Seq<Option<Bound>>) -> Seq<char>
    decreases bs.len(),
{
    if bs.len() == 0 {
        Seq::empty()
    } else if bs.len() == 1 {
        bound_json(bs[0])
    } else {
        bound_json(bs[0]) + ","@ + bounds_join_json(bs.drop_first())
    }
}

pub open spec fn value_json(v: Value) -> Seq<char>
    decreases v,
{
    match v {
        Value::AvailableMoney(p, t) => "{\"amount_of_token\":"@ + token_json(t) + ",\"in_account\":"@
            + party_json(p) + "}"@,
        Value::ConstantValue(n) => i64_text(n),
        Value::ConstantParam(_) => "null"@,
        Value::UseValue(s) => "{\"use_value\":"@ + jstr(s@) + "}"@,
        Value::AddValue(a, b) => "{\"add\":"@ + obv_json(a) + ",\"and\":"@ + obv_json(b) + "}"@,
        Value::SubValue(a, b) => "{\"value\":"@ + obv_json(a) + ",\"minus\":"@ + obv_json(b) + "}"@,
        Value::MulValue(a, b) => "{\"multiply\":"@ + obv_json(a) + ",\"times\":"@ + obv_json(b)
            + "}"@,
        Value::DivValue(a, b) => "{\"divide\":"@ + obv_json(a) + ",\"by\":"@ + obv_json(b) + "}"@,
        Value::NegValue(a) => "{\"negate\":"@ + obv_json(a) + "}"@,
        Value::ChoiceValue(c) => "{\"value_of_choice\":"@ + choice_id_json(c) + "}"@,
        Value::Cond(o, a, b) => "{\"if\":"@ + oobs_json(o) + ",\"then\":"@ + obv_json(a)
            + ",\"else\":"@ + obv_json(b) + "}"@,
        Value::TimeIntervalStart => "\"time_interval_start\""@,
        Value::TimeIntervalEnd => "\"time_interval_end\""@,
    }
}

pub open spec fn ov_json(v: Option<Value>) -> Seq<char>
    decreases v,
{
    match v {
        None => "null"@,
        Some(x) => value_json(x),
    }
}

pub open spec fn obv_json(v: Option<Box<Value>>) -> Seq<char>
    decreases v,
{
    match v {
        None => "null"@,
        Some(b) => value_json(*b),
    }
}

pub open spec fn oobs_json(o: Option<Observation>) -> Seq<char>
    decreases o,
{
    match o {
        None => "null"@,
        Some(Observation::True) => "true"@,
        Some(Observation::False) => "false"@,
        Some(Observation::ValueGT { value, gt_than }) => "{\"value\":"@ + obv_json(value)
            + ",\"gt\":"@ + obv_json(gt_than) + "}"@,
        Some(Observation::ValueGE { value, ge_than }) => "{\"value\":"@ + obv_json(value)
            + ",\"ge_than\":"@ + obv_json(ge_than) + "}"@,
        Some(Observation::ValueLT { value, lt_than }) => "{\"value\":"@ + obv_json(value)
            + ",\"lt\":"@ + obv_json(lt_than) + "}"@,
    }
}

pub open spec fn oaction_json(a: Option<Action>) -> Seq<char>
    decreases a,
{
    match a {
        None => "null"@,
        Some(Action::Deposit { party, into_account, of_token, deposits }) => "{\"party\":"@
            + party_json(party) + ",\"deposits\":"@ + ov_json(deposits) + ",\"of_token\":"@
            + token_json(of_token) + ",\"into_account\":"@ + party_json(into_account) + "}"@,
        Some(Action::Choice { for_choice, choose_between }) => "{\"for_choice\":"@ + choice_id_json(
            for_choice,
        ) + ",\"choose_between\":["@ + bounds_join_json(choose_between@) + "]}"@,
        Some(Action::Notify { notify_if }) => "{\"notify_if\":"@ + oobs_json(notify_if) + "}"@,
    }
}

pub open spec fn ocase_json(c: Option<Case>) -> Seq<char>
    decreases c,
{
    match c {
        None => "null"@,
        Some(Case { case: a, then: t }) => "{\"case\":"@ + oaction_json(a) + ",\"then\":"@
            + obc_json(t) + "}"@,
    }
}

pub open spec fn cases_join_json(cs: Seq<Option<Case>>) -> Seq<char>
    decreases cs,
{
    if cs.len() == 0 {
        Seq::empty()
    } else if cs.len() == 1 {
        ocase_json(cs[0])
    } else {
        ocase_json(cs[0]) + ","@ + cases_join_json(cs.drop_first())
    }
}

/// The JSON text of a whole document (meaningful when it has no unresolved
/// parameters).
pub open spec fn contract_json(c: Contract) -> Seq<char>
    decreases c,
{
    match c {
        Contract::Close => "\"close\""@,
        Contract::Pay { from_account, to, token, pay, then } => "{\"from_account\":"@ + party_json(
            from_account,
        ) + ",\"to\":"@ + payee_json(to) + ",\"token\":"@ + token_json(token) + ",\"pay\":"@
            + ov_json(pay) + ",\"then\":"@ + obc_json(then) + "}"@,
        Contract::If { condition, then, otherwise } => "{\"if\":"@ + oobs_json(condition)
            + ",\"then\":"@ + obc_json(then) + ",\"else\":"@ + obc_json(otherwise) + "}"@,
        Contract::When { when, timeout, timeout_continuation } => "{\"when\":["@ + cases_join_json(
            when@,
        ) + "],\"timeout\":"@ + timeout_json(timeout) + ",\"timeout_continuation\":"@ + obc_json(
            timeout_continuation,
        ) + "}"@,
        Contract::Let { name, be, then } => "{\"let\":"@ + jstr(name@) + ",\"be\":"@ + ov_json(be)
            + ",\"then\":"@ + obc_json(then) + "}"@,
        Contract::Assert { assert: a, then } => "{\"assert\":"@ + oobs_json(a) + ",\"then\":"@
            + obc_json(then) + "}"@,
    }
}

pub open spec fn obc_json(c: Option<Box<Contract>>) -> Seq<char>
    decreases c,
{
    match c {
        None => "null"@,
        Some(b) => contract_json(*b),
    }
}

// ---------------------------------------------------------------------------
// Writers
// ---------------------------------------------------------------------------

fn j_string(out: &mut String, s: &String)
    ensures
        final(out)@ == old(out)@ + jstr(s@),
{
    out.append("\"");
    out.append(s.as_str());
    out.append("\"");
    proof {
        assert(out@ =~= old(out)@ + jstr(s@));
    }
}

fn j_party(out: &mut String, p: &Option<Party>)
    ensures
        final(out)@ == old(out)@ + party_json(*p),
{
    match p {
        None => out.append("null"),
        Some(Party::PK { pk_hash }) => {
            out.append("{\"pk_hash\":");
            j_string(out, pk_hash);
            out.append("}");
            proof {
                assert(out@ =~= old(out)@ + party_json(*p));
            }
        },
        Some(Party::Role { role_token }) => {
            out.append("{\"role_token\":");
            j_string(out, role_token);
            out.append("}");
            proof {
                assert(out@ =~= old(out)@ + party_json(*p));
            }
        },
    }
}

fn j_payee(out: &mut String, p: &Option<Payee>)
    ensures
        final(out)@ == old(out)@ + payee_json(*p),
{
    match p {
        None => out.append("null"),
        Some(Payee::Account(a)) => {
            out.append("{\"account\":");
            j_party(out, a);
            out.append("}");
            proof {
                assert(out@ =~= old(out)@ + payee_json(*p));
            }
        },
        Some(Payee::Party(a)) => {
            out.append("{\"party\":");
            j_party(out, a);
            out.append("}");
            proof {
                assert(out@ =~= old(out)@ + payee_json(*p));
            }
        },
    }
}

fn j_token(out: &mut String, t: &Option<Token>)
    ensures
        final(out)@ == old(out)@ + token_json(*t),
{
    match t {
        None => out.append("null"),
        Some(Token::ADA) => out.append("{\"currency_symbol\":\"\",\"token_name\":\"\"}"),
        Some(Token::Custom { currency_symbol, token_name }) => {
            out.append("{\"currency_symbol\":");
            j_string(out, currency_symbol);
            out.append(",\"token_name\":");
            j_string(out, token_name);
            out.append("}");
            proof {
                assert(out@ =~= old(out)@ + token_json(*t));
            }
        },
    }
}

fn j_timeout(out: &mut String, t: &Option<Timeout>) -> (r: Result<(), JsonError>)
    ensures
        r is Ok <==> !otimeout_has_params(*t),
        r is Ok ==> final(out)@ == old(out)@ + timeout_json(*t),
{
    match t {
        None => {
            out.append("null");
            Ok(())
        },
        Some(Timeout::TimeConstant(n)) => {
            push_i64_text(out, *n);
            Ok(())
        },
        Some(Timeout::TimeParam(s)) => Err(JsonError { parameter: s.clone() }),
    }
}

fn j_choice_id(out: &mut String, c: &Option<ChoiceId>)
    ensures
        final(out)@ == old(out)@ + choice_id_json(*c),
{
    match c {
        None => out.append("null"),
        Some(cid) => {
            out.append("{\"choice_name\":");
            j_string(out, &cid.choice_name);
            out.append(",\"choice_owner\":");
            j_party(out, &cid.choice_owner);
            out.append("}");
            proof {
                assert(out@ =~= old(out)@ + choice_id_json(*c));
            }
        },
    }
}

fn j_bound(out: &mut String, b: &Option<Bound>)
    ensures
        final(out)@ == old(out)@ + bound_json(*b),
{
    match b {
        None => out.append("null"),
        Some(Bound(lo, hi)) => {
            out.append("{\"from\":");
            push_i64_text(out, *lo);
            out.append(",\"to\":");
            push_i64_text(out, *hi);
            out.append("}");
            proof {
                assert(out@ =~= old(out)@ + bound_json(*b));
            }
        },
    }
}

fn j_bounds_join(out: &mut String, bs: &Vec<Option<Bound>>, i: usize)
    requires
        i <= bs@.len(),
    ensures
        final(out)@ == old(out)@ + bounds_join_json(bs@.skip(i as int)),
    decreases bs@.len() - i,
{
    if i < bs.len() {
        j_bound(out, &bs[i]);
        proof {
            assert(bs@.skip(i as int)[0] == bs@[i as int]);
            assert(bs@.skip(i as int).drop_first() =~= bs@.skip(i as int + 1));
        }
        if i + 1 < bs.len() {
            out.append(",");
            j_bounds_join(out, bs, i + 1);
            proof {
                assert(out@ =~= old(out)@ + bounds_join_json(bs@.skip(i as int)));
            }
        }
    }
}

#[verifier::rlimit(100)]
#[verifier::spinoff_prover]
fn j_value(out: &mut String, v: &Value) -> (r: Result<(), JsonError>)
    ensures
        r is Ok <==> !value_has_params(*v),
        r is Ok ==> final(out)@ == old(out)@ + value_json(*v),
    decreases *v, 0int,
{
    match v {
        Value::AvailableMoney(p, t) => {
            out.append("{\"amount_of_token\":");
            j_token(out, t);
            out.append(",\"in_account\":");
            j_party(out, p);
            out.append("}");
            proof {
                assert(out@ =~= old(out)@ + value_json(*v));
            }
            Ok(())
        },
        Value::ConstantValue(n) => {
            push_i64_text(out, *n);
            Ok(())
        },
        Value::ConstantParam(s) => Err(JsonError { parameter: s.clone() }),
        Value::UseValue(s) => {
            out.append("{\"use_value\":");
            j_string(out, s);
            out.append("}");
            proof {
                assert(out@ =~= old(out)@ + value_json(*v));
            }
            Ok(())
        },
        Value::AddValue(a, b) => {
            out.append("{\"add\":");
            j_obv(out, a)?;
            out.append(",\"and\":");
            j_obv(out, b)?;
            out.append("}");
            proof {
                assert(out@ =~= old(out)@ + value_json(*v));
            }
            Ok(())
        },
        Value::SubValue(a, b) => {
            out.append("{\"value\":");
            j_obv(out, a)?;
            out.append(",\"minus\":");
            j_obv(out, b)?;
            out.append("}");
            proof {
                assert(out@ =~= old(out)@ + value_json(*v));
            }
            Ok(())
        },
        Value::MulValue(a, b) => {
            out.append("{\"multiply\":");
            j_obv(out, a)?;
            out.append(",\"times\":");
            j_obv(out, b)?;
            out.append("}");
            proof {
                assert(out@ =~= old(out)@ + value_json(*v));
            }
            Ok(())
        },
        Value::DivValue(a, b) => {
            out.append("{\"divide\":");
            j_obv(out, a)?;
            out.append(",\"by\":");
            j_obv(out, b)?;
            out.append("}");
            proof {
                assert(out@ =~= old(out)@ + value_json(*v));
            }
            Ok(())
        },
        Value::NegValue(a) => {
            out.append("{\"negate\":");
            j_obv(out, a)?;
            out.append("}");
            proof {
                assert(out@ =~= old(out)@ + value_json(*v));
            }
            Ok(())
        },
        Value::ChoiceValue(c) => {
            out.append("{\"value_of_choice\":");
            j_choice_id(out, c);
            out.append("}");
            proof {
                assert(out@ =~= old(out)@ + value_json(*v));
            }
            Ok(())
        },
        Value::Cond(o, a, b) => {
            out.append("{\"if\":");
            j_oobs(out, o)?;
            out.append(",\"then\":");
            j_obv(out, a)?;
            out.append(",\"else\":");
            j_obv(out, b)?;
            out.append("}");
            proof {
                assert(out@ =~= old(out)@ + value_json(*v));
            }
            Ok(())
        },
        Value::TimeIntervalStart => {
            out.append("\"time_interval_start\"");
            Ok(())
        },
        Value::TimeIntervalEnd => {
            out.append("\"time_interval_end\"");
            Ok(())
        },
    }
}

fn j_ov(out: &mut String, v: &Option<Value>) -> (r: Result<(), JsonError>)
    ensures
        r is Ok <==> !ov_has_params(*v),
        r is Ok ==> final(out)@ == old(out)@ + ov_json(*v),
    decreases *v, 1int,
{
    match v {
        None => {
            out.append("null");
            Ok(())
        },
        Some(x) => j_value(out, x),
    }
}

fn j_obv(out: &mut String, v: &Option<Box<Value>>) -> (r: Result<(), JsonError>)
    ensures
        r is Ok <==> !obv_has_params(*v),
        r is Ok ==> final(out)@ == old(out)@ + obv_json(*v),
    decreases *v, 1int,
{
    match v {
        None => {
            out.append("null");
            Ok(())
        },
        Some(b) => j_value(out, b),
    }
}

fn j_oobs(out: &mut String, o: &Option<Observation>) -> (r: Result<(), JsonError>)
    ensures
        r is Ok <==> !oobs_has_params(*o),
        r is Ok ==> final(out)@ == old(out)@ + oobs_json(*o),
    decreases *o, 2int,
{
    match o {
        None => {
            out.append("null");
            Ok(())
        },
        Some(Observation::True) => {
            out.append("true");
            Ok(())
        },
        Some(Observation::False) => {
            out.append("false");
            Ok(())
        },
        Some(Observation::ValueGT { value, gt_than }) => {
            out.append("{\"value\":");
            j_obv(out, value)?;
            out.append(",\"gt\":");
            j_obv(out, gt_than)?;
            out.append("}");
            proof {
                assert(out@ =~= old(out)@ + oobs_json(*o));
            }
            Ok(())
        },
        Some(Observation::ValueGE { value, ge_than }) => {
            out.append("{\"value\":");
            j_obv(out, value)?;
            out.append(",\"ge_than\":");
            j_obv(out, ge_than)?;
            out.append("}");
            proof {
                assert(out@ =~= old(out)@ + oobs_json(*o));
            }
            Ok(())
        },
        Some(Observation::ValueLT { value, lt_than }) => {
            out.append("{\"value\":");
            j_obv(out, value)?;
            out.append(",\"lt\":");
            j_obv(out, lt_than)?;
            out.append("}");
            proof {
                assert(out@ =~= old(out)@ + oobs_json(*o));
            }
            Ok(())
        },
    }
}

fn j_oaction(out: &mut String, a: &Option<Action>) -> (r: Result<(), JsonError>)
    ensures
        r is Ok <==> !oaction_has_params(*a),
        r is Ok ==> final(out)@ == old(out)@ + oaction_json(*a),
{
    match a {
        None => {
            out.append("null");
            Ok(())
        },
        Some(Action::Deposit { party, into_account, of_token, deposits }) => {
            out.append("{\"party\":");
            j_party(out, party);
            out.append(",\"deposits\":");
            j_ov(out, deposits)?;
            out.append(",\"of_token\":");
            j_token(out, of_token);
            out.append(",\"into_account\":");
            j_party(out, into_account);
            out.append("}");
            proof {
                assert(out@ =~= old(out)@ + oaction_json(*a));
            }
            Ok(())
        },
        Some(Action::Choice { for_choice, choose_between }) => {
            out.append("{\"for_choice\":");
            j_choice_id(out, for_choice);
            out.append(",\"choose_between\":[");
            proof {
                assert(choose_between@.skip(0) =~= choose_between@);
            }
            j_bounds_join(out, choose_between, 0);
            out.append("]}");
            proof {
                assert(out@ =~= old(out)@ + oaction_json(*a));
            }
            Ok(())
        },
        Some(Action::Notify { notify_if }) => {
            out.append("{\"notify_if\":");
            j_oobs(out, notify_if)?;
            out.append("}");
            proof {
                assert(out@ =~= old(out)@ + oaction_json(*a));
            }
            Ok(())
        },
    }
}

fn j_ocase(out: &mut String, c: &Option<Case>) -> (r: Result<(), JsonError>)
    ensures
        r is Ok <==> !ocase_has_params(*c),
        r is Ok ==> final(out)@ == old(out)@ + ocase_json(*c),
    decreases *c, 0int,
{
    match c {
        None => {
            out.append("null");
            Ok(())
        },
        Some(Case { case: a, then: t }) => {
            out.append("{\"case\":");
            j_oaction(out, a)?;
            out.append(",\"then\":");
            j_obc(out, t)?;
            out.append("}");
            proof {
                assert(out@ =~= old(out)@ + ocase_json(*c));
            }
            Ok(())
        },
    }
}

fn j_cases_join(out: &mut String, cs: &Vec<Option<Case>>, i: usize) -> (r: Result<(), JsonError>)
    requires
        i <= cs@.len(),
    ensures
        r is Ok <==> !cases_have_params(cs@.skip(i as int)),
        r is Ok ==> final(out)@ == old(out)@ + cases_join_json(cs@.skip(i as int)),
    decreases *cs, cs@.len() - i,
{
    proof {
        assert(i < cs@.len() ==> cs@.skip(i as int)[0] == cs@[i as int]);
        assert(i < cs@.len() ==> cs@.skip(i as int).drop_first() =~= cs@.skip(i as int + 1));
        assert(cs@.skip(cs@.len() as int) =~= Seq::<Option<Case>>::empty());
        assert(!cases_have_params(Seq::<Option<Case>>::empty()));
        assert(cases_join_json(Seq::<Option<Case>>::empty()) =~= Seq::<char>::empty());
        if i >= cs@.len() {
            assert(cs@.skip(i as int) =~= Seq::<Option<Case>>::empty());
        }
    }
    if i < cs.len() {
        j_ocase(out, &cs[i])?;
        if i + 1 < cs.len() {
            out.append(",");
            j_cases_join(out, cs, i + 1)?;
            proof {
                assert(out@ =~= old(out)@ + cases_join_json(cs@.skip(i as int)));
            }
        }
        Ok(())
    } else {
        Ok(())
    }
}

fn j_obc(out: &mut String, c: &Option<Box<Contract>>) -> (r: Result<(), JsonError>)
    ensures
        r is Ok <==> !obc_has_params(*c),
        r is Ok ==> final(out)@ == old(out)@ + obc_json(*c),
    decreases *c, 1int,
{
    match c {
        None => {
            out.append("null");
            Ok(())
        },
        Some(b) => j_contract(out, b),
    }
}

#[verifier::rlimit(100)]
#[verifier::spinoff_prover]
fn j_contract(out: &mut String, c: &Contract) -> (r: Result<(), JsonError>)
    ensures
        r is Ok <==> !contract_has_params(*c),
        r is Ok ==> final(out)@ == old(out)@ + contract_json(*c),
    decreases *c, 0int,
{
    match c {
        Contract::Close => {
            out.append("\"close\"");
            Ok(())
        },
        Contract::Pay { from_account, to, token, pay, then } => {
            out.append("{\"from_account\":");
            j_party(out, from_account);
            out.append(",\"to\":");
            j_payee(out, to);
            out.append(",\"token\":");
            j_token(out, token);
            out.append(",\"pay\":");
            j_ov(out, pay)?;
            out.append(",\"then\":");
            j_obc(out, then)?;
            out.append("}");
            proof {
                assert(out@ =~= old(out)@ + contract_json(*c));
            }
            Ok(())
        },
        Contract::If { condition, then, otherwise } => {
            out.append("{\"if\":");
            j_oobs(out, condition)?;
            out.append(",\"then\":");
            j_obc(out, then)?;
            out.append(",\"else\":");
            j_obc(out, otherwise)?;
            out.append("}");
            proof {
                assert(out@ =~= old(out)@ + contract_json(*c));
            }
            Ok(())
        },
        Contract::When { when, timeout, timeout_continuation } => {
            out.append("{\"when\":[");
            proof {
                assert(when@.skip(0) =~= when@);
            }
            j_cases_join(out, when, 0)?;
            out.append("],\"timeout\":");
            j_timeout(out, timeout)?;
            out.append(",\"timeout_continuation\":");
            j_obc(out, timeout_continuation)?;
            out.append("}");
            proof {
                assert(out@ =~= old(out)@ + contract_json(*c));
            }
            Ok(())
        },
        Contract::Let { name, be, then } => {
            out.append("{\"let\":");
            j_string(out, name);
            out.append(",\"be\":");
            j_ov(out, be)?;
            out.append(",\"then\":");
            j_obc(out, then)?;
            out.append("}");
            proof {
                assert(out@ =~= old(out)@ + contract_json(*c));
            }
            Ok(())
        },
        Contract::Assert { assert: a, then } => {
            out.append("{\"assert\":");
            j_oobs(out, a)?;
            out.append(",\"then\":");
            j_obc(out, then)?;
            out.append("}");
            proof {
                assert(out@ =~= old(out)@ + contract_json(*c));
            }
            Ok(())
        },
    }
}

/// Exports a document as JSON. The export succeeds if and only if the
/// document carries no unresolved constant or timeout parameter; the error
/// names one such parameter.
pub fn serialize(contract: Contract) -> (r: Result<String, JsonError>)
    ensures
        r is Ok <==> !contract_has_params(contract),
        r matches Ok(s) ==> s@ == contract_json(contract),
{
    let mut out = String::new();
    match j_contract(&mut out, &contract) {
        Ok(()) => Ok(out),
        Err(e) => Err(e),
    }
}

} // verus!
