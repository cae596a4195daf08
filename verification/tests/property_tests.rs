use marlowe_lang::parsing::deserialization::{deserialize, deserialize_with_input, option_to_result};
use marlowe_lang::parsing::serialization::marlowe::serialize;
use marlowe_lang::parsing::serialization::json;
use marlowe_lang::types::marlowe::{
    Action, Bound, Case, ChoiceId, Contract, Observation, Party, Payee, Timeout, Token, Value,
};

const SIMPLE: &str = "When [ (Case (Notify TrueObs) Close) ] (TimeParam \"test\") Close";

const RICH: &str = r#"When [ (Case (Choice (ChoiceId "number" (Role "buyer")) [ (Bound 0 1), (Bound 5 10) ]) (If (ValueGT (ChoiceValue (ChoiceId "number" (Role "buyer"))) (Constant 0)) (Pay (PK "0123456789abcdef") (Account (Role "seller")) (Token "77" "name") (AddValue (Constant 1) (NegValue (Constant -2))) Close) Close)), (Case (Deposit (Role "seller") (Role "buyer") (Token "" "") (AvailableMoney (Role "buyer") (Token "" ""))) (Let "x" (MulValue (SubValue (UseValue "x") (Constant 3)) (DivValue TimeIntervalEnd TimeIntervalStart)) Close)), (Case (Notify (ValueGE (Cond (ValueLT (Constant 1) (Constant 2)) (Constant 1) (Constant 0)) (Constant 1))) Close) ] (TimeParam "deadline") Close"#;

/// Whitespace-insensitive normal form: all whitespace stripped, a separator
/// before each opening delimiter.
fn normalized(text: &str) -> String {
    text.replace('\n', "")
        .replace("(", "(\n")
        .replace('\r', "")
        .replace(" ", "")
        .replace("\t", "")
}

#[test]
fn round_trip_preserves_simple_text() {
    let document = deserialize(SIMPLE).unwrap();
    assert_eq!(normalized(&serialize(document)), normalized(SIMPLE));
}

#[test]
fn round_trip_preserves_rich_text() {
    let document = deserialize(RICH).unwrap();
    assert_eq!(normalized(&serialize(document)), normalized(RICH));
}

#[test]
fn round_trip_preserves_holes() {
    let text = "When [ ?case ] ?timeout Close";
    let document = deserialize(text).unwrap();
    match &document {
        Contract::When { when, timeout, timeout_continuation } => {
            assert_eq!(when.len(), 1);
            assert_eq!(when[0], None);
            assert_eq!(*timeout, None);
            assert!(timeout_continuation.is_some());
        },
        _ => panic!("expected a When contract"),
    }
    assert_eq!(serialize(document), "When [ ?case ] ?timeout Close");
}

#[test]
fn reentry_is_idempotent() {
    let first = deserialize(RICH).unwrap();
    let text = serialize(first);
    let second = deserialize(&text).unwrap();
    let first_again = deserialize(RICH).unwrap();
    assert_eq!(second, first_again);
}

#[test]
fn duplicate_keys_always_rejected() {
    let input = vec![("X".to_string(), 1i64), ("X".to_string(), 2i64)];
    let r = deserialize_with_input(SIMPLE, input);
    assert!(r.is_err());
    assert_eq!(r.unwrap_err(), "Input data cannot contain duplicate keys.".to_string());

    let input_again = vec![("X".to_string(), 1i64), ("X".to_string(), 2i64)];
    assert!(deserialize_with_input("not a contract at all", input_again).is_err());

    let distinct = vec![("X".to_string(), 1i64), ("Y".to_string(), 2i64)];
    assert!(deserialize_with_input(SIMPLE, distinct).is_ok());
}

fn simple_expected(timeout: Timeout) -> Contract {
    Contract::When {
        when: vec![Some(Case {
            case: Some(Action::Notify { notify_if: Some(Observation::True) }),
            then: Some(Contract::Close.boxed()),
        })],
        timeout: Some(timeout),
        timeout_continuation: Some(Contract::Close.boxed()),
    }
}

#[test]
fn time_param_resolves_against_the_table() {
    let unresolved = deserialize(SIMPLE).unwrap();
    assert_eq!(unresolved, simple_expected(Timeout::TimeParam("test".to_string())));

    let input = vec![("test".to_string(), 123i64)];
    let resolved = deserialize_with_input(SIMPLE, input).unwrap();
    assert_eq!(resolved, simple_expected(Timeout::TimeConstant(123)));
}

#[test]
fn constant_param_resolves_against_the_table() {
    let text = "When [ (Case (Deposit (Role \"a\") (Role \"b\") (Token \"\" \"\") (ConstantParam \"amount\")) Close) ] 99 Close";
    let input = vec![("amount".to_string(), 7000i64)];
    let resolved = deserialize_with_input(text, input).unwrap();
    match resolved {
        Contract::When { when, .. } => match &when[0] {
            Some(Case { case: Some(Action::Deposit { deposits, .. }), .. }) => {
                assert_eq!(*deposits, Some(Value::ConstantValue(7000)));
            },
            _ => panic!("expected a deposit case"),
        },
        _ => panic!("expected a When contract"),
    }
}

#[test]
fn json_gating_follows_unresolved_parameters() {
    let with_param = deserialize(SIMPLE).unwrap();
    assert!(json::serialize(with_param).is_err());

    let with_param_again = deserialize(SIMPLE).unwrap();
    let native = serialize(with_param_again);
    assert_eq!(normalized(&native), normalized(SIMPLE));

    let input = vec![("test".to_string(), 99i64)];
    let resolved = deserialize_with_input(SIMPLE, input).unwrap();
    let exported = json::serialize(resolved).unwrap();
    assert_eq!(
        exported,
        "{\"when\":[{\"case\":{\"notify_if\":true},\"then\":\"close\"}],\"timeout\":99,\"timeout_continuation\":\"close\"}".to_string()
    );
}

#[test]
fn json_error_names_the_parameter() {
    let document = deserialize(SIMPLE).unwrap();
    let e = json::serialize(document).unwrap_err();
    assert_eq!(e.parameter, "test".to_string());
}

#[test]
fn numbers_at_the_edges_of_the_range() {
    let max_text = "When [] 9223372036854775807 Close";
    let document = deserialize(max_text).unwrap();
    match document {
        Contract::When { timeout, .. } => {
            assert_eq!(timeout, Some(Timeout::TimeConstant(i64::MAX)));
        },
        _ => panic!("expected a When contract"),
    }

    let min_text = "When [ (Case (Choice (ChoiceId \"c\" (Role \"r\")) [ (Bound -9223372036854775808 -1) ]) Close) ] 5 Close";
    let document = deserialize(min_text).unwrap();
    match document {
        Contract::When { when, .. } => match &when[0] {
            Some(Case { case: Some(Action::Choice { choose_between, .. }), .. }) => {
                assert_eq!(choose_between[0], Some(Bound(i64::MIN, -1)));
            },
            _ => panic!("expected a choice case"),
        },
        _ => panic!("expected a When contract"),
    }
}

#[test]
fn overflowing_number_is_a_number_format_error() {
    let too_big = "When [] 9223372036854775808 Close";
    let e = deserialize(too_big).unwrap_err();
    assert_eq!(e, "failed to convert time constant value to i64.".to_string());

    let too_big_constant =
        "When [ (Case (Notify (ValueGT (Constant 99999999999999999999) (Constant 0))) Close) ] 5 Close";
    let e = deserialize(too_big_constant).unwrap_err();
    assert_eq!(e, "Failed to parse a number".to_string());
}

#[test]
fn empty_case_list_parses() {
    let document = deserialize("When [] 5 Close").unwrap();
    assert_eq!(
        document,
        Contract::When {
            when: vec![],
            timeout: Some(Timeout::TimeConstant(5)),
            timeout_continuation: Some(Contract::Close.boxed()),
        }
    );
}

#[test]
fn serializer_produces_exact_text() {
    let document = Contract::Pay {
        from_account: Some(Party::Role { role_token: "payer".to_string() }),
        to: Some(Payee::Party(Some(Party::PK { pk_hash: "ff00".to_string() }))),
        token: Some(Token::ADA),
        pay: Some(Value::SubValue(
            Some(Box::new(Value::ConstantValue(-5))),
            Some(Box::new(Value::TimeIntervalStart)),
        )),
        then: Some(Contract::Close.boxed()),
    };
    assert_eq!(
        serialize(document),
        "Pay (Role \"payer\") (Party (PK \"ff00\")) (Token \"\" \"\") (SubValue (Constant -5) TimeIntervalStart) Close".to_string()
    );
}

#[test]
fn json_handles_the_smallest_constant() {
    let document = Contract::When {
        when: vec![Some(Case {
            case: Some(Action::Notify {
                notify_if: Some(Observation::ValueLT {
                    value: Some(Box::new(Value::ConstantValue(i64::MIN))),
                    lt_than: Some(Box::new(Value::ConstantValue(0))),
                }),
            }),
            then: Some(Contract::Close.boxed()),
        })],
        timeout: Some(Timeout::TimeConstant(0)),
        timeout_continuation: Some(Contract::Close.boxed()),
    };
    let exported = json::serialize(document).unwrap();
    assert_eq!(
        exported,
        "{\"when\":[{\"case\":{\"notify_if\":{\"value\":-9223372036854775808,\"lt\":0}},\"then\":\"close\"}],\"timeout\":0,\"timeout_continuation\":\"close\"}".to_string()
    );
}

#[test]
fn extra_parentheses_are_rejected_everywhere() {
    assert!(deserialize("When [ (Case (Notify TrueObs) Close) ] ((TimeParam \"t\")) Close").is_err());
    assert!(deserialize("(Close)").is_err());
    assert!(deserialize("When [ ((Case (Notify TrueObs) Close)) ] 5 Close").is_err());
}

#[test]
fn trailing_input_is_rejected() {
    assert!(deserialize("Close Close").is_err());
    assert!(deserialize("Close )").is_err());
    assert!(deserialize("").is_err());
}

#[test]
fn pub_key_hash_keeps_only_the_inner_text() {
    let document = deserialize("Pay (PK \"aabb\") (Account (Role \"r\")) (Token \"\" \"\") (Constant 1) Close").unwrap();
    match document {
        Contract::Pay { from_account, .. } => {
            assert_eq!(from_account, Some(Party::PK { pk_hash: "aabb".to_string() }));
        },
        _ => panic!("expected a Pay contract"),
    }
}

#[test]
fn option_to_result_keeps_the_value_or_the_message() {
    let some: Result<i64, &str> = option_to_result(Some(5i64), "missing");
    assert_eq!(some, Ok(5));
    let none: Result<i64, &str> = option_to_result(None, "missing");
    assert_eq!(none, Err("missing"));
}
