use marlowe_lang::parsing::deserialization::{deserialize, deserialize_with_input};
use marlowe_lang::parsing::serialization::marlowe::serialize;
use marlowe_lang::parsing::serialization::json;
use marlowe_lang::types::marlowe::{
    Action, Case, Contract, Observation, Party, Payee, Timeout, Token, Value,
};
use marlowe_lang::types::marlowe::modify;

const SAMPLE: &str = r#"When [ (Case (Choice (ChoiceId "number" (Role "buyer")) [ (Bound 0 1), (Bound 5 10) ]) (If (ValueGT (ChoiceValue (ChoiceId "number" (Role "buyer"))) (Constant 0)) (Pay (PK "0123456789abcdef") (Account (Role "seller")) (Token "77" "name") (AddValue (Constant 1) (NegValue (Constant -2))) Close) Close)), (Case (Deposit (Role "seller") (Role "buyer") (Token "" "") (AvailableMoney (Role "buyer") (Token "" ""))) (Let "x" (MulValue (SubValue (UseValue "x") (Constant 3)) (DivValue TimeIntervalEnd TimeIntervalStart)) Close)), (Case (Notify (ValueGE (Cond (ValueLT (Constant 1) (Constant 2)) (Constant 1) (Constant 0)) (Constant 1))) Close) ] (TimeParam "deadline") Close"#;

#[test]
fn deserialize_unwrapped_simple_observation_should_succeed() {
    let simple_contract = "When [ (Case (Notify TrueObs) Close) ] (TimeParam \"test\") Close";
    let deserialized = deserialize(&simple_contract);
    match deserialized {
        Ok(_d) => {},
        Err(e) => panic!("{e:?}"),
    }
}

#[test]
fn deserialize_wrapped_simple_observation_should_fail() {
    let simple_contract = "When [ (Case (Notify (TrueObs)) Close) ] (TimeParam \"test\") Close";
    let deserialized = deserialize(&simple_contract);
    match deserialized {
        Ok(v) => panic!("{}", serialize(v)),
        Err(_e) => {},
    }
}

#[test]
fn serialize_and_print() {
    let my_contract = Contract::When {
        when: vec![Some(Case {
            case: Some(Action::Notify { notify_if: Some(Observation::True) }),
            then: Some(Contract::Close.boxed()),
        })],
        timeout: Some(Timeout::TimeParam("test".into())),
        timeout_continuation: Some(Contract::Close.boxed()),
    };

    let serialized = serialize(my_contract);
    match deserialize(&serialized) {
        Ok(d) => println!("{}", serialize(d)),
        Err(e) => panic!("{e:#}"),
    };
}

#[test]
fn can_generate_contract() {
    Contract::When {
        when: vec![
            Some(Case {
                case: Some(Action::Notify { notify_if: Some(Observation::True) }),
                then: Some(
                    Contract::Pay {
                        from_account: Some(Party::Role { role_token: "test".to_string() }),
                        to: Some(Payee::Account(Some(Party::PK {
                            pk_hash: "00000000000000000000".into(),
                        }))),
                        token: Some(Token::ADA),
                        pay: Some(Value::ConstantValue(42)),
                        then: Some(Contract::Close.boxed()),
                    }
                    .boxed(),
                ),
            }),
            Some(Case {
                case: Some(Action::Notify { notify_if: Some(Observation::True) }),
                then: Some(Contract::Close.boxed()),
            }),
        ],
        timeout: Some(Timeout::TimeParam("test".to_owned())),
        timeout_continuation: Some(Contract::Close.boxed()),
    };
}

#[test]
fn can_parse_sample() {
    match deserialize(SAMPLE) {
        Ok(_) => {},
        Err(e) => panic!("{e:#}"),
    }
}

#[test]
fn example_of_how_to_modify_a_contract() {
    let contract = deserialize(SAMPLE).unwrap();
    modify(contract);
}

#[test]
fn modify_example_works() {
    let contract = deserialize(SAMPLE).unwrap();
    modify(contract);
}

#[test]
fn new_parser() {
    let simple_contract = "When [ (Case (Notify TrueObs) Close) ] (TimeParam \"test\") Close";
    let deserialized = deserialize(&simple_contract);
    match deserialized {
        Ok(d) => {
            let serialized = serialize(d);
            println!("{serialized}");
        },
        Err(e) => panic!("{e}"),
    }
}

#[test]
fn json_core_should_return_error_for_uninitialized_timeout_params() {
    let serialized_contract = "When [ (Case (Notify TrueObs) Close) ] (TimeParam \"deadline\") Close";
    let deserialized = deserialize(&serialized_contract).unwrap();

    match deserialized {
        Contract::When { ref timeout, .. } => {
            assert_eq!(*timeout, Some(Timeout::TimeParam("deadline".to_string())));
        },
        _ => panic!("the sample should deserialize to a When contract"),
    }

    match json::serialize(deserialized) {
        Ok(_v) => {
            panic!("Should not be possible to serialize prior to initializing all constant params")
        },
        Err(e) => {
            println!(
                "Successfully validated that contracts with uninitialized timeouts can not be serialized: {:?}",
                e
            )
        },
    }
}

#[test]
fn json_core_should_return_error_for_uninitialized_constant_params() {
    let serialized_contract =
        "When [ (Case (Deposit (Role \"a\") (Role \"b\") (Token \"\" \"\") (ConstantParam \"amount\")) Close) ] 99 Close";
    let deserialized = deserialize(&serialized_contract).unwrap();

    match json::serialize(deserialized) {
        Ok(_v) => {
            panic!("Should not be possible to serialize prior to initializing all constant params")
        },
        Err(e) => {
            assert_eq!(e.parameter, "amount".to_string());
            println!(
                "Successfully validated that contracts with uninitialized constant parameters can not be serialized: {:?}",
                e
            )
        },
    }
}

#[test]
fn json_core_should_return_output_identical_to_playground() {
    let serialized_contract = "When [ (Case (Deposit (Role \"LENDER\") (Role \"BORROWER\") (Token \"\" \"\") (ConstantParam \"TEST_PARAMETER_ONE\")) Close) ] (TimeParam \"TEST_PARAMETER_THREE\") (Pay (Role \"LENDER\") (Party (Role \"BORROWER\")) (Token \"\" \"\") (ConstantParam \"TEST_PARAMETER_TWO\") Close)";
    let input: Vec<(String, i64)> = vec![
        ("TEST_PARAMETER_ONE".to_string(), 666),
        ("TEST_PARAMETER_TWO".to_string(), 4242),
        ("TEST_PARAMETER_THREE".to_string(), 1658504132546),
    ];
    let deserialized = deserialize_with_input(&serialized_contract, input).unwrap();

    match json::serialize(deserialized) {
        Ok(json_core) => {
            let json_reference = "{\"when\":[{\"case\":{\"party\":{\"role_token\":\"BORROWER\"},\"deposits\":666,\"of_token\":{\"currency_symbol\":\"\",\"token_name\":\"\"},\"into_account\":{\"role_token\":\"LENDER\"}},\"then\":\"close\"}],\"timeout\":1658504132546,\"timeout_continuation\":{\"from_account\":{\"role_token\":\"LENDER\"},\"to\":{\"party\":{\"role_token\":\"BORROWER\"}},\"token\":{\"currency_symbol\":\"\",\"token_name\":\"\"},\"pay\":4242,\"then\":\"close\"}}"
            .replace(" ", "")
            .replace("\t", "")
            .replace("\n", "")
            .replace("\r", "");

            let json_core = json_core
                .replace(" ", "")
                .replace("\t", "")
                .replace("\n", "")
                .replace("\r", "");

            if json_reference == json_core {
                println!("Successfully validated that contracts with all parameters initialized!")
            } else {
                panic!("json serialization differs from that of the reference document. ")
            }
        },
        Err(e) => {
            panic!("Input was given but serialization failed anyway...: {:?}", e)
        },
    }
}

#[test]
fn should_not_parse_unwrapped() {
    let test = "Pay (Role \"a\") Party (Role \"b\") (Token \"\" \"\") (Constant 1) Close";
    let result = deserialize(test);
    match result {
        Ok(v) => panic!("Should not have been possible to parse.. {}", serialize(v)),
        Err(_e) => {},
    }
}
