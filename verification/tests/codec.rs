use lapi_client::json::{decode_decision, decode_decisions_response, JsonValue};
use lapi_client::options::{DecisionsStreamOptions, DecisionsStreamOptionsBuilder, ScenarioQueryOptions};
use lapi_client::types::{Decision, DecisionType, Origin, Scope, Timestamp};
use lapi_client::errors::Error;

fn obj(entries: Vec<(&str, JsonValue)>) -> JsonValue {
    JsonValue::Obj(entries.into_iter().map(|(k, v)| (k.to_string(), v)).collect())
}

fn s(text: &str) -> JsonValue {
    JsonValue::Str(text.to_string())
}

fn minimal_decision(extra: Vec<(&str, JsonValue)>) -> JsonValue {
    let mut entries = vec![
        ("duration", s("1h")),
        ("origin", s("cscli")),
        ("scenario", s("ssh-bf")),
        ("scope", s("ip")),
        ("type", s("ban")),
        ("value", s("10.0.0.1")),
    ];
    entries.extend(extra);
    obj(entries)
}

#[test]
fn test_if_scenarios_are_serialized_correctly() {
    let options = DecisionsStreamOptions {
        startup: false,
        scopes: Vec::new(),
        origins: Vec::new(),
        scenarios: vec![
            ScenarioQueryOptions::Containing("hello".to_owned()),
            ScenarioQueryOptions::NotContaining("world".to_owned()),
        ],
    };
    assert_eq!(
        options.to_wire_json(),
        obj(vec![
            ("startup", JsonValue::Bool(false)),
            ("scopes", JsonValue::Arr(vec![])),
            ("origins", JsonValue::Arr(vec![])),
            ("scenarios_containing", JsonValue::Arr(vec![s("hello")])),
            ("scenarios_not_containing", JsonValue::Arr(vec![s("world")])),
        ])
    );
}

#[test]
fn test_wire_json_never_holds_scenarios_key() {
    let options = DecisionsStreamOptionsBuilder::new()
        .scenario_containing("a".to_owned())
        .scenario_not_containing("b".to_owned())
        .scenario(ScenarioQueryOptions::Containing("c".to_owned()))
        .build();
    match options.to_wire_json() {
        JsonValue::Obj(fields) => {
            assert!(fields.iter().all(|(k, _)| k != "scenarios"));
            assert_eq!(
                fields[3],
                ("scenarios_containing".to_string(), JsonValue::Arr(vec![s("a"), s("c")]))
            );
            assert_eq!(
                fields[4],
                ("scenarios_not_containing".to_string(), JsonValue::Arr(vec![s("b")]))
            );
        }
        other => panic!("expected an object, got {:?}", other),
    }
}

#[test]
fn test_query_pairs_flatten_the_options() {
    let options = DecisionsStreamOptionsBuilder::new()
        .startup(true)
        .scope("ip".to_owned())
        .scope("range".to_owned())
        .origin("CAPI".to_owned())
        .scenario_containing("hello".to_owned())
        .scenario_not_containing("world".to_owned())
        .build();
    let pairs: Vec<(String, String)> = options.to_query_pairs();
    let expected: Vec<(&str, &str)> = vec![
        ("startup", "true"),
        ("scopes", "ip"),
        ("scopes", "range"),
        ("origins", "CAPI"),
        ("scenarios_containing", "hello"),
        ("scenarios_not_containing", "world"),
    ];
    assert_eq!(pairs.len(), expected.len());
    for (got, want) in pairs.iter().zip(expected.iter()) {
        assert_eq!(got.0, want.0);
        assert_eq!(got.1, want.1);
    }
    assert!(pairs.iter().all(|(k, _)| k != "scenarios"));
}

#[test]
fn test_builder_appends_in_order() {
    let options = DecisionsStreamOptionsBuilder::new()
        .startup(true)
        .scope("ip".to_owned())
        .scope("range".to_owned())
        .origin("cscli".to_owned())
        .build();
    assert!(options.startup);
    assert_eq!(options.scopes, vec!["ip".to_string(), "range".to_string()]);
    assert_eq!(options.origins, vec!["cscli".to_string()]);
    assert!(options.scenarios.is_empty());
}

#[test]
fn test_builder_from_options_keeps_fields() {
    let base = DecisionsStreamOptionsBuilder::new().startup(true).build();
    let options = DecisionsStreamOptionsBuilder::from_options(base)
        .origin("lists".to_owned())
        .build();
    assert!(options.startup);
    assert_eq!(options.origins, vec!["lists".to_string()]);
}

#[test]
fn test_null_lists_decode_empty() {
    let body = obj(vec![("new", JsonValue::Null), ("deleted", JsonValue::Null)]);
    let response = decode_decisions_response(&body).unwrap();
    assert!(response.new.is_empty());
    assert!(response.deleted.is_empty());
}

#[test]
fn test_missing_list_is_decode_error() {
    let body = obj(vec![("new", JsonValue::Null)]);
    assert_eq!(decode_decisions_response(&body), Err(Error::DecodeError));
    assert_eq!(
        decode_decisions_response(&JsonValue::Arr(vec![])),
        Err(Error::DecodeError)
    );
}

#[test]
fn test_unknown_origin_is_preserved_verbatim() {
    let origin = Origin::from_wire("custom-origin");
    assert_eq!(origin, Origin::Other("custom-origin".to_string()));
    assert_eq!(origin.to_wire(), "custom-origin");
}

#[test]
fn test_capi_keeps_uppercase_spelling() {
    let origin = Origin::from_wire("CAPI");
    assert_eq!(origin, Origin::Capi);
    assert_eq!(origin.to_wire(), "CAPI");
}

#[test]
fn test_known_wire_spellings() {
    assert_eq!(Origin::from_wire("cscli"), Origin::Cscli);
    assert_eq!(Origin::from_wire("crowdsec"), Origin::Crowdsec);
    assert_eq!(Origin::from_wire("lists"), Origin::Lists);
    assert_eq!(Origin::Crowdsec.to_wire(), "crowdsec");
    assert_eq!(Scope::from_wire("ip"), Scope::Ip);
    assert_eq!(Scope::from_wire("range"), Scope::Range);
    assert_eq!(Scope::Range.to_wire(), "range");
    assert_eq!(Scope::from_wire("username"), Scope::Other("username".to_string()));
    assert_eq!(Scope::Other("username".to_string()).to_wire(), "username");
    assert_eq!(DecisionType::from_wire("ban"), DecisionType::Ban);
    assert_eq!(DecisionType::from_wire("captcha"), DecisionType::Captcha);
    assert_eq!(DecisionType::Captcha.to_wire(), "captcha");
    assert_eq!(DecisionType::from_wire("mfa"), DecisionType::Other("mfa".to_string()));
    assert_eq!(DecisionType::Other("mfa".to_string()).to_wire(), "mfa");
}

#[test]
fn test_default_decision() {
    let d = Decision::default();
    assert_eq!(d.duration, "");
    assert_eq!(d.scenario, "");
    assert_eq!(d.value, "");
    assert_eq!(d.origin, Origin::Cscli);
    assert_eq!(d.scope, Scope::Ip);
    assert_eq!(d.type_, DecisionType::Ban);
    assert_eq!(d.id, None);
    assert_eq!(d.simulated, None);
    assert_eq!(d.until, None);
    assert_eq!(d.uuid, None);
}

#[test]
fn test_decode_full_decision() {
    let body = minimal_decision(vec![
        ("id", JsonValue::Int(42)),
        ("simulated", JsonValue::Bool(true)),
        ("until", s("2023-01-02T03:04:05Z")),
        ("uuid", s("abc-123")),
    ]);
    let d = decode_decision(&body).unwrap();
    assert_eq!(d.duration, "1h");
    assert_eq!(d.id, Some(42));
    assert_eq!(d.origin, Origin::Cscli);
    assert_eq!(d.scenario, "ssh-bf");
    assert_eq!(d.scope, Scope::Ip);
    assert_eq!(d.simulated, Some(true));
    assert_eq!(d.type_, DecisionType::Ban);
    assert_eq!(
        d.until,
        Some(Timestamp { unix_seconds: 1672628645, nanoseconds: 0 })
    );
    assert_eq!(d.uuid, Some("abc-123".to_string()));
    assert_eq!(d.value, "10.0.0.1");
}

#[test]
fn test_decode_until_honours_offset_and_fraction() {
    let with_offset = minimal_decision(vec![("until", s("2023-01-02T05:04:05+02:00"))]);
    let d = decode_decision(&with_offset).unwrap();
    assert_eq!(
        d.until,
        Some(Timestamp { unix_seconds: 1672628645, nanoseconds: 0 })
    );
    let with_fraction = minimal_decision(vec![("until", s("2023-01-02T03:04:05.25Z"))]);
    let d = decode_decision(&with_fraction).unwrap();
    assert_eq!(
        d.until,
        Some(Timestamp { unix_seconds: 1672628645, nanoseconds: 250_000_000 })
    );
}

#[test]
fn test_decode_minimal_decision_defaults_optionals() {
    let d = decode_decision(&minimal_decision(vec![])).unwrap();
    assert_eq!(d.id, None);
    assert_eq!(d.simulated, None);
    assert_eq!(d.until, None);
    assert_eq!(d.uuid, None);
}

#[test]
fn test_decode_null_optionals() {
    let body = minimal_decision(vec![
        ("id", JsonValue::Null),
        ("simulated", JsonValue::Null),
        ("until", JsonValue::Null),
        ("uuid", JsonValue::Null),
    ]);
    let d = decode_decision(&body).unwrap();
    assert_eq!(d.id, None);
    assert_eq!(d.simulated, None);
    assert_eq!(d.until, None);
    assert_eq!(d.uuid, None);
}

#[test]
fn test_decode_decision_shape_errors() {
    // a required string is missing
    let missing = obj(vec![
        ("origin", s("cscli")),
        ("scenario", s("x")),
        ("scope", s("ip")),
        ("type", s("ban")),
        ("value", s("v")),
    ]);
    assert_eq!(decode_decision(&missing), Err(Error::DecodeError));
    // a field of the wrong kind
    let wrong_kind = minimal_decision(vec![("id", s("not-a-number"))]);
    assert_eq!(decode_decision(&wrong_kind), Err(Error::DecodeError));
    // a number that is no integer
    let not_integral = minimal_decision(vec![("id", JsonValue::OtherNumber)]);
    assert_eq!(decode_decision(&not_integral), Err(Error::DecodeError));
    // an unreadable timestamp
    let bad_until = minimal_decision(vec![("until", s("tomorrow"))]);
    assert_eq!(decode_decision(&bad_until), Err(Error::DecodeError));
    // not an object at all
    assert_eq!(decode_decision(&JsonValue::Null), Err(Error::DecodeError));
}

#[test]
fn test_decode_decision_ignores_unknown_keys() {
    let body = minimal_decision(vec![("brand-new-field", JsonValue::Bool(true))]);
    assert!(decode_decision(&body).is_ok());
}

#[test]
fn test_decode_response_with_decisions() {
    let body = obj(vec![
        (
            "new",
            JsonValue::Arr(vec![
                minimal_decision(vec![("id", JsonValue::Int(1))]),
                minimal_decision(vec![("id", JsonValue::Int(2))]),
            ]),
        ),
        ("deleted", JsonValue::Null),
    ]);
    let response = decode_decisions_response(&body).unwrap();
    assert_eq!(response.new.len(), 2);
    assert_eq!(response.new[0].id, Some(1));
    assert_eq!(response.new[1].id, Some(2));
    assert!(response.deleted.is_empty());
}

#[test]
fn test_decode_response_fails_on_bad_element() {
    let body = obj(vec![
        ("new", JsonValue::Arr(vec![JsonValue::Bool(true)])),
        ("deleted", JsonValue::Null),
    ]);
    assert_eq!(decode_decisions_response(&body), Err(Error::DecodeError));
}
