use manufacturing_cell::gcp_iot::message::{receive, DecodeError, Inbound, StartRequest};
use manufacturing_cell::gcp_iot::DeviceIdentity;

#[test]
fn start_request_deserializable_from_json() {
    let json_msg = r#"
            {
                "count": 5
            }
        "#;

    let _request: StartRequest = StartRequest::from_json(json_msg).unwrap();
}

#[test]
#[should_panic]
fn negative_count_doesnt_deserialize() {
    let json_msg = r#"
            {
                "count": -5
            }
        "#;

    let _request: StartRequest = StartRequest::from_json(json_msg).unwrap();
}

#[test]
fn count_of_five_is_decoded_as_five() {
    let request = StartRequest::from_json(r#"{"count": 5}"#);
    assert_eq!(request, Ok(StartRequest { count: 5 }));
}

#[test]
fn negative_count_is_malformed() {
    let request = StartRequest::from_json(r#"{"count": -5}"#);
    assert_eq!(request, Err(DecodeError::MalformedRequest));
}

#[test]
fn non_numeric_count_is_malformed() {
    assert_eq!(
        StartRequest::from_json(r#"{"count": "5"}"#),
        Err(DecodeError::MalformedRequest)
    );
    assert_eq!(
        StartRequest::from_json(r#"{"count": true}"#),
        Err(DecodeError::MalformedRequest)
    );
    assert_eq!(
        StartRequest::from_json(r#"{"count": null}"#),
        Err(DecodeError::MalformedRequest)
    );
    assert_eq!(
        StartRequest::from_json(r#"{"count": [5]}"#),
        Err(DecodeError::MalformedRequest)
    );
}

#[test]
fn fractional_count_is_not_coerced() {
    assert_eq!(
        StartRequest::from_json(r#"{"count": 5.0}"#),
        Err(DecodeError::MalformedRequest)
    );
    assert_eq!(
        StartRequest::from_json(r#"{"count": 5.5}"#),
        Err(DecodeError::MalformedRequest)
    );
}

#[test]
fn missing_count_is_malformed() {
    assert_eq!(
        StartRequest::from_json(r#"{}"#),
        Err(DecodeError::MalformedRequest)
    );
    assert_eq!(
        StartRequest::from_json(r#"{"Count": 5}"#),
        Err(DecodeError::MalformedRequest)
    );
}

#[test]
fn text_that_is_no_json_is_malformed() {
    assert_eq!(
        StartRequest::from_json(""),
        Err(DecodeError::MalformedRequest)
    );
    assert_eq!(
        StartRequest::from_json("{\"count\": 5"),
        Err(DecodeError::MalformedRequest)
    );
    assert_eq!(
        StartRequest::from_json("count = 5"),
        Err(DecodeError::MalformedRequest)
    );
    assert_eq!(
        StartRequest::from_json("5"),
        Err(DecodeError::MalformedRequest)
    );
}

#[test]
fn count_at_the_edges_of_the_range() {
    assert_eq!(
        StartRequest::from_json(r#"{"count": 0}"#),
        Ok(StartRequest { count: 0 })
    );
    assert_eq!(
        StartRequest::from_json(r#"{"count": 4294967295}"#),
        Ok(StartRequest { count: u32::MAX })
    );
    assert_eq!(
        StartRequest::from_json(r#"{"count": 4294967296}"#),
        Err(DecodeError::MalformedRequest)
    );
}

#[test]
fn other_members_are_left_aside() {
    assert_eq!(
        StartRequest::from_json(r#"{"note": "night shift", "count": 7}"#),
        Ok(StartRequest { count: 7 })
    );
}

#[test]
fn from_count_takes_what_fits() {
    assert_eq!(
        StartRequest::from_count(Some(3)),
        Ok(StartRequest { count: 3 })
    );
    assert_eq!(
        StartRequest::from_count(Some(u32::MAX as u64)),
        Ok(StartRequest { count: u32::MAX })
    );
    assert_eq!(
        StartRequest::from_count(Some(u32::MAX as u64 + 1)),
        Err(DecodeError::MalformedRequest)
    );
    assert_eq!(
        StartRequest::from_count(None),
        Err(DecodeError::MalformedRequest)
    );
}

#[test]
fn command_on_the_config_topic_starts_a_cycle() {
    let identity = DeviceIdentity::new("project", "region", "registry", "cell-7");
    let inbound = receive(&identity, "/devices/cell-7/config", r#"{"count": 3}"#);
    assert_eq!(inbound, Inbound::Start(StartRequest { count: 3 }));
}

#[test]
fn malformed_command_is_rejected_and_the_next_is_taken() {
    let identity = DeviceIdentity::new("project", "region", "registry", "cell-7");
    let first = receive(&identity, "/devices/cell-7/config", r#"{"count": -5}"#);
    assert_eq!(first, Inbound::Rejected(DecodeError::MalformedRequest));
    let second = receive(&identity, "/devices/cell-7/config", r#"{"count": 2}"#);
    assert_eq!(second, Inbound::Start(StartRequest { count: 2 }));
}

#[test]
fn message_on_another_topic_is_ignored() {
    let identity = DeviceIdentity::new("project", "region", "registry", "cell-7");
    assert_eq!(
        receive(&identity, "/devices/cell-8/config", r#"{"count": 3}"#),
        Inbound::Ignored
    );
    assert_eq!(
        receive(&identity, "/devices/cell-7/events/robot", r#"{"count": 3}"#),
        Inbound::Ignored
    );
    assert_eq!(
        receive(&identity, "/devices/cell-7/config/", "not json"),
        Inbound::Ignored
    );
}
