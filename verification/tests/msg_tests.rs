use sip2_gateway::sipmsg::{Field, Message};

#[test]
fn first_matching_field_wins() {
    let msg = Message::new(
        "63".to_string(),
        Vec::new(),
        vec![
            Field::new("AA", "first"),
            Field::new("AB", "other"),
            Field::new("AA", "second"),
        ],
    );
    assert_eq!(msg.get_field_value("AA").unwrap().as_str(), "first");
    assert_eq!(msg.get_field_value("AB").unwrap().as_str(), "other");
    assert!(msg.get_field_value("ZZ").is_none());
}

#[test]
fn add_field_appends_in_order() {
    let mut msg = Message::new("98".to_string(), Vec::new(), Vec::new());
    msg.add_field("BX", "YY");
    msg.add_field("AO", "example");
    assert_eq!(msg.fields.len(), 2);
    assert_eq!(msg.fields[0].code.as_str(), "BX");
    assert_eq!(msg.fields[1].value.as_str(), "example");
}

#[test]
fn maybe_add_field_only_adds_present_values() {
    let mut msg = Message::new("38".to_string(), Vec::new(), Vec::new());
    msg.maybe_add_field("AF", None);
    assert!(msg.fields.is_empty());
    msg.maybe_add_field("AF", Some("note"));
    assert_eq!(msg.fields.len(), 1);
    assert_eq!(msg.fields[0].code.as_str(), "AF");
    assert_eq!(msg.fields[0].value.as_str(), "note");
}

#[test]
fn wire_text_concatenates_code_fixed_and_tagged_fields() {
    let msg = Message::new(
        "93".to_string(),
        vec!["0".to_string(), "0".to_string()],
        vec![
            Field::new("CN", "sip_username"),
            Field::new("CO", "sip_password"),
        ],
    );
    assert_eq!(msg.to_sip().as_str(), "9300CNsip_username|COsip_password|");
}

#[test]
fn wire_text_of_fixed_fields_only() {
    let msg = Message::new(
        "99".to_string(),
        vec!["0".to_string(), "999".to_string(), "2.00".to_string()],
        Vec::new(),
    );
    assert_eq!(msg.to_sip().as_str(), "9909992.00");
}

#[test]
fn wire_text_of_bare_code() {
    let msg = Message::new("97".to_string(), Vec::new(), Vec::new());
    assert_eq!(msg.to_sip().as_str(), "97");
}

#[test]
fn wire_text_parses_back_through_the_protocol_crate() {
    let msg = Message::new(
        "93".to_string(),
        vec!["0".to_string(), "0".to_string()],
        vec![
            Field::new("CN", "sip-user"),
            Field::new("CO", "sip-pass"),
        ],
    );
    let parsed = sip2::Message::from_sip(&msg.to_sip()).unwrap();
    assert_eq!(parsed.spec().code, "93");
    assert_eq!(parsed.fixed_fields().len(), 2);
    assert_eq!(parsed.fixed_fields()[0].value(), "0");
    assert_eq!(parsed.fields().len(), 2);
    assert_eq!(parsed.fields()[0].code(), "CN");
    assert_eq!(parsed.fields()[0].value(), "sip-user");
    assert_eq!(parsed.fields()[1].code(), "CO");
    assert_eq!(parsed.fields()[1].value(), "sip-pass");
}
