use sip2_gateway::sipmsg::{Field, Message};
use sip2_gateway::wire::from_sip;

#[test]
fn decode_recovers_an_encoded_login() {
    let msg = Message::new(
        "93".to_string(),
        vec!["0".to_string(), "0".to_string()],
        vec![
            Field::new("CN", "sip-user"),
            Field::new("CO", "sip-pass"),
        ],
    );
    let decoded = from_sip(&msg.to_sip()).unwrap();
    assert_eq!(decoded.code.as_str(), "93");
    assert_eq!(decoded.fixed_fields.len(), 2);
    assert_eq!(decoded.fixed_fields[0].as_str(), "0");
    assert_eq!(decoded.fields.len(), 2);
    assert_eq!(decoded.fields[0].code.as_str(), "CN");
    assert_eq!(decoded.fields[0].value.as_str(), "sip-user");
    assert_eq!(decoded.fields[1].code.as_str(), "CO");
    assert_eq!(decoded.fields[1].value.as_str(), "sip-pass");
}

#[test]
fn decode_recovers_an_encoded_fee_paid_request() {
    let msg = Message::new(
        "37".to_string(),
        vec![
            "20240101    120000".to_string(),
            "01".to_string(),
            "00".to_string(),
            "USD".to_string(),
        ],
        vec![
            Field::new("AA", "patron-1"),
            Field::new("BV", "7.00"),
        ],
    );
    let decoded = from_sip(&msg.to_sip()).unwrap();
    assert_eq!(decoded.code.as_str(), "37");
    assert_eq!(decoded.fixed_fields.len(), 4);
    assert_eq!(decoded.fixed_fields[0].as_str(), "20240101    120000");
    assert_eq!(decoded.fixed_fields[3].as_str(), "USD");
    assert_eq!(decoded.get_field_value("BV").unwrap().as_str(), "7.00");
}

#[test]
fn decode_splits_fixed_fields_by_width() {
    let decoded = from_sip("9909992.00").unwrap();
    assert_eq!(decoded.code.as_str(), "99");
    assert_eq!(decoded.fixed_fields.len(), 3);
    assert_eq!(decoded.fixed_fields[0].as_str(), "0");
    assert_eq!(decoded.fixed_fields[1].as_str(), "999");
    assert_eq!(decoded.fixed_fields[2].as_str(), "2.00");
    assert!(decoded.fields.is_empty());
}

#[test]
fn decode_accepts_an_empty_field_value() {
    let decoded = from_sip("9300CN|").unwrap();
    assert_eq!(decoded.fields.len(), 1);
    assert_eq!(decoded.fields[0].code.as_str(), "CN");
    assert_eq!(decoded.fields[0].value.as_str(), "");
}

#[test]
fn decode_rejects_malformed_wire_text() {
    assert!(from_sip("").is_err());
    assert!(from_sip("9").is_err());
    assert!(from_sip("ZZ").is_err());
    assert!(from_sip("930").is_err());
    assert!(from_sip("9300CN").is_err());
    assert!(from_sip("9300x|").is_err());
}
