use sip2_gateway::conf::Config;
use sip2_gateway::payment::{
    pay_error_message, parse_payment_request, payment_note, PayError, PaymentResult, XactSummary,
    XactTarget,
};
use sip2_gateway::session::Session;
use sip2_gateway::sipmsg::{Field, Message};

fn session_with_account() -> Session {
    let mut config = Config::new(5, "127.0.0.1", 6001, true, true);
    config.accounts.push(sip2_gateway::conf::SipAccount::new(
        "sip-user", "sip-pass", "staff-user", "example",
    ));
    let mut ses = Session::new(config, 1);
    let login = Message::new(
        "93".to_string(),
        vec!["0".to_string(), "0".to_string()],
        vec![
            Field::new("CN", "sip-user"),
            Field::new("CO", "sip-pass"),
        ],
    );
    ses.handle_login(&login).unwrap();
    assert!(ses.account().is_some());
    ses
}

#[test]
fn targeted_exact_amount_pays_in_full() {
    let ses = session_with_account();
    let x = XactSummary { id: 7, usr: 42, balance_owed: 500 };
    let pays = ses.compile_one_xact(7, Some(&x), 42, 500).unwrap();
    assert_eq!(pays, vec![(7, 500)]);
}

#[test]
fn targeted_partial_amount_is_permitted() {
    let ses = session_with_account();
    let x = XactSummary { id: 7, usr: 42, balance_owed: 500 };
    let pays = ses.compile_one_xact(7, Some(&x), 42, 499).unwrap();
    assert_eq!(pays, vec![(7, 499)]);
}

#[test]
fn targeted_one_cent_over_is_overpayment() {
    let ses = session_with_account();
    let x = XactSummary { id: 7, usr: 42, balance_owed: 500 };
    let r = ses.compile_one_xact(7, Some(&x), 42, 501);
    assert!(matches!(r, Err(PayError::Overpayment)));
}

#[test]
fn targeted_missing_transaction_is_not_found() {
    let ses = session_with_account();
    let r = ses.compile_one_xact(7, None, 42, 100);
    assert!(matches!(r, Err(PayError::NotFound)));
}

#[test]
fn targeted_foreign_transaction_is_not_found() {
    let ses = session_with_account();
    let x = XactSummary { id: 7, usr: 99, balance_owed: 500 };
    let r = ses.compile_one_xact(7, Some(&x), 42, 100);
    assert!(matches!(r, Err(PayError::NotFound)));
}

#[test]
fn untargeted_distributes_in_backend_order() {
    let ses = session_with_account();
    let xacts = vec![
        XactSummary { id: 1, usr: 42, balance_owed: 500 },
        XactSummary { id: 2, usr: 42, balance_owed: 300 },
        XactSummary { id: 3, usr: 42, balance_owed: 1000 },
    ];
    let pays = ses.compile_multi_xacts(&xacts, 700).unwrap();
    assert_eq!(pays, vec![(1, 500), (2, 200)]);
}

#[test]
fn untargeted_exceeding_total_is_overpayment() {
    let ses = session_with_account();
    let xacts = vec![XactSummary { id: 1, usr: 42, balance_owed: 500 }];
    let r = ses.compile_multi_xacts(&xacts, 1000);
    assert!(matches!(r, Err(PayError::Overpayment)));
}

#[test]
fn untargeted_exceeding_total_across_several_balances_is_overpayment() {
    let ses = session_with_account();
    let xacts = vec![
        XactSummary { id: 1, usr: 42, balance_owed: 200 },
        XactSummary { id: 2, usr: 42, balance_owed: 300 },
    ];
    let r = ses.compile_multi_xacts(&xacts, 600);
    assert!(matches!(r, Err(PayError::Overpayment)));
}

#[test]
fn untargeted_without_transactions_is_nothing_to_pay() {
    let ses = session_with_account();
    let r = ses.compile_multi_xacts(&Vec::new(), 1000);
    assert!(matches!(r, Err(PayError::NothingToPay)));
}

#[test]
fn untargeted_skips_nonpositive_balances() {
    let ses = session_with_account();
    let xacts = vec![
        XactSummary { id: 1, usr: 42, balance_owed: 0 },
        XactSummary { id: 2, usr: 42, balance_owed: -100 },
        XactSummary { id: 3, usr: 42, balance_owed: 500 },
    ];
    let pays = ses.compile_multi_xacts(&xacts, 500).unwrap();
    assert_eq!(pays, vec![(3, 500)]);
}

#[test]
fn untargeted_exact_total_consumes_every_balance() {
    let ses = session_with_account();
    let xacts = vec![
        XactSummary { id: 1, usr: 42, balance_owed: 250 },
        XactSummary { id: 2, usr: 42, balance_owed: 250 },
    ];
    let pays = ses.compile_multi_xacts(&xacts, 500).unwrap();
    assert_eq!(pays, vec![(1, 250), (2, 250)]);
}

#[test]
fn register_login_with_domain_keeps_user_part() {
    let note = payment_note(Some("DOMAIN\\jdoe"));
    assert_eq!(note.as_str(), "Via SIP2: Register login 'jdoe'");
}

#[test]
fn register_login_without_backslash_is_unchanged() {
    let note = payment_note(Some("jdoe"));
    assert_eq!(note.as_str(), "Via SIP2: Register login 'jdoe'");
}

#[test]
fn absent_register_login_gives_generic_note() {
    let note = payment_note(None);
    assert_eq!(note.as_str(), "VIA SIP2");
}

#[test]
fn pay_error_messages_name_their_condition() {
    assert_eq!(
        pay_error_message(&PayError::Overpayment).unwrap().as_str(),
        "Overpayment not allowed"
    );
    assert_eq!(
        pay_error_message(&PayError::NothingToPay).unwrap().as_str(),
        "No transactions to pay"
    );
    assert!(pay_error_message(&PayError::NotFound).is_none());
}

fn fee_paid_message(fields: Vec<Field>) -> Message {
    Message::new(
        "37".to_string(),
        vec![
            "20240101    120000".to_string(),
            "01".to_string(),
            "00".to_string(),
            "USD".to_string(),
        ],
        fields,
    )
}

#[test]
fn payment_request_reads_all_fields() {
    let msg = fee_paid_message(vec![
        Field::new("AA", "patron-1"),
        Field::new("BV", "7.00"),
        Field::new("CG", "31"),
        Field::new("OR", "DOMAIN\\jdoe"),
        Field::new("RN", "555"),
        Field::new("BK", "txn-9"),
    ]);
    let pr = parse_payment_request(&msg).unwrap();
    assert_eq!(pr.fee_type.as_str(), "01");
    assert_eq!(pr.pay_type.as_str(), "00");
    assert_eq!(pr.patron_barcode.as_str(), "patron-1");
    assert_eq!(pr.pay_amount, 700);
    assert!(matches!(pr.target, XactTarget::Targeted(31)));
    assert_eq!(pr.register_login.as_deref(), Some("DOMAIN\\jdoe"));
    assert_eq!(pr.check_number.as_deref(), Some("555"));
    assert_eq!(pr.terminal_xact.as_deref(), Some("txn-9"));
}

#[test]
fn payment_request_without_target_is_untargeted() {
    let msg = fee_paid_message(vec![Field::new("AA", "p"), Field::new("BV", "1.50")]);
    let pr = parse_payment_request(&msg).unwrap();
    assert_eq!(pr.pay_amount, 150);
    assert!(matches!(pr.target, XactTarget::Untargeted));
    assert!(pr.register_login.is_none());
}

#[test]
fn payment_request_with_unreadable_target_is_malformed() {
    let msg = fee_paid_message(vec![
        Field::new("AA", "p"),
        Field::new("BV", "1.00"),
        Field::new("CG", "not-a-number"),
    ]);
    let pr = parse_payment_request(&msg).unwrap();
    assert!(matches!(pr.target, XactTarget::Malformed));
}

#[test]
fn payment_request_missing_barcode_is_rejected() {
    let msg = fee_paid_message(vec![Field::new("BV", "1.00")]);
    assert!(parse_payment_request(&msg).is_err());
}

#[test]
fn payment_request_missing_amount_is_rejected() {
    let msg = fee_paid_message(vec![Field::new("AA", "p")]);
    assert!(parse_payment_request(&msg).is_err());
}

#[test]
fn payment_request_with_bad_amount_is_rejected() {
    let msg = fee_paid_message(vec![Field::new("AA", "p"), Field::new("BV", "1.2.3")]);
    assert!(parse_payment_request(&msg).is_err());
}

#[test]
fn fee_paid_response_carries_result() {
    let ses = session_with_account();
    let mut result = PaymentResult::new("patron-1");
    result.screen_msg = Some("Overpayment not allowed".to_string());
    let resp = ses.compile_response(&result);
    assert_eq!(resp.code.as_str(), "38");
    assert_eq!(resp.fixed_fields.len(), 2);
    assert_eq!(resp.fixed_fields[0].as_str(), "0");
    assert_eq!(resp.fixed_fields[1].len(), 18);
    assert_eq!(resp.fields[0].code.as_str(), "AA");
    assert_eq!(resp.fields[0].value.as_str(), "patron-1");
    assert_eq!(resp.fields[1].code.as_str(), "AO");
    assert_eq!(resp.fields[1].value.as_str(), "example");
    assert_eq!(resp.fields[2].code.as_str(), "AF");
    assert_eq!(resp.fields[2].value.as_str(), "Overpayment not allowed");
}

#[test]
fn fee_paid_response_on_success_has_no_message() {
    let ses = session_with_account();
    let mut result = PaymentResult::new("patron-1");
    result.success = true;
    let resp = ses.compile_response(&result);
    assert_eq!(resp.fixed_fields[0].as_str(), "1");
    assert_eq!(resp.fields.len(), 2);
    assert!(result.success());
    assert_eq!(result.patron_barcode().as_str(), "patron-1");
    assert!(result.screen_msg().is_none());
}
