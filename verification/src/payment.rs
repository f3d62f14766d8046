//! The payment engine: how a tendered amount is distributed across one or
//! more outstanding balances.  Amounts are in hundredths of the currency
//! unit throughout.  The engine never overpays: every allocated amount is
//! bounded by the balance owed it is applied to, and the sum of the
//! allocations never exceeds the tendered amount.

use vstd::prelude::*;
use vstd::string::StringExecFns;
use crate::session::{Session, SipError};
use crate::sipmsg::{Message, find_field};
use crate::text;

verus! {

/// The payment engine's failure modes.
#[derive(Debug)]
pub enum PayError {
    /// The named transaction does not exist or is not the patron's.
    NotFound,
    /// The tendered amount exceeds what can legitimately be applied.
    Overpayment,
    /// The patron has no open transactions at all.
    NothingToPay,
}

/// The running outcome of one payment request, carried into the response.
pub struct PaymentResult {
    pub success: bool,
    pub patron_barcode: String,
    pub screen_msg: Option<String>,
}

impl PaymentResult {
    pub fn new(patron_barcode: &str) -> (r: PaymentResult)
        ensures
            r.success == false,
            r.screen_msg is None,
            r.patron_barcode@ == patron_barcode@,
    {
        PaymentResult {
            success: false,
            screen_msg: None,
            patron_barcode: String::from_str(patron_barcode),
        }
    }

    pub fn success(&self) -> (r: bool)
        ensures
            r == self.success,
    {
        self.success
    }

    pub fn patron_barcode(&self) -> (r: &String)
        ensures
            r == self.patron_barcode,
    {
        &self.patron_barcode
    }

    pub fn screen_msg(&self) -> (r: Option<&String>)
        ensures
            match r {
                Some(m) => self.screen_msg == Some(*m),
                None => self.screen_msg is None,
            },
    {
        self.screen_msg.as_ref()
    }
}

/// One open transaction: its id, its owning patron, and the balance owed on
/// it, in hundredths.
#[derive(Clone, Copy)]
pub struct XactSummary {
    pub id: i64,
    pub usr: i64,
    pub balance_owed: i64,
}

/// Whether a payment names a transaction, and which.
pub enum XactTarget {
    /// No transaction named: pay across the patron's open transactions.
    Untargeted,
    /// Pay toward this transaction alone.
    Targeted(i64),
    /// A transaction field was sent but is not a number.
    Malformed,
}

/// What a fee-paid request asks for.
pub struct PaymentRequest {
    pub fee_type: String,
    pub pay_type: String,
    pub patron_barcode: String,
    /// Tendered amount, in hundredths.
    pub pay_amount: i64,
    pub target: XactTarget,
    pub register_login: Option<String>,
    pub check_number: Option<String>,
    pub terminal_xact: Option<String>,
}

/// The allocation the untargeted walk produces, and what remains
/// unallocated afterwards.  Transactions are visited in the order the
/// backend returned them; ones without a positive balance are skipped; each
/// visited transaction absorbs its full balance until the remainder fits
/// within a single balance, which absorbs all of it.
pub open spec fn allocate(xacts: Seq<XactSummary>, remaining: int) -> (Seq<(i64, i64)>, int)
    decreases xacts.len(),
{
    if xacts.len() == 0 {
        (Seq::empty(), remaining)
    } else {
        let x = xacts[0];
        if x.balance_owed <= 0 {
            allocate(xacts.drop_first(), remaining)
        } else if x.balance_owed >= remaining {
            (seq![(x.id, remaining as i64)], 0)
        } else {
            let rest = allocate(xacts.drop_first(), remaining - x.balance_owed);
            (seq![(x.id, x.balance_owed)] + rest.0, rest.1)
        }
    }
}

/// The sum of the amounts in an allocation.
pub open spec fn pay_sum(pays: Seq<(i64, i64)>) -> int
    decreases pays.len(),
{
    if pays.len() == 0 {
        0
    } else {
        pays[0].1 + pay_sum(pays.drop_first())
    }
}

/// Law: every allocation is sound.  Nothing remains negative; the allocated
/// amounts and the remainder account exactly for the tendered amount, so
/// the sum of the allocations never exceeds it; and each allocated amount
/// is nonnegative and bounded by the balance owed of a transaction in the
/// list that bears its id.
pub proof fn lemma_allocation_sound(xacts: Seq<XactSummary>, remaining: int)
    requires
        0 <= remaining <= i64::MAX,
    ensures
        0 <= allocate(xacts, remaining).1 <= remaining,
        pay_sum(allocate(xacts, remaining).0) + allocate(xacts, remaining).1 == remaining,
        forall|k: int|
            0 <= k < allocate(xacts, remaining).0.len() ==> 0 <= #[trigger] allocate(
                xacts,
                remaining,
            ).0[k].1,
        forall|k: int|
            0 <= k < allocate(xacts, remaining).0.len() ==> exists|j: int|
                0 <= j < xacts.len() && (#[trigger] xacts[j]).id == (#[trigger] allocate(
                    xacts,
                    remaining,
                ).0[k]).0 && allocate(xacts, remaining).0[k].1 <= xacts[j].balance_owed,
    decreases xacts.len(),
{
    let a = allocate(xacts, remaining);
    if xacts.len() == 0 {
    } else {
        let x = xacts[0];
        let tail = xacts.drop_first();
        if x.balance_owed <= 0 {
            lemma_allocation_sound(tail, remaining);
            assert forall|k: int| #![trigger a.0[k]] 0 <= k < a.0.len() implies exists|j: int|
                0 <= j < xacts.len() && (#[trigger] xacts[j]).id == a.0[k].0 && a.0[k].1
                    <= xacts[j].balance_owed by {
                let j0 = choose|j: int|
                    0 <= j < tail.len() && tail[j].id == a.0[k].0 && a.0[k].1
                        <= tail[j].balance_owed;
                assert(xacts[j0 + 1] == tail[j0]);
            }
        } else if x.balance_owed >= remaining {
            assert(a.0 == seq![(x.id, remaining as i64)]);
            assert(pay_sum(a.0.drop_first()) == 0);
            assert forall|k: int| #![trigger a.0[k]] 0 <= k < a.0.len() implies exists|j: int|
                0 <= j < xacts.len() && (#[trigger] xacts[j]).id == a.0[k].0 && a.0[k].1
                    <= xacts[j].balance_owed by {
                assert(xacts[0].id == a.0[0].0 && a.0[0].1 <= xacts[0].balance_owed);
            }
        } else {
            lemma_allocation_sound(tail, remaining - x.balance_owed);
            let rest = allocate(tail, remaining - x.balance_owed);
            assert(a.0 == seq![(x.id, x.balance_owed)] + rest.0);
            assert(a.0.drop_first() =~= rest.0);
            assert(pay_sum(a.0) == x.balance_owed + pay_sum(rest.0));
            assert forall|k: int| #![trigger a.0[k]] 0 <= k < a.0.len() implies exists|j: int|
                0 <= j < xacts.len() && (#[trigger] xacts[j]).id == a.0[k].0 && a.0[k].1
                    <= xacts[j].balance_owed by {
                if k == 0 {
                    assert(xacts[0].id == a.0[0].0 && a.0[0].1 <= xacts[0].balance_owed);
                } else {
                    assert(a.0[k] == rest.0[k - 1]);
                    let j0 = choose|j: int|
                        0 <= j < tail.len() && tail[j].id == rest.0[k - 1].0 && rest.0[k - 1].1
                            <= tail[j].balance_owed;
                    assert(xacts[j0 + 1] == tail[j0]);
                }
            }
        }
    }
}

/// The total positive balance owed across a list of transactions.
pub open spec fn pos_balance_sum(xacts: Seq<XactSummary>) -> int
    decreases xacts.len(),
{
    if xacts.len() == 0 {
        0
    } else {
        (if xacts[0].balance_owed > 0 {
            xacts[0].balance_owed as int
        } else {
            0
        }) + pos_balance_sum(xacts.drop_first())
    }
}

/// Law: what remains after the untargeted walk is exactly the excess of the
/// tendered amount over the total positive balance owed.  A tender within
/// the total is fully distributed; one exceeding the total leaves exactly
/// the excess unallocated, so the walk ends in the overpayment failure —
/// the partial allocation is discarded and nothing is applied.
pub proof fn lemma_overpayment_exceeds_outstanding(xacts: Seq<XactSummary>, amount: int)
    requires
        0 <= amount <= i64::MAX,
    ensures
        pos_balance_sum(xacts) >= 0,
        allocate(xacts, amount).1 == (if amount > pos_balance_sum(xacts) {
            amount - pos_balance_sum(xacts)
        } else {
            0
        }),
    decreases xacts.len(),
{
    if xacts.len() > 0 {
        let x = xacts[0];
        let tail = xacts.drop_first();
        if x.balance_owed <= 0 {
            lemma_overpayment_exceeds_outstanding(tail, amount);
        } else if x.balance_owed >= amount {
            lemma_overpayment_exceeds_outstanding(tail, 0);
            assert(amount <= pos_balance_sum(xacts));
        } else {
            lemma_overpayment_exceeds_outstanding(tail, amount - x.balance_owed);
        }
    }
}

/// Law: an untargeted walk that leaves nothing unallocated has distributed
/// the tendered amount exactly.
pub proof fn lemma_success_pays_in_full(xacts: Seq<XactSummary>, amount: int)
    requires
        0 <= amount <= i64::MAX,
        allocate(xacts, amount).1 == 0,
    ensures
        pay_sum(allocate(xacts, amount).0) == amount,
{
    lemma_allocation_sound(xacts, amount);
}

impl Session {
    /// Targeted payment: the named transaction must exist and belong to the
    /// paying patron, and the tendered amount must not exceed its balance
    /// owed.  A partial payment toward it is permitted; the allocation is
    /// then the single pair of the transaction and the full tendered
    /// amount.
    pub fn compile_one_xact(
        &self,
        xact_id: i64,
        xact: Option<&XactSummary>,
        user_id: i64,
        pay_amount: i64,
    ) -> (r: Result<Vec<(i64, i64)>, PayError>)
        requires
            pay_amount >= 0,
            xact matches Some(x) ==> x.id == xact_id,
        ensures
            match xact {
                None => r matches Err(e) && e is NotFound,
                Some(x) => {
                    if x.usr != user_id {
                        r matches Err(e) && e is NotFound
                    } else if pay_amount > x.balance_owed {
                        r matches Err(e) && e is Overpayment
                    } else {
                        r matches Ok(v) && v@ == seq![(xact_id, pay_amount)]
                    }
                },
            },
    {
        let x = match xact {
            Some(x) => x,
            None => {
                return Err(PayError::NotFound);
            },
        };
        if x.usr != user_id {
            return Err(PayError::NotFound);
        }
        if pay_amount > x.balance_owed {
            return Err(PayError::Overpayment);
        }
        let mut v: Vec<(i64, i64)> = Vec::new();
        v.push((xact_id, pay_amount));
        proof {
            assert(v@ =~= seq![(xact_id, pay_amount)]);
        }
        Ok(v)
    }

    /// Untargeted payment: walk the patron's open transactions in the order
    /// the backend returned them and distribute the tendered amount.  No
    /// transactions at all is its own failure; an amount that exceeds the
    /// total outstanding is an overpayment, and nothing is allocated.
    pub fn compile_multi_xacts(&self, xacts: &Vec<XactSummary>, pay_amount: i64) -> (r: Result<
        Vec<(i64, i64)>,
        PayError,
    >)
        requires
            pay_amount >= 0,
        ensures
            xacts@.len() == 0 ==> (r matches Err(e) && e is NothingToPay),
            xacts@.len() > 0 && allocate(xacts@, pay_amount as int).1 > 0 ==> (r matches Err(e)
                && e is Overpayment),
            xacts@.len() > 0 && allocate(xacts@, pay_amount as int).1 == 0 ==> (r matches Ok(v)
                && v@ == allocate(xacts@, pay_amount as int).0),
    {
        let n = xacts.len();
        if n == 0 {
            return Err(PayError::NothingToPay);
        }
        proof {
            lemma_allocation_sound(xacts@, pay_amount as int);
            assert(xacts@.skip(0) =~= xacts@);
            assert(Seq::<(i64, i64)>::empty() + allocate(xacts@, pay_amount as int).0 =~= allocate(
                xacts@,
                pay_amount as int,
            ).0);
        }
        let mut pays: Vec<(i64, i64)> = Vec::new();
        let mut remaining: i64 = pay_amount;
        let mut i: usize = 0;
        while i < n
            invariant_except_break
                i <= n,
                n == xacts@.len(),
                0 <= remaining <= pay_amount,
                allocate(xacts@, pay_amount as int).0 == pays@ + allocate(
                    xacts@.skip(i as int),
                    remaining as int,
                ).0,
                allocate(xacts@, pay_amount as int).1 == allocate(
                    xacts@.skip(i as int),
                    remaining as int,
                ).1,
            ensures
                pays@ == allocate(xacts@, pay_amount as int).0,
                remaining == allocate(xacts@, pay_amount as int).1,
            decreases n - i,
        {
            let ghost suffix = xacts@.skip(i as int);
            proof {
                assert(suffix[0] == xacts@[i as int]);
                assert(suffix.drop_first() =~= xacts@.skip(i + 1));
            }
            let x = xacts[i];
            let ghost pays0 = pays@;
            let ghost rem0 = remaining;
            if x.balance_owed <= 0 {
                i += 1;
            } else if x.balance_owed >= remaining {
                pays.push((x.id, remaining));
                remaining = 0;
                proof {
                    assert(allocate(suffix, rem0 as int).0 == seq![(x.id, rem0)]);
                    assert(pays@ =~= pays0 + seq![(x.id, rem0)]);
                }
                break ;
            } else {
                pays.push((x.id, x.balance_owed));
                remaining = remaining - x.balance_owed;
                proof {
                    let rest = allocate(xacts@.skip(i + 1), remaining as int);
                    assert(allocate(suffix, rem0 as int).0 == seq![(x.id, x.balance_owed)]
                        + rest.0);
                    assert(pays@ =~= pays0 + seq![(x.id, x.balance_owed)]);
                    assert(pays0 + (seq![(x.id, x.balance_owed)] + rest.0) =~= pays@ + rest.0);
                }
                i += 1;
            }
        }
        proof {
            assert(xacts@.skip(n as int).len() == 0);
        }
        if remaining > 0 {
            return Err(PayError::Overpayment);
        }
        Ok(pays)
    }

    /// The fee-paid response: code 38, a success flag and the current date,
    /// the patron barcode and the institution, and the screen message when
    /// the result carries one.
    pub fn compile_response(&self, result: &PaymentResult) -> (resp: Message)
        requires
            self.account is Some,
        ensures
            resp.code@ == "38"@,
            resp.fixed_fields@.len() == 2,
            resp.fixed_fields@[0]@ == (if result.success {
                "1"@
            } else {
                "0"@
            }),
            resp.fields@.len() == (if result.screen_msg is Some {
                3int
            } else {
                2int
            }),
            resp.fields@[0].code@ == "AA"@ && resp.fields@[0].value@ == result.patron_barcode@,
            resp.fields@[1].code@ == "AO"@ && resp.fields@[1].value@
                == self.account.unwrap().settings.institution@,
            result.screen_msg matches Some(m) ==> resp.fields@[2].code@ == "AF"@
                && resp.fields@[2].value@ == m@,
    {
        let flag = if result.success {
            "1"
        } else {
            "0"
        };
        let mut fixed: Vec<String> = Vec::new();
        fixed.push(String::from_str(flag));
        fixed.push(crate::session::sip_date_now());
        let mut resp = Message::new(String::from_str("38"), fixed, Vec::new());
        resp.add_field("AA", result.patron_barcode.as_str());
        let inst = match self.account.as_ref() {
            Some(a) => a.settings.institution.clone(),
            None => String::new(),
        };
        resp.add_field("AO", inst.as_str());
        let msg_ref = match result.screen_msg.as_ref() {
            Some(m) => Some(m.as_str()),
            None => None,
        };
        resp.maybe_add_field("AF", msg_ref);
        resp
    }
}

/// The tags and fixed fields a fee-paid request must carry to be readable:
/// three fixed fields, a patron barcode, and a well-formed tendered amount.
pub open spec fn payment_fields_ok(m: Message) -> bool {
    &&& m.fixed_fields@.len() >= 3
    &&& find_field(m.fields@, "AA"@) is Some
    &&& find_field(m.fields@, "BV"@) is Some
    &&& text::money_wf(find_field(m.fields@, "BV"@).unwrap())
    &&& text::money_cents(find_field(m.fields@, "BV"@).unwrap()) <= i64::MAX
}

/// Read a fee-paid request.  The fee and payment types are the second and
/// third fixed fields; the patron barcode and tendered amount are required
/// variable fields; the target transaction, register login, check number
/// and terminal transaction id are optional.
pub fn parse_payment_request(msg: &Message) -> (r: Result<PaymentRequest, SipError>)
    ensures
        r is Ok <==> payment_fields_ok(*msg),
        r matches Err(e) ==> e matches SipError::Protocol(_),
        r matches Ok(pr) ==> {
            &&& pr.fee_type@ == msg.fixed_fields@[1]@
            &&& pr.pay_type@ == msg.fixed_fields@[2]@
            &&& find_field(msg.fields@, "AA"@) == Some(pr.patron_barcode@)
            &&& pr.pay_amount == text::money_cents(find_field(msg.fields@, "BV"@).unwrap())
            &&& pr.pay_amount >= 0
            &&& match find_field(msg.fields@, "CG"@) {
                None => pr.target is Untargeted,
                Some(cg) => {
                    if text::int_str_wf(cg) && i64::MIN <= text::int_str_val(cg)
                        <= i64::MAX {
                        pr.target matches XactTarget::Targeted(x) && x == text::int_str_val(cg)
                    } else {
                        pr.target is Malformed
                    }
                },
            }
            &&& match pr.register_login {
                Some(s) => find_field(msg.fields@, "OR"@) == Some(s@),
                None => find_field(msg.fields@, "OR"@) is None,
            }
            &&& match pr.check_number {
                Some(s) => find_field(msg.fields@, "RN"@) == Some(s@),
                None => find_field(msg.fields@, "RN"@) is None,
            }
            &&& match pr.terminal_xact {
                Some(s) => find_field(msg.fields@, "BK"@) == Some(s@),
                None => find_field(msg.fields@, "BK"@) is None,
            }
        },
{
    if msg.fixed_fields.len() < 3 {
        return Err(SipError::Protocol(String::from_str("payment request missing fixed fields")));
    }
    let fee_type = msg.fixed_fields[1].clone();
    let pay_type = msg.fixed_fields[2].clone();
    let patron_barcode = match msg.get_field_value("AA") {
        Some(v) => v.clone(),
        None => {
            return Err(SipError::Protocol(String::from_str("payment missing patron barcode")));
        },
    };
    let pay_amount = match msg.get_field_value("BV") {
        Some(v) => {
            match text::parse_money_str(v.as_str()) {
                Some(c) => c,
                None => {
                    return Err(SipError::Protocol(String::from_str("Invalid payment amount")));
                },
            }
        },
        None => {
            return Err(SipError::Protocol(String::from_str("payment missing pay amount")));
        },
    };
    let target = match msg.get_field_value("CG") {
        Some(cg) => {
            match text::parse_int_str(cg.as_str()) {
                Some(n) => XactTarget::Targeted(n),
                None => XactTarget::Malformed,
            }
        },
        None => XactTarget::Untargeted,
    };
    let register_login = match msg.get_field_value("OR") {
        Some(v) => Some(v.clone()),
        None => None,
    };
    let check_number = match msg.get_field_value("RN") {
        Some(v) => Some(v.clone()),
        None => None,
    };
    let terminal_xact = match msg.get_field_value("BK") {
        Some(v) => Some(v.clone()),
        None => None,
    };
    Ok(
        PaymentRequest {
            fee_type,
            pay_type,
            patron_barcode,
            pay_amount,
            target,
            register_login,
            check_number,
            terminal_xact,
        },
    )
}

/// The note an applied payment carries.  A register login of the form
/// `DOMAIN\user` keeps only what follows the last backslash; one without a
/// backslash is used as given; without a register login the note is the
/// fixed generic one.
pub fn payment_note(register_login: Option<&str>) -> (r: String)
    ensures
        match register_login {
            Some(rl) => r@ == "Via SIP2: Register login '"@ + text::after_last_backslash(rl@)
                + "'"@,
            None => r@ == "VIA SIP2"@,
        },
{
    match register_login {
        Some(rl) => {
            let login = text::scrub_domain(rl);
            let mut s = String::from_str("Via SIP2: Register login '");
            s.append(login.as_str());
            s.append("'");
            s
        },
        None => String::from_str("VIA SIP2"),
    }
}

/// The screen message a payment failure puts in the response: overpayment
/// and nothing-to-pay name their condition; a missing transaction yields a
/// plain failure with no message.
pub fn pay_error_message(e: &PayError) -> (r: Option<String>)
    ensures
        match *e {
            PayError::Overpayment => r matches Some(m) && m@ == "Overpayment not allowed"@,
            PayError::NothingToPay => r matches Some(m) && m@ == "No transactions to pay"@,
            PayError::NotFound => r is None,
        },
{
    match e {
        PayError::Overpayment => Some(String::from_str("Overpayment not allowed")),
        PayError::NothingToPay => Some(String::from_str("No transactions to pay")),
        PayError::NotFound => None,
    }
}

} // verus!
