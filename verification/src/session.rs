//! The per-connection protocol state machine.  A session starts out
//! unauthenticated, may become authenticated through the login message, and
//! routes each request by its message code.  The socket and the backend
//! round-trips live outside; every protocol decision is made here.

use vstd::prelude::*;
use vstd::string::StringExecFns;
use crate::conf::{Config, SipAccount, find_account};
use crate::sipmsg::{Message, find_field};
use crate::text::str_eq;

verus! {

/// The error taxonomy of the gateway.
#[derive(Debug)]
pub enum SipError {
    /// Malformed or unsupported message; the connection stays open.
    Protocol(String),
    /// Bad credentials, a missing login, or no such account.
    Auth(String),
    /// A referenced record does not exist or is not the caller's.
    NotFound(String),
    /// A tendered amount exceeds what can legitimately be applied.
    Overpayment,
    /// The backend call itself failed.
    Backend(String),
    /// Transport failure; fatal to the session.
    Io(String),
}

/// The backend flows that stand behind the protected message codes.
pub enum BackendTask {
    ItemInfo,
    PatronStatus,
    PatronInfo,
    FeePaid,
}

/// What the dispatcher hands back for one request: a finished response, or
/// the backend flow the handler must run first.
pub enum SipOutcome {
    Respond(Message),
    Backend(BackendTask),
}

/// What to do with a backend response that may carry an event.
pub enum EventDisposition {
    /// The response is not an event: use it as the result.
    NoEvent,
    /// The expired-session event: log in again and retry once.
    Relogin,
    /// Any other event: surface it to the handler.
    Surface,
}

/// Credentials match when the live table has the username and the stored
/// password agrees.
pub open spec fn credentials_ok(cfg: Config, username: Seq<char>, password: Seq<char>) -> bool {
    match find_account(cfg.accounts@, username) {
        Some(a) => a.sip_password@ == password,
        None => false,
    }
}

/// The authentication state right after a login attempt with the given
/// credentials: the matching account on success, none on failure.
pub open spec fn post_login_account(cfg: Config, username: Seq<char>, password: Seq<char>) -> Option<
    SipAccount,
> {
    if credentials_ok(cfg, username, password) {
        find_account(cfg.accounts@, username)
    } else {
        None
    }
}

/// Message codes the gateway handles only after login: everything but the
/// status request and the login itself.
pub open spec fn requires_auth(code: Seq<char>) -> bool {
    code != "99"@ && code != "93"@
}

/// The username and password fields of a login request, when both present.
pub open spec fn login_fields(m: Message) -> Option<(Seq<char>, Seq<char>)> {
    match (find_field(m.fields@, "CN"@), find_field(m.fields@, "CO"@)) {
        (Some(u), Some(p)) => Some((u, p)),
        _ => None,
    }
}

/// The login response: code 94, one fixed field holding the success flag,
/// no variable fields.
pub open spec fn login_response_ok(
    cfg: Config,
    username: Seq<char>,
    password: Seq<char>,
    m: Message,
) -> bool {
    &&& m.code@ == "94"@
    &&& m.fixed_fields@.len() == 1
    &&& m.fixed_fields@[0]@ == (if credentials_ok(cfg, username, password) {
        "1"@
    } else {
        "0"@
    })
    &&& m.fields@.len() == 0
}

/// The status request is blocked while unauthenticated, unless the
/// configuration allows status before login.
pub open spec fn sc_status_blocked(s: Session) -> bool {
    s.account is None && !s.sip_config.sc_status_before_login
}

/// The status response: code 98, the fixed capability flags and protocol
/// version, the institution-supports field, and the institution of the
/// authenticated account when there is one.  The ninth fixed field carries
/// the current date, which the clock supplies.
pub open spec fn sc_status_response_ok(s: Session, m: Message) -> bool {
    &&& m.code@ == "98"@
    &&& m.fixed_fields@.len() == 10
    &&& m.fixed_fields@[0]@ == "Y"@  // on-line status
    &&& m.fixed_fields@[1]@ == "Y"@  // checkin ok
    &&& m.fixed_fields@[2]@ == "Y"@  // checkout ok
    &&& m.fixed_fields@[3]@ == "Y"@  // renewal policy
    &&& m.fixed_fields@[4]@ == "N"@  // status update
    &&& m.fixed_fields@[5]@ == "N"@  // offline ok
    &&& m.fixed_fields@[6]@ == "999"@  // timeout period
    &&& m.fixed_fields@[7]@ == "999"@  // retries allowed
    &&& m.fixed_fields@[9]@ == "2.00"@  // protocol version
    &&& m.fields@.len() == (if s.account is Some {
        2int
    } else {
        1int
    })
    &&& m.fields@[0].code@ == "BX"@
    &&& m.fields@[0].value@ == "YYYNYNYYNYYNNNYN"@
    &&& (s.account matches Some(a) ==> m.fields@[1].code@ == "AO"@ && m.fields@[1].value@
        == a.settings.institution@)
}

/// Everything of a session but its authentication state.
pub open spec fn same_but_account(a: Session, b: Session) -> bool {
    &&& a.sesid == b.sesid
    &&& a.shutdown == b.shutdown
    &&& a.sip_config == b.sip_config
    &&& a.authtoken == b.authtoken
}

/// The backend login request a session makes on behalf of its account: a
/// staff-role identity, with the account's workstation when it has one.
pub struct AuthArgs {
    pub user_id: i64,
    pub role: String,
    pub workstation: Option<String>,
}

/// One protocol session, bound to one connection.
pub struct Session {
    pub sesid: usize,
    /// The last observed value of the shared shutdown signal.
    pub shutdown: bool,
    pub sip_config: Config,
    /// At most one authenticated account at any time.
    pub account: Option<SipAccount>,
    /// The backend session token, once one is established.
    pub authtoken: Option<String>,
}

/// Relies on sip2::util::sip_date_now: the current local time rendered in
/// the protocol's date format.  The result depends on the clock, so nothing
/// further is claimed of it.
#[verifier::external_body]
pub(crate) fn sip_date_now() -> (r: String) {
    sip2::util::sip_date_now()
}

impl Session {
    pub fn new(sip_config: Config, sesid: usize) -> (r: Session)
        ensures
            r.sesid == sesid,
            r.shutdown == false,
            r.sip_config == sip_config,
            r.account is None,
            r.authtoken is None,
    {
        Session { sesid, shutdown: false, sip_config, account: None, authtoken: None }
    }

    pub fn account(&self) -> (r: Option<&SipAccount>)
        ensures
            match r {
                Some(a) => self.account == Some(*a),
                None => self.account is None,
            },
    {
        self.account.as_ref()
    }

    pub fn sip_config(&self) -> (r: &Config)
        ensures
            r == self.sip_config,
    {
        &self.sip_config
    }

    /// Store the backend session token.
    pub fn set_authtoken(&mut self, token: String)
        ensures
            final(self).authtoken == Some(token),
            final(self).account == old(self).account,
            final(self).sesid == old(self).sesid,
            final(self).shutdown == old(self).shutdown,
            final(self).sip_config == old(self).sip_config,
    {
        self.authtoken = Some(token);
    }

    /// The backend session token, required to be present.
    pub fn authtoken(&self) -> (r: Result<&String, SipError>)
        ensures
            match r {
                Ok(t) => self.authtoken == Some(*t),
                Err(e) => self.authtoken is None && (e matches SipError::Auth(_)),
            },
    {
        match self.authtoken.as_ref() {
            Some(t) => Ok(t),
            None => Err(SipError::Auth(String::from_str("Authtoken is unset"))),
        }
    }

    /// Classify a backend response's event code under the bounded-retry
    /// policy: not an event at all; the expired-session event while no
    /// retry has happened yet, after which the session logs in again and
    /// retries; or any other event, surfaced to the handler.  A relogin is
    /// never asked for twice: once a retry has happened, even the
    /// expired-session event is surfaced.
    pub fn unpack_response_event(&self, evt_textcode: Option<&str>, already_retried: bool) -> (r:
        EventDisposition)
        ensures
            match evt_textcode {
                None => r is NoEvent,
                Some(c) => {
                    if c@ == "NO_SESSION"@ && !already_retried {
                        r is Relogin
                    } else {
                        r is Surface
                    }
                },
            },
            r is Relogin ==> !already_retried,
    {
        match evt_textcode {
            None => EventDisposition::NoEvent,
            Some(c) => {
                if !already_retried && str_eq(c, "NO_SESSION") {
                    EventDisposition::Relogin
                } else {
                    EventDisposition::Surface
                }
            },
        }
    }

    /// The backend login request for this session's account: the resolved
    /// backend user, the staff role, and the account's workstation.
    pub fn login_args(&self, user_id: i64) -> (r: AuthArgs)
        requires
            self.account is Some,
        ensures
            r.user_id == user_id,
            r.role@ == "staff"@,
            r.workstation == self.account.unwrap().workstation,
    {
        let ws = match self.account.as_ref() {
            Some(a) => {
                match a.workstation.as_ref() {
                    Some(w) => Some(w.clone()),
                    None => None,
                }
            },
            None => None,
        };
        AuthArgs { user_id, role: String::from_str("staff"), workstation: ws }
    }

    /// After a receive timeout: record the shared shutdown signal; the
    /// session exits exactly when the signal is set.
    pub fn on_recv_timeout(&mut self, shutdown_signal: bool) -> (exit: bool)
        ensures
            exit == shutdown_signal,
            final(self).shutdown == shutdown_signal,
            final(self).account == old(self).account,
            final(self).sesid == old(self).sesid,
            final(self).sip_config == old(self).sip_config,
            final(self).authtoken == old(self).authtoken,
    {
        self.shutdown = shutdown_signal;
        self.shutdown
    }

    /// Handle a login request: validate the credentials against the live
    /// account table.  A match authenticates the session; a mismatch or an
    /// unknown account leaves it unauthenticated.  The response carries a
    /// success flag only; the connection stays open either way.
    pub fn handle_login(&mut self, msg: &Message) -> (r: Result<Message, SipError>)
        ensures
            same_but_account(*final(self), *old(self)),
            match login_fields(*msg) {
                None => {
                    &&& r matches Err(SipError::Protocol(_))
                    &&& final(self).account == old(self).account
                },
                Some(up) => {
                    &&& final(self).account == post_login_account(
                        old(self).sip_config,
                        up.0,
                        up.1,
                    )
                    &&& r matches Ok(m) && login_response_ok(old(self).sip_config, up.0, up.1, m)
                },
            },
    {
        let username = match msg.get_field_value("CN") {
            Some(u) => u,
            None => {
                return Err(SipError::Protocol(String::from_str("login missing username")));
            },
        };
        let password = match msg.get_field_value("CO") {
            Some(p) => p,
            None => {
                return Err(SipError::Protocol(String::from_str("login missing password")));
            },
        };
        let account = match self.sip_config.get_account(username.as_str()) {
            Some(a) => Some(a.clone()),
            None => None,
        };
        let ok = match account {
            Some(a) => {
                if str_eq(a.sip_password.as_str(), password.as_str()) {
                    self.account = Some(a);
                    true
                } else {
                    self.account = None;
                    false
                }
            },
            None => {
                self.account = None;
                false
            },
        };
        let flag = if ok {
            String::from_str("1")
        } else {
            String::from_str("0")
        };
        let mut fixed: Vec<String> = Vec::new();
        fixed.push(flag);
        Ok(Message::new(String::from_str("94"), fixed, Vec::new()))
    }

    /// Handle a status request: blocked before login unless the
    /// configuration allows it; otherwise report the gateway's capability
    /// flags, the current date, and the protocol version.
    pub fn handle_sc_status(&mut self, _msg: &Message) -> (r: Result<Message, SipError>)
        ensures
            *final(self) == *old(self),
            sc_status_blocked(*old(self)) ==> r matches Err(SipError::Auth(_)),
            !sc_status_blocked(*old(self)) ==> (r matches Ok(m) && sc_status_response_ok(
                *old(self),
                m,
            )),
    {
        if self.account.is_none() && !self.sip_config.sc_status_before_login {
            return Err(SipError::Auth(String::from_str("SC Status before login disabled")));
        }
        let mut fixed: Vec<String> = Vec::new();
        fixed.push(String::from_str("Y"));  // on-line status
        fixed.push(String::from_str("Y"));  // checkin ok
        fixed.push(String::from_str("Y"));  // checkout ok
        fixed.push(String::from_str("Y"));  // renewal policy
        fixed.push(String::from_str("N"));  // status update ok
        fixed.push(String::from_str("N"));  // offline ok
        fixed.push(String::from_str("999"));  // timeout period
        fixed.push(String::from_str("999"));  // retries allowed
        fixed.push(sip_date_now());  // date/time sync
        fixed.push(String::from_str("2.00"));  // protocol version
        let mut resp = Message::new(String::from_str("98"), fixed, Vec::new());
        // Which of the sixteen protocol services this gateway supports:
        // patron status, checkout, checkin, acs status, login, patron
        // information, fee paid, item information and renew; not block
        // patron, resend, end patron session, item status update, patron
        // enable, hold or renew all.
        resp.add_field("BX", "YYYNYNYYNYYNNNYN");
        match self.account.as_ref() {
            Some(a) => {
                let inst = a.settings.institution.clone();
                resp.add_field("AO", inst.as_str());
            },
            None => (),
        }
        Ok(resp)
    }

    /// Route one request by its message code.  The status and login codes
    /// are handled in place; every other supported code requires an
    /// authenticated session and names the backend flow to run; an
    /// unsupported code is a protocol error that leaves the session as it
    /// was, and the connection open.
    pub fn handle_sip_request(&mut self, msg: &Message) -> (r: Result<SipOutcome, SipError>)
        ensures
            msg.code@ == "99"@ ==> {
                &&& *final(self) == *old(self)
                &&& (sc_status_blocked(*old(self)) ==> r matches Err(SipError::Auth(_)))
                &&& (!sc_status_blocked(*old(self)) ==> (r matches Ok(SipOutcome::Respond(m))
                    && sc_status_response_ok(*old(self), m)))
            },
            msg.code@ == "93"@ ==> {
                &&& same_but_account(*final(self), *old(self))
                &&& match login_fields(*msg) {
                    None => {
                        &&& r matches Err(SipError::Protocol(_))
                        &&& final(self).account == old(self).account
                    },
                    Some(up) => {
                        &&& final(self).account == post_login_account(
                            old(self).sip_config,
                            up.0,
                            up.1,
                        )
                        &&& r matches Ok(SipOutcome::Respond(m)) && login_response_ok(
                            old(self).sip_config,
                            up.0,
                            up.1,
                            m,
                        )
                    },
                }
            },
            requires_auth(msg.code@) ==> {
                &&& *final(self) == *old(self)
                &&& (old(self).account is None ==> r matches Err(SipError::Auth(_)))
                &&& (old(self).account is Some && msg.code@ == "17"@ ==> r == Ok::<
                    SipOutcome,
                    SipError,
                >(SipOutcome::Backend(BackendTask::ItemInfo)))
                &&& (old(self).account is Some && msg.code@ == "23"@ ==> r == Ok::<
                    SipOutcome,
                    SipError,
                >(SipOutcome::Backend(BackendTask::PatronStatus)))
                &&& (old(self).account is Some && msg.code@ == "63"@ ==> r == Ok::<
                    SipOutcome,
                    SipError,
                >(SipOutcome::Backend(BackendTask::PatronInfo)))
                &&& (old(self).account is Some && msg.code@ == "37"@ ==> r == Ok::<
                    SipOutcome,
                    SipError,
                >(SipOutcome::Backend(BackendTask::FeePaid)))
                &&& (old(self).account is Some && msg.code@ != "17"@ && msg.code@ != "23"@
                    && msg.code@ != "63"@ && msg.code@ != "37"@ ==> r matches Err(
                    SipError::Protocol(_),
                ))
            },
    {
        proof {
            reveal_strlit("99");
            reveal_strlit("93");
            reveal_strlit("17");
            reveal_strlit("23");
            reveal_strlit("63");
            reveal_strlit("37");
            assert("99"@ != "93"@) by {
                assert("99"@[1] == '9' && "93"@[1] == '3');
            }
            assert("17"@ != "23"@ && "17"@ != "63"@ && "17"@ != "37"@) by {
                assert("17"@[0] == '1' && "23"@[0] == '2' && "63"@[0] == '6' && "37"@[0] == '3');
            }
            assert("23"@ != "63"@ && "23"@ != "37"@ && "63"@ != "37"@) by {
                assert("23"@[0] == '2' && "63"@[0] == '6' && "37"@[0] == '3');
            }
        }
        let code = msg.code.as_str();
        if str_eq(code, "99") {
            return match self.handle_sc_status(msg) {
                Ok(m) => Ok(SipOutcome::Respond(m)),
                Err(e) => Err(e),
            };
        }
        if str_eq(code, "93") {
            return match self.handle_login(msg) {
                Ok(m) => Ok(SipOutcome::Respond(m)),
                Err(e) => Err(e),
            };
        }
        if self.account.is_none() {
            return Err(SipError::Auth(String::from_str("SIP client is not logged in")));
        }
        if str_eq(code, "17") {
            Ok(SipOutcome::Backend(BackendTask::ItemInfo))
        } else if str_eq(code, "23") {
            Ok(SipOutcome::Backend(BackendTask::PatronStatus))
        } else if str_eq(code, "63") {
            Ok(SipOutcome::Backend(BackendTask::PatronInfo))
        } else if str_eq(code, "37") {
            Ok(SipOutcome::Backend(BackendTask::FeePaid))
        } else {
            Err(SipError::Protocol(String::from_str("Unsupported SIP message code")))
        }
    }

    /// Translate a number or numeric string from the backend into a number.
    pub fn parse_id(&self, value: &crate::values::Value) -> (r: Result<i64, String>)
        ensures
            match *value {
                crate::values::Value::Int(n) => r == Ok::<i64, String>(n),
                crate::values::Value::Str(s) => {
                    if crate::text::int_str_wf(s@) && i64::MIN <= crate::text::int_str_val(
                        s@,
                    ) <= i64::MAX {
                        r matches Ok(n) && n == crate::text::int_str_val(s@)
                    } else {
                        r is Err
                    }
                },
                _ => r is Err,
            },
    {
        crate::values::parse_id(value)
    }

    /// Translate the backend's variety of true-ish values into a bool.
    pub fn parse_bool(&self, value: &crate::values::Value) -> (r: bool)
        ensures
            match *value {
                crate::values::Value::Int(n) => r == (n != 0),
                crate::values::Value::Str(s) => r == (s@.len() > 0 && (s@[0] == 't' || s@[0]
                    == 'T')),
                crate::values::Value::Bool(b) => r == b,
                crate::values::Value::Null => r == false,
            },
    {
        crate::values::parse_bool(value)
    }
}

/// Law: the login state machine gates the protected codes.  Matching
/// credentials leave the session authenticated, so a protected request is
/// admitted; mismatched or unknown credentials leave it unauthenticated, so
/// the same protected request is refused.
pub proof fn lemma_login_gates_protected(
    cfg: Config,
    username: Seq<char>,
    password: Seq<char>,
    code: Seq<char>,
)
    requires
        requires_auth(code),
    ensures
        credentials_ok(cfg, username, password) <==> post_login_account(
            cfg,
            username,
            password,
        ) is Some,
{
    if credentials_ok(cfg, username, password) {
        assert(find_account(cfg.accounts@, username) is Some);
    }
}

} // verus!
