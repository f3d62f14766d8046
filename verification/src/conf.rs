//! Terminal account configuration: credentials, institution settings, and
//! the live account table.  The table is only ever replaced as a whole, so
//! its update operations here produce the next table from the previous one.

use vstd::prelude::*;
use vstd::string::StringExecFns;
use crate::text::str_eq;

verus! {

/// Per-institution settings an account is scoped to.
pub struct AccountSettings {
    pub institution: String,
}

impl AccountSettings {
    pub fn institution(&self) -> (r: &String)
        ensures
            r == self.institution,
    {
        &self.institution
    }
}

/// One terminal account: protocol credentials plus the backend identity the
/// gateway assumes on its behalf.
pub struct SipAccount {
    pub sip_username: String,
    pub sip_password: String,
    pub ils_username: String,
    pub workstation: Option<String>,
    pub settings: AccountSettings,
}

impl SipAccount {
    pub fn new(sip_username: &str, sip_password: &str, ils_username: &str, institution: &str) -> (r:
        SipAccount)
        ensures
            r.sip_username@ == sip_username@,
            r.sip_password@ == sip_password@,
            r.ils_username@ == ils_username@,
            r.workstation is None,
            r.settings.institution@ == institution@,
    {
        SipAccount {
            sip_username: String::from_str(sip_username),
            sip_password: String::from_str(sip_password),
            ils_username: String::from_str(ils_username),
            workstation: None,
            settings: AccountSettings { institution: String::from_str(institution) },
        }
    }

    pub fn sip_username(&self) -> (r: &String)
        ensures
            r == self.sip_username,
    {
        &self.sip_username
    }

    pub fn sip_password(&self) -> (r: &String)
        ensures
            r == self.sip_password,
    {
        &self.sip_password
    }

    pub fn ils_username(&self) -> (r: &String)
        ensures
            r == self.ils_username,
    {
        &self.ils_username
    }

    pub fn workstation(&self) -> (r: Option<&String>)
        ensures
            match r {
                Some(w) => self.workstation == Some(*w),
                None => self.workstation is None,
            },
    {
        self.workstation.as_ref()
    }

    pub fn settings(&self) -> (r: &AccountSettings)
        ensures
            r == self.settings,
    {
        &self.settings
    }
}

impl Clone for AccountSettings {
    fn clone(&self) -> (r: Self)
        ensures
            r == *self,
    {
        AccountSettings { institution: self.institution.clone() }
    }
}

impl Clone for SipAccount {
    fn clone(&self) -> (r: Self)
        ensures
            r == *self,
    {
        SipAccount {
            sip_username: self.sip_username.clone(),
            sip_password: self.sip_password.clone(),
            ils_username: self.ils_username.clone(),
            workstation: match &self.workstation {
                Some(w) => Some(w.clone()),
                None => None,
            },
            settings: self.settings.clone(),
        }
    }
}

/// The first account whose username is `username`, if any.
pub open spec fn find_account(accounts: Seq<SipAccount>, username: Seq<char>) -> Option<SipAccount>
    decreases accounts.len(),
{
    if accounts.len() == 0 {
        None
    } else {
        match find_account(accounts.drop_last(), username) {
            Some(a) => Some(a),
            None => {
                if accounts.last().sip_username@ == username {
                    Some(accounts.last())
                } else {
                    None
                }
            },
        }
    }
}

/// `accounts` with every account named `username` taken out, order kept.
pub open spec fn remove_named(accounts: Seq<SipAccount>, username: Seq<char>) -> Seq<SipAccount>
    decreases accounts.len(),
{
    if accounts.len() == 0 {
        Seq::empty()
    } else {
        let rest = remove_named(accounts.drop_last(), username);
        if accounts.last().sip_username@ == username {
            rest
        } else {
            rest.push(accounts.last())
        }
    }
}

proof fn lemma_find_remove_same(accounts: Seq<SipAccount>, username: Seq<char>)
    ensures
        find_account(remove_named(accounts, username), username) is None,
    decreases accounts.len(),
{
    if accounts.len() > 0 {
        lemma_find_remove_same(accounts.drop_last(), username);
        let rest = remove_named(accounts.drop_last(), username);
        if accounts.last().sip_username@ != username {
            assert(rest.push(accounts.last()).drop_last() =~= rest);
        }
    }
}

proof fn lemma_find_remove_other(accounts: Seq<SipAccount>, username: Seq<char>, other: Seq<char>)
    requires
        other != username,
    ensures
        find_account(remove_named(accounts, username), other) == find_account(accounts, other),
    decreases accounts.len(),
{
    if accounts.len() > 0 {
        lemma_find_remove_other(accounts.drop_last(), username, other);
        let rest = remove_named(accounts.drop_last(), username);
        if accounts.last().sip_username@ == username {
        } else {
            assert(rest.push(accounts.last()).drop_last() =~= rest);
        }
    }
}

proof fn lemma_find_prefix_some(accounts: Seq<SipAccount>, username: Seq<char>, j: int)
    requires
        0 <= j <= accounts.len(),
        find_account(accounts.subrange(0, j), username) is Some,
    ensures
        find_account(accounts, username) == find_account(accounts.subrange(0, j), username),
    decreases accounts.len() - j,
{
    if j == accounts.len() {
        assert(accounts.subrange(0, j) =~= accounts);
    } else {
        assert(accounts.subrange(0, j + 1).drop_last() =~= accounts.subrange(0, j));
        lemma_find_prefix_some(accounts, username, j + 1);
    }
}

/// Gateway configuration: the live account table plus the dispatcher's
/// listening address and limits.
pub struct Config {
    pub accounts: Vec<SipAccount>,
    pub max_clients: usize,
    pub sip_address: String,
    pub sip_port: u16,
    pub sc_status_before_login: bool,
    pub ascii: bool,
}

impl Clone for Config {
    fn clone(&self) -> (r: Self)
        ensures
            r.accounts@ == self.accounts@,
            r.max_clients == self.max_clients,
            r.sip_address == self.sip_address,
            r.sip_port == self.sip_port,
            r.sc_status_before_login == self.sc_status_before_login,
            r.ascii == self.ascii,
    {
        let n = self.accounts.len();
        let mut accounts: Vec<SipAccount> = Vec::new();
        let mut i: usize = 0;
        while i < n
            invariant
                i <= n,
                n == self.accounts@.len(),
                accounts@.len() == i,
                forall|k: int| 0 <= k < i ==> accounts@[k] == self.accounts@[k],
            decreases n - i,
        {
            accounts.push(self.accounts[i].clone());
            i += 1;
        }
        proof {
            assert(accounts@ =~= self.accounts@);
        }
        Config {
            accounts,
            max_clients: self.max_clients,
            sip_address: self.sip_address.clone(),
            sip_port: self.sip_port,
            sc_status_before_login: self.sc_status_before_login,
            ascii: self.ascii,
        }
    }
}

impl Config {
    pub fn new(
        max_clients: usize,
        sip_address: &str,
        sip_port: u16,
        sc_status_before_login: bool,
        ascii: bool,
    ) -> (r: Config)
        ensures
            r.accounts@.len() == 0,
            r.max_clients == max_clients,
            r.sip_address@ == sip_address@,
            r.sip_port == sip_port,
            r.sc_status_before_login == sc_status_before_login,
            r.ascii == ascii,
    {
        Config {
            accounts: Vec::new(),
            max_clients,
            sip_address: String::from_str(sip_address),
            sip_port,
            sc_status_before_login,
            ascii,
        }
    }

    pub fn max_clients(&self) -> (r: usize)
        ensures
            r == self.max_clients,
    {
        self.max_clients
    }

    pub fn sip_address(&self) -> (r: &String)
        ensures
            r == self.sip_address,
    {
        &self.sip_address
    }

    pub fn sip_port(&self) -> (r: u16)
        ensures
            r == self.sip_port,
    {
        self.sip_port
    }

    pub fn sc_status_before_login(&self) -> (r: bool)
        ensures
            r == self.sc_status_before_login,
    {
        self.sc_status_before_login
    }

    pub fn ascii(&self) -> (r: bool)
        ensures
            r == self.ascii,
    {
        self.ascii
    }

    /// The first account with the given username, if any.
    pub fn get_account(&self, username: &str) -> (r: Option<&SipAccount>)
        ensures
            match r {
                Some(a) => find_account(self.accounts@, username@) == Some(*a),
                None => find_account(self.accounts@, username@) is None,
            },
    {
        let n = self.accounts.len();
        let mut i: usize = 0;
        while i < n
            invariant
                i <= n,
                n == self.accounts@.len(),
                find_account(self.accounts@.subrange(0, i as int), username@) is None,
            decreases n - i,
        {
            proof {
                assert(self.accounts@.subrange(0, i + 1).drop_last() =~= self.accounts@.subrange(
                    0,
                    i as int,
                ));
                assert(self.accounts@.subrange(0, i + 1).last() == self.accounts@[i as int]);
            }
            if str_eq(self.accounts[i].sip_username.as_str(), username) {
                proof {
                    lemma_find_prefix_some(self.accounts@, username@, i + 1);
                }
                return Some(&self.accounts[i]);
            }
            i += 1;
        }
        proof {
            assert(self.accounts@.subrange(0, n as int) =~= self.accounts@);
        }
        None
    }

    /// Install `account`: any previous account under the same username goes
    /// away, and the new one takes effect.
    pub fn add_account(&mut self, account: SipAccount)
        ensures
            final(self).accounts@ == remove_named(old(self).accounts@, account.sip_username@).push(
                account,
            ),
            find_account(final(self).accounts@, account.sip_username@) == Some(account),
            forall|u: Seq<char>|
                u != account.sip_username@ ==> find_account(final(self).accounts@, u)
                    == find_account(old(self).accounts@, u),
            final(self).max_clients == old(self).max_clients,
            final(self).sip_address == old(self).sip_address,
            final(self).sip_port == old(self).sip_port,
            final(self).sc_status_before_login == old(self).sc_status_before_login,
            final(self).ascii == old(self).ascii,
    {
        let ghost orig = self.accounts@;
        let n = self.accounts.len();
        let mut kept: Vec<SipAccount> = Vec::new();
        let mut i: usize = 0;
        while i < n
            invariant
                i <= n,
                n == orig.len(),
                self.accounts@ == orig,
                kept@ == remove_named(orig.subrange(0, i as int), account.sip_username@),
            decreases n - i,
        {
            proof {
                assert(orig.subrange(0, i + 1).drop_last() =~= orig.subrange(0, i as int));
                assert(orig.subrange(0, i + 1).last() == orig[i as int]);
            }
            if !str_eq(self.accounts[i].sip_username.as_str(), account.sip_username.as_str()) {
                let a = self.accounts[i].clone();
                assert(a == orig[i as int]);
                kept.push(a);
            }
            i += 1;
        }
        proof {
            assert(orig.subrange(0, n as int) =~= orig);
        }
        kept.push(account);
        self.accounts = kept;
        proof {
            lemma_find_remove_same(orig, account.sip_username@);
            assert(self.accounts@.drop_last() =~= remove_named(orig, account.sip_username@));
            assert forall|u: Seq<char>| u != account.sip_username@ implies find_account(
                self.accounts@,
                u,
            ) == find_account(orig, u) by {
                lemma_find_remove_other(orig, account.sip_username@, u);
            }
        }
    }

    /// Take every account under `username` out of the table.
    pub fn remove_account(&mut self, username: &str)
        ensures
            final(self).accounts@ == remove_named(old(self).accounts@, username@),
            find_account(final(self).accounts@, username@) is None,
            forall|u: Seq<char>|
                u != username@ ==> find_account(final(self).accounts@, u) == find_account(
                    old(self).accounts@,
                    u,
                ),
            final(self).max_clients == old(self).max_clients,
            final(self).sip_address == old(self).sip_address,
            final(self).sip_port == old(self).sip_port,
            final(self).sc_status_before_login == old(self).sc_status_before_login,
            final(self).ascii == old(self).ascii,
    {
        let ghost orig = self.accounts@;
        let n = self.accounts.len();
        let mut kept: Vec<SipAccount> = Vec::new();
        let mut i: usize = 0;
        while i < n
            invariant
                i <= n,
                n == orig.len(),
                self.accounts@ == orig,
                kept@ == remove_named(orig.subrange(0, i as int), username@),
            decreases n - i,
        {
            proof {
                assert(orig.subrange(0, i + 1).drop_last() =~= orig.subrange(0, i as int));
                assert(orig.subrange(0, i + 1).last() == orig[i as int]);
            }
            if !str_eq(self.accounts[i].sip_username.as_str(), username) {
                let a = self.accounts[i].clone();
                assert(a == orig[i as int]);
                kept.push(a);
            }
            i += 1;
        }
        proof {
            assert(orig.subrange(0, n as int) =~= orig);
        }
        self.accounts = kept;
        proof {
            lemma_find_remove_same(orig, username@);
            assert forall|u: Seq<char>| u != username@ implies find_account(self.accounts@, u)
                == find_account(orig, u) by {
                lemma_find_remove_other(orig, username@, u);
            }
        }
    }
}

} // verus!
