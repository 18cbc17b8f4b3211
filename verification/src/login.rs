//! The sign-in window: its three ways of signing in and what submitting
//! each of them does.

use vstd::prelude::*;
use crate::auth::{self, Account, AccountType, DeviceCodeResponse};
use crate::text;

verus! {

/// The way of signing in that is shown.
#[derive(Debug, Clone, Copy, PartialEq, Eq, Structural)]
pub enum LoginMode {
    Offline,
    WetId,
    Microsoft,
}

impl Default for LoginMode {
    fn default() -> (r: Self)
        ensures
            r == LoginMode::Offline,
    {
        LoginMode::Offline
    }
}

/// The state of the sign-in window.
#[derive(Debug, Clone)]
pub struct LoginModal {
    pub is_open: bool,
    pub mode: LoginMode,
    pub offline_nickname: String,
    pub wetid_login: String,
    pub wetid_pass: String,
    pub ms_device_code: Option<DeviceCodeResponse>,
    pub ms_polling: bool,
    pub error_msg: Option<String>,
}

impl Default for LoginModal {
    fn default() -> (r: Self)
        ensures
            !r.is_open,
            r.mode == LoginMode::Offline,
            r.offline_nickname@.len() == 0,
            r.wetid_login@.len() == 0,
            r.wetid_pass@.len() == 0,
            r.ms_device_code is None,
            !r.ms_polling,
            r.error_msg is None,
    {
        LoginModal {
            is_open: false,
            mode: LoginMode::Offline,
            offline_nickname: String::new(),
            wetid_login: String::new(),
            wetid_pass: String::new(),
            ms_device_code: None,
            ms_polling: false,
            error_msg: None,
        }
    }
}

impl LoginModal {
    /// Shows another way of signing in and forgets the last error.
    pub fn select_mode(&mut self, mode: LoginMode)
        ensures
            final(self).mode == mode,
            final(self).error_msg is None,
            final(self).is_open == old(self).is_open,
            final(self).offline_nickname == old(self).offline_nickname,
    {
        self.mode = mode;
        self.error_msg = None;
    }

    /// Closes the window and forgets the last error.
    pub fn close(&mut self)
        ensures
            !final(self).is_open,
            final(self).error_msg is None,
            final(self).mode == old(self).mode,
    {
        self.is_open = false;
        self.error_msg = None;
    }

    /// Signs in offline with the typed nickname (trimmed). A blank nickname
    /// does nothing; an invalid one shows the error; a valid one closes the
    /// window and gives the account.
    pub fn submit_offline(&mut self) -> (r: Option<Account>)
        ensures
            text::trim(old(self).offline_nickname@).len() == 0 ==> r is None && final(self).is_open
                == old(self).is_open && final(self).error_msg == old(self).error_msg,
            text::trim(old(self).offline_nickname@).len() > 0 && auth::valid_nickname(
                text::trim(old(self).offline_nickname@),
            ) ==> (r matches Some(a) && a.account_type == AccountType::Offline && a.username@
                == text::trim(old(self).offline_nickname@) && a.uuid@ == auth::dashed_text(
                text::hex_lower(auth::offline_uuid_bytes(text::trim(old(self).offline_nickname@))),
            )) && (r matches Some(a) && auth::fresh_account(a)) && !final(self).is_open,
            text::trim(old(self).offline_nickname@).len() > 0 && !auth::valid_nickname(
                text::trim(old(self).offline_nickname@),
            ) ==> r is None && final(self).is_open == old(self).is_open && (final(self).error_msg matches Some(m) && m@ == "Authentication error: "@ + auth::nickname_problem(
                text::trim(old(self).offline_nickname@),
            )),
            final(self).mode == old(self).mode,
            final(self).offline_nickname == old(self).offline_nickname,
    {
        let name = text::trimmed(self.offline_nickname.as_str());
        if name.as_str().is_empty() {
            return None;
        }
        match auth::login_offline(name.as_str()) {
            Ok(acc) => {
                self.is_open = false;
                Some(acc)
            },
            Err(e) => {
                self.error_msg = Some(e.to_message());
                None
            },
        }
    }

    /// Signs in with WetID: the window closes and gives a WetID account for
    /// the typed login, with the placeholder id `wetid-uuid` and token
    /// `mock-token`.
    pub fn submit_wetid(&mut self) -> (r: Account)
        ensures
            r.account_type == AccountType::WetId,
            r.username@ == old(self).wetid_login@,
            r.uuid@ == "wetid-uuid"@,
            r.access_token matches Some(t) && t@ == "mock-token"@,
            r.skin_url is None,
            !final(self).is_open,
            final(self).mode == old(self).mode,
    {
        let acc = Account::new_wetid(
            text::owned(self.wetid_login.as_str()),
            text::owned("wetid-uuid"),
            text::owned("mock-token"),
            None,
        );
        self.is_open = false;
        acc
    }
}

} // verus!
