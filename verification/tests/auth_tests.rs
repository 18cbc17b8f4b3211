use amc_launcher::auth::{
    self, login_offline, offline_uuid, Account, AccountDatabase, AccountManager, AccountType,
    AuthSession, TokenPoll,
};
use amc_launcher::error::LauncherError;

#[test]
fn offline_uuid_of_steve() {
    // MD5("OfflinePlayer:Steve") with the version 3 and RFC 4122 variant bits.
    assert_eq!(offline_uuid("Steve"), "5627dd98e6be3c21b8a8e92344183641");
    assert_eq!(auth::dashed_uuid("5627dd98e6be3c21b8a8e92344183641"), "5627dd98-e6be-3c21-b8a8-e92344183641");
    assert_eq!(auth::dashed_uuid("short"), "short");
}

#[test]
fn offline_login_builds_an_offline_account() {
    let acc = login_offline("Steve").unwrap();
    assert_eq!(acc.account_type, AccountType::Offline);
    assert_eq!(acc.username, "Steve");
    assert_eq!(acc.uuid, "5627dd98-e6be-3c21-b8a8-e92344183641");
    assert!(acc.active);
    match login_offline("ab") {
        Err(LauncherError::Auth(m)) => assert_eq!(m, "Никнейм должен содержать от 3 до 16 символов"),
        _ => panic!("expected an error"),
    }
    match login_offline("bad name") {
        Err(LauncherError::Auth(m)) => {
            assert_eq!(m, "Никнейм может содержать только латиницу, цифры и символ подчеркивания")
        }
        _ => panic!("expected an error"),
    }
}

#[test]
fn sessions_carry_token_and_user_type() {
    let off = Account::new_offline("Alex".to_string(), "u".to_string());
    let s = AuthSession::from_account(&off);
    assert_eq!(s.access_token, "0");
    assert_eq!(s.user_type, "legacy");
    let ms = Account::new_microsoft("Bob".to_string(), "id".to_string(), "tok".to_string(), None, Some(10));
    let s = AuthSession::from_account(&ms);
    assert_eq!(s.access_token, "tok");
    assert_eq!(s.user_type, "msa");
    assert!(ms.is_expired_at(10));
    assert!(!ms.is_expired_at(9));
    let w = Account::new_wetid("W".to_string(), "wid".to_string(), "wt".to_string(), None);
    assert_eq!(AuthSession::from_account(&w).user_type, "wetid");
    assert_eq!(AccountType::WetId.as_str(), "WetID");
}

#[test]
fn stored_account_becomes_active_and_removed_is_gone() {
    let mut m = AccountManager::from_database("/tmp/accounts.json", AccountDatabase::empty());
    assert!(m.active_account().is_none());
    assert!(m.get_session().is_none());
    let a = Account::new_offline("First".to_string(), "u1".to_string());
    let a_id = a.id;
    m.add_or_update_account(a);
    let b = Account::new_offline("Second".to_string(), "u2".to_string());
    let b_id = b.id;
    m.add_or_update_account(b);
    assert_eq!(m.accounts().len(), 2);
    assert_eq!(m.active_account().unwrap().id, b_id);
    assert_eq!(m.get_session().unwrap().username, "Second");
    assert!(m.set_active(a_id).is_ok());
    assert_eq!(m.active_account().unwrap().id, a_id);
    assert!(m.set_active(12345).is_err());
    m.remove_account(a_id);
    assert_eq!(m.accounts().len(), 1);
    assert!(m.accounts().iter().all(|x| x.id != a_id));
    assert_eq!(m.db_path(), "/tmp/accounts.json");
}

#[test]
fn token_poll_outcomes() {
    assert!(matches!(auth::interpret_token_poll(None), TokenPoll::Authorized));
    assert!(matches!(auth::interpret_token_poll(Some("authorization_pending")), TokenPoll::Pending));
    match auth::interpret_token_poll(Some("expired_token")) {
        TokenPoll::Failed(LauncherError::Auth(m)) => assert_eq!(m, "MS auth failed: expired_token"),
        _ => panic!("expected a failure"),
    }
}

#[test]
fn xbox_flow_texts() {
    assert_eq!(auth::rps_ticket("abc"), "d=abc");
    assert_eq!(auth::xbox_identity_token("hash", "tok"), "XBL3.0 x=hash;tok");
    assert_eq!(auth::first_user_hash(&vec!["h1".to_string(), "h2".to_string()]).unwrap(), "h1");
    match auth::first_user_hash(&vec![]) {
        Err(LauncherError::Auth(m)) => assert_eq!(m, "Missing Xbox Live user hash"),
        _ => panic!("expected an error"),
    }
    assert_eq!(auth::token_expiry(1_000, Some(60)), Some(61_000));
    assert_eq!(auth::token_expiry(1_000, None), None);
    assert_eq!(auth::token_expiry(0, Some(i64::MAX)), None);
    assert_eq!(auth::default_client_id(), "00000000402b5328");
    assert_eq!(auth::wetid_endpoint(&auth::default_wetid_api(), "login"), "https://api.aleph.network/v1/auth/wetid/login");
    let f = auth::token_poll_form("cid", "dc");
    assert_eq!(f[1], ("grant_type".to_string(), "urn:ietf:params:oauth:grant-type:device_code".to_string()));
    assert_eq!(auth::device_code_form("cid")[1].1, "XboxLive.signin offline_access");
}

#[test]
fn accounts_from_sign_in_replies() {
    let p = auth::WetIdProfile {
        uuid: "u".to_string(),
        username: "n".to_string(),
        token: "t".to_string(),
        skin_url: Some("s".to_string()),
        trust_level: 3,
    };
    let a = auth::wetid_account(p);
    assert_eq!(a.account_type, AccountType::WetId);
    assert_eq!(a.access_token.as_deref(), Some("t"));
    let prof = auth::MinecraftProfileResponse { id: "mid".to_string(), name: "mn".to_string() };
    let m = auth::microsoft_account(prof, "at".to_string(), Some("rt".to_string()), None);
    assert_eq!(m.username, "mn");
    assert_eq!(m.refresh_token.as_deref(), Some("rt"));
    let req = auth::WetIdLoginRequest::with_password("me", "pw");
    assert_eq!(req.password.as_deref(), Some("pw"));
    assert!(req.token.is_none());
}
