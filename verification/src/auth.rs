//! Accounts: the three account kinds, offline nicknames and their UUIDs, the
//! session a launch uses, the account database with its active account, and
//! the decisions of the Microsoft device-code and WetID sign-in flows.

use vstd::prelude::*;
use vstd::string::StringSliceAdditionalSpecFns;
use vstd::utf8::{decode_utf8, encode_utf8, is_char_boundary};
use crate::error::LauncherError;
use crate::ids;
use crate::text;

verus! {

#[derive(Debug, Clone, Copy, PartialEq, Eq, Structural, Hash)]
pub enum AccountType {
    Microsoft,
    WetId,
    Offline,
}

impl AccountType {
    pub open spec fn name(self) -> Seq<char> {
        match self {
            AccountType::Microsoft => "Microsoft"@,
            AccountType::WetId => "WetID"@,
            AccountType::Offline => "Offline"@,
        }
    }

    pub fn as_str(&self) -> (r: &'static str)
        ensures
            r@ == self.name(),
    {
        match self {
            AccountType::Microsoft => "Microsoft",
            AccountType::WetId => "WetID",
            AccountType::Offline => "Offline",
        }
    }
}

/// A stored account. `expires_at` is in milliseconds since the Unix epoch.
#[derive(Debug, Clone)]
pub struct Account {
    pub id: u128,
    pub account_type: AccountType,
    pub username: String,
    pub uuid: String,
    pub access_token: Option<String>,
    pub refresh_token: Option<String>,
    pub expires_at: Option<i64>,
    pub skin_url: Option<String>,
    pub active: bool,
}

impl Account {
    /// A fresh offline account.
    pub fn new_offline(username: String, uuid: String) -> (r: Self)
        ensures
            r.account_type == AccountType::Offline,
            r.username == username,
            r.uuid == uuid,
            r.access_token is None,
            r.refresh_token is None,
            r.expires_at is None,
            r.skin_url is None,
            r.active,
            ids::is_v4_uuid(r.id),
    {
        Account {
            id: ids::new_uuid_v4(),
            account_type: AccountType::Offline,
            username,
            uuid,
            access_token: None,
            refresh_token: None,
            expires_at: None,
            skin_url: None,
            active: true,
        }
    }

    /// A fresh Microsoft account.
    pub fn new_microsoft(
        username: String,
        uuid: String,
        access_token: String,
        refresh_token: Option<String>,
        expires_at: Option<i64>,
    ) -> (r: Self)
        ensures
            r.account_type == AccountType::Microsoft,
            r.username == username,
            r.uuid == uuid,
            r.access_token == Some(access_token),
            r.refresh_token == refresh_token,
            r.expires_at == expires_at,
            r.skin_url is None,
            r.active,
            ids::is_v4_uuid(r.id),
    {
        Account {
            id: ids::new_uuid_v4(),
            account_type: AccountType::Microsoft,
            username,
            uuid,
            access_token: Some(access_token),
            refresh_token,
            expires_at,
            skin_url: None,
            active: true,
        }
    }

    /// A fresh WetID account.
    pub fn new_wetid(username: String, uuid: String, token: String, skin_url: Option<String>) -> (r:
        Self)
        ensures
            r.account_type == AccountType::WetId,
            r.username == username,
            r.uuid == uuid,
            r.access_token == Some(token),
            r.refresh_token is None,
            r.expires_at is None,
            r.skin_url == skin_url,
            r.active,
            ids::is_v4_uuid(r.id),
    {
        Account {
            id: ids::new_uuid_v4(),
            account_type: AccountType::WetId,
            username,
            uuid,
            access_token: Some(token),
            refresh_token: None,
            expires_at: None,
            skin_url,
            active: true,
        }
    }

    /// Whether the account has expired at time `now`: it has an expiry and
    /// `now` is not before it.
    pub open spec fn expired_at(self, now: int) -> bool {
        match self.expires_at {
            Some(exp) => now >= exp,
            None => false,
        }
    }

    /// Whether the account has expired at time `now`: it has an expiry and
    /// `now` is not before it.
    pub fn is_expired_at(&self, now: i64) -> (r: bool)
        ensures
            r == self.expired_at(now as int),
    {
        match self.expires_at {
            Some(exp) => now >= exp,
            None => false,
        }
    }

    /// Whether the account has expired now: the answer of `is_expired_at`
    /// for one reading of the clock (not negative, below the clock's bound).
    pub fn is_expired(&self) -> (r: bool)
        ensures
            exists|now: int| 0 <= now < ids::clock_bound() && r == #[trigger] self.expired_at(now),
    {
        let now = ids::now_millis();
        let r = self.is_expired_at(now);
        assert(0 <= now < ids::clock_bound() && r == self.expired_at(now as int));
        r
    }
}

/// What a launch needs of an account.
#[derive(Debug, Clone)]
pub struct AuthSession {
    pub username: String,
    pub uuid: String,
    pub access_token: String,
    pub user_type: String,
    pub xuid: Option<String>,
}

/// The access token a session of `a` carries: the account's token ("0" when
/// it has none) for Microsoft and WetID, "0" offline.
pub open spec fn session_token(a: Account) -> Seq<char> {
    match a.account_type {
        AccountType::Offline => "0"@,
        _ => match a.access_token {
            Some(t) => t@,
            None => "0"@,
        },
    }
}

/// The user type of a session: `msa`, `wetid` or `legacy`.
pub open spec fn session_user_type(t: AccountType) -> Seq<char> {
    match t {
        AccountType::Microsoft => "msa"@,
        AccountType::WetId => "wetid"@,
        AccountType::Offline => "legacy"@,
    }
}

impl AuthSession {
    /// The session a launch with `account` uses.
    pub fn from_account(account: &Account) -> (r: Self)
        ensures
            r.username@ == account.username@,
            r.uuid@ == account.uuid@,
            r.access_token@ == session_token(*account),
            r.user_type@ == session_user_type(account.account_type),
            r.xuid is None,
    {
        let token = match account.account_type {
            AccountType::Offline => text::owned("0"),
            _ => match &account.access_token {
                Some(t) => text::owned(t.as_str()),
                None => text::owned("0"),
            },
        };
        let user_type = match account.account_type {
            AccountType::Microsoft => text::owned("msa"),
            AccountType::WetId => text::owned("wetid"),
            AccountType::Offline => text::owned("legacy"),
        };
        AuthSession {
            username: text::owned(account.username.as_str()),
            uuid: text::owned(account.uuid.as_str()),
            access_token: token,
            user_type,
            xuid: None,
        }
    }
}

// ---------------------------------------------------------------------------
// Offline accounts
// ---------------------------------------------------------------------------

/// A nickname is 3 to 16 characters of ASCII letters, digits and `_`.
pub open spec fn valid_nickname(name: Seq<char>) -> bool {
    3 <= name.len() <= 16 && forall|i: int|
        0 <= i < name.len() ==> text::is_ascii_alphanumeric(#[trigger] name[i]) || name[i] == '_'
}

/// The nicknames accepted offline are exactly those of 3 to 16 characters,
/// each an ASCII letter, an ASCII digit or `_`.
pub proof fn nickname_rule(name: Seq<char>)
    ensures
        valid_nickname(name) <==> (3 <= name.len() <= 16 && forall|i: int|
            0 <= i < name.len() ==> {
                let c = #[trigger] name[i];
                ('a' <= c && c <= 'z') || ('A' <= c && c <= 'Z') || ('0' <= c && c <= '9') || c
                    == '_'
            }),
{
}

/// What is wrong with a nickname that is not valid: its length, else its
/// characters.
pub open spec fn nickname_problem(name: Seq<char>) -> Seq<char> {
    if !(3 <= name.len() <= 16) {
        "Никнейм должен содержать от 3 до 16 символов"@
    } else {
        "Никнейм может содержать только латиницу, цифры и символ подчеркивания"@
    }
}

/// Checks an offline nickname: its length in characters first, then its
/// characters.
pub fn validate_nickname(name: &str) -> (r: Result<(), LauncherError>)
    ensures
        !(3 <= name@.len() <= 16) ==> (r matches Err(LauncherError::Auth(m)) && m@
            == "Никнейм должен содержать от 3 до 16 символов"@),
        3 <= name@.len() <= 16 && !valid_nickname(name@) ==> (r matches Err(LauncherError::Auth(m))
            && m@ == "Никнейм может содержать только латиницу, цифры и символ подчеркивания"@),
        r is Ok <==> valid_nickname(name@),
        !valid_nickname(name@) ==> (r matches Err(LauncherError::Auth(m)) && m@ == nickname_problem(
            name@,
        )),
{
    let v = text::chars_of(name);
    let len = v.len();
    if len < 3 || len > 16 {
        return Err(LauncherError::Auth(text::owned("Никнейм должен содержать от 3 до 16 символов")));
    }
    let mut i: usize = 0;
    while i < len
        invariant
            v@ == name@,
            len == v@.len(),
            3 <= len <= 16,
            i <= len,
            forall|j: int| 0 <= j < i ==> text::is_ascii_alphanumeric(#[trigger] v@[j]) || v@[j] == '_',
        decreases len - i,
    {
        let c = v[i];
        if !(text::ascii_alphanumeric(c) || c == '_') {
            return Err(
                LauncherError::Auth(
                    text::owned("Никнейм может содержать только латиницу, цифры и символ подчеркивания"),
                ),
            );
        }
        i = i + 1;
    }
    Ok(())
}

/// The MD5 digest of `data` (RFC 1321), as the `md-5` crate computes it.
pub uninterp spec fn md5_of(data: Seq<u8>) -> Seq<u8>;

/// `md5::Md5` over `data`: the digest of the bytes, sixteen bytes long.
#[verifier::external_body]
fn md5_digest(data: &[u8]) -> (r: Vec<u8>)
    ensures
        r@ == md5_of(data@),
        r@.len() == 16,
{
    <md5::Md5 as md5::Digest>::digest(data).to_vec()
}

/// Byte 6 of a name-based UUID: version 3 in the high nibble.
pub open spec fn uuid_version_byte(b: u8) -> u8 {
    (b & 0x0f) | 0x30
}

/// Byte 8 of a name-based UUID: the RFC 4122 variant in the top bits.
pub open spec fn uuid_variant_byte(b: u8) -> u8 {
    (b & 0x3f) | 0x80
}

/// The sixteen bytes of the offline UUID of `name`: the MD5 of
/// `OfflinePlayer:<name>` with version and variant set.
pub open spec fn offline_uuid_bytes(name: Seq<char>) -> Seq<u8> {
    let d = md5_of(encode_utf8("OfflinePlayer:"@ + name));
    d.update(6, uuid_version_byte(d[6])).update(8, uuid_variant_byte(d[8]))
}

/// The offline UUID of a nickname (Mojang's offline-mode scheme), as 32
/// lower-case hexadecimal digits.
pub fn offline_uuid(name: &str) -> (r: String)
    ensures
        r@ == text::hex_lower(offline_uuid_bytes(name@)),
        offline_uuid_bytes(name@).len() == 16,
        r@.len() == 32,
        forall|i: int| 0 <= i < 32 ==> text::is_hex_lower_digit(#[trigger] r@[i]),
        r@[12] == '3',
        r@[16] == '8' || r@[16] == '9' || r@[16] == 'a' || r@[16] == 'b',
{
    let input = text::concat2("OfflinePlayer:", name);
    let bytes = input.as_str().as_bytes();
    let mut d = md5_digest(bytes);
    let b6 = d[6];
    let b8 = d[8];
    d.set(6, (b6 & 0x0f) | 0x30);
    d.set(8, (b8 & 0x3f) | 0x80);
    proof {
        reveal_strlit("OfflinePlayer:");
    }
    assert(d@ =~= offline_uuid_bytes(name@));
    let r = text::hex_string(d.as_slice());
    proof {
        let u = offline_uuid_bytes(name@);
        assert(u[6] == (b6 & 0x0f) | 0x30);
        assert(u[8] == (b8 & 0x3f) | 0x80);
        assert(((b6 & 0x0f) | 0x30) / 16 == 3) by (bit_vector);
        let hi8 = ((b8 & 0x3f) | 0x80) / 16;
        assert(8 <= ((b8 & 0x3f) | 0x80) / 16 <= 11) by (bit_vector);
        text::lemma_hex_lower_index(u, 6);
        text::lemma_hex_lower_index(u, 8);
        text::lemma_hex_lower_digits(u);
    }
    r
}

/// The 8-4-4-4-12 form of a 32-byte UUID text; any other text is returned
/// unchanged.
pub open spec fn dashed_text(s: Seq<char>) -> Seq<char> {
    let b = encode_utf8(s);
    if b.len() != 32 {
        s
    } else {
        decode_utf8(b.subrange(0, 8)) + "-"@ + decode_utf8(b.subrange(8, 12)) + "-"@ + decode_utf8(
            b.subrange(12, 16),
        ) + "-"@ + decode_utf8(b.subrange(16, 20)) + "-"@ + decode_utf8(b.subrange(20, 32))
    }
}

/// Inserts the dashes into a 32-byte UUID text.
pub fn dashed_uuid(uuid: &str) -> (r: String)
    requires
        uuid.spec_bytes().len() == 32 ==> is_char_boundary(uuid.spec_bytes(), 8)
            && is_char_boundary(uuid.spec_bytes(), 12) && is_char_boundary(uuid.spec_bytes(), 16)
            && is_char_boundary(uuid.spec_bytes(), 20),
    ensures
        r@ == dashed_text(uuid@),
{
    broadcast use vstd::utf8::encode_utf8_decode_utf8, vstd::utf8::encode_utf8_valid_utf8,
        vstd::utf8::is_char_boundary_iff_not_is_continuation_byte;

    let byte_len = uuid.as_bytes().len();
    if byte_len != 32 {
        return text::owned(uuid);
    }
    let ghost b = uuid.spec_bytes();
    proof {
        vstd::utf8::encode_utf8_valid_utf8(uuid@);
    }
    let (x, p5) = uuid.split_at(20);
    assert(x.spec_bytes() =~= b.subrange(0, 20));
    proof {
        vstd::utf8::encode_utf8_valid_utf8(x@);
        vstd::utf8::is_char_boundary_iff_not_is_continuation_byte(b, 16);
        vstd::utf8::is_char_boundary_iff_not_is_continuation_byte(x.spec_bytes(), 16);
        assert(x.spec_bytes()[16] == b[16]);
    }
    let (y, p4) = x.split_at(16);
    proof {
        vstd::utf8::encode_utf8_valid_utf8(y@);
        vstd::utf8::is_char_boundary_iff_not_is_continuation_byte(b, 12);
        vstd::utf8::is_char_boundary_iff_not_is_continuation_byte(y.spec_bytes(), 12);
        assert(y.spec_bytes()[12] == b[12]);
    }
    let (z, p3) = y.split_at(12);
    proof {
        vstd::utf8::encode_utf8_valid_utf8(z@);
        vstd::utf8::is_char_boundary_iff_not_is_continuation_byte(b, 8);
        vstd::utf8::is_char_boundary_iff_not_is_continuation_byte(z.spec_bytes(), 8);
        assert(z.spec_bytes()[8] == b[8]);
    }
    let (p1, p2) = z.split_at(8);
    proof {
        assert(p1.spec_bytes() =~= b.subrange(0, 8));
        assert(p2.spec_bytes() =~= b.subrange(8, 12));
        assert(p3.spec_bytes() =~= b.subrange(12, 16));
        assert(p4.spec_bytes() =~= b.subrange(16, 20));
        assert(p5.spec_bytes() =~= b.subrange(20, 32));
        assert(decode_utf8(encode_utf8(p1@)) == p1@);
        assert(decode_utf8(encode_utf8(p2@)) == p2@);
        assert(decode_utf8(encode_utf8(p3@)) == p3@);
        assert(decode_utf8(encode_utf8(p4@)) == p4@);
        assert(decode_utf8(encode_utf8(p5@)) == p5@);
    }
    let mut out = text::owned(p1);
    out.append("-");
    out.append(p2);
    out.append("-");
    out.append(p3);
    out.append("-");
    out.append(p4);
    out.append("-");
    out.append(p5);
    out
}

/// Signs in offline: checks the nickname and makes an account with its
/// offline UUID in dashed form.
/// What a freshly made account has of no sign-in: no tokens, no expiry and
/// no skin, active, with a random (version 4) id.
pub open spec fn fresh_account(a: Account) -> bool {
    &&& a.access_token is None
    &&& a.refresh_token is None
    &&& a.expires_at is None
    &&& a.skin_url is None
    &&& a.active
    &&& ids::is_v4_uuid(a.id)
}

pub fn login_offline(name: &str) -> (r: Result<Account, LauncherError>)
    ensures
        r matches Ok(a) ==> fresh_account(a),
        r is Ok <==> valid_nickname(name@),
        r matches Ok(a) ==> a.account_type == AccountType::Offline && a.username@ == name@
            && a.uuid@ == dashed_text(text::hex_lower(offline_uuid_bytes(name@))),
        !valid_nickname(name@) ==> (r matches Err(LauncherError::Auth(m)) && m@ == nickname_problem(
            name@,
        )),
        r matches Ok(a) ==> dashed_shape(a.uuid@),
{
    match validate_nickname(name) {
        Err(e) => Err(e),
        Ok(()) => {
            let raw = offline_uuid(name);
            proof {
                ascii_hex_boundaries(raw@);
                lemma_hex_lower_is_hex(offline_uuid_bytes(name@));
                assert(vstd::utf8::is_ascii_chars(raw@));
                lemma_dashed_shape(raw@);
            }
            let dashed = dashed_uuid(raw.as_str());
            Ok(Account::new_offline(text::owned(name), dashed))
        },
    }
}

/// Every lower-case hexadecimal digit is ASCII.
pub open spec fn all_hex(s: Seq<char>) -> bool {
    forall|i: int| 0 <= i < s.len() ==> text::is_ascii_hexdigit(#[trigger] s[i])
}

proof fn lemma_hex_lower_is_hex(bytes: Seq<u8>)
    ensures
        all_hex(text::hex_lower(bytes)),
    decreases bytes.len(),
{
    if bytes.len() > 0 {
        lemma_hex_lower_is_hex(bytes.drop_first());
        let h = text::hex_lower(bytes);
        let rest = text::hex_lower(bytes.drop_first());
        assert forall|i: int| 0 <= i < h.len() implies text::is_ascii_hexdigit(#[trigger] h[i]) by {
            if i >= 2 {
                assert(h[i] == rest[i - 2]);
            }
        }
    }
}

proof fn ascii_hex_boundaries(s: Seq<char>)
    requires
        exists|bytes: Seq<u8>| s == text::hex_lower(bytes),
    ensures
        encode_utf8(s).len() == 32 ==> is_char_boundary(encode_utf8(s), 8) && is_char_boundary(
            encode_utf8(s),
            12,
        ) && is_char_boundary(encode_utf8(s), 16) && is_char_boundary(encode_utf8(s), 20),
{
    broadcast use vstd::utf8::is_ascii_chars_encode_utf8, vstd::utf8::encode_utf8_valid_utf8,
        vstd::utf8::is_char_boundary_iff_not_is_continuation_byte;

    let bytes = choose|bytes: Seq<u8>| s == text::hex_lower(bytes);
    lemma_hex_lower_is_hex(bytes);
    assert(vstd::utf8::is_ascii_chars(s));
    let e = encode_utf8(s);
    vstd::utf8::is_ascii_chars_encode_utf8(s);
    vstd::utf8::encode_utf8_valid_utf8(s);
    if e.len() == 32 {
        vstd::utf8::is_char_boundary_iff_not_is_continuation_byte(e, 8);
        vstd::utf8::is_char_boundary_iff_not_is_continuation_byte(e, 12);
        vstd::utf8::is_char_boundary_iff_not_is_continuation_byte(e, 16);
        vstd::utf8::is_char_boundary_iff_not_is_continuation_byte(e, 20);
        assert(e[8] == s[8] as u8);
        assert(e[12] == s[12] as u8);
        assert(e[16] == s[16] as u8);
        assert(e[20] == s[20] as u8);
        assert(text::is_ascii_hexdigit(s[8]));
        assert(text::is_ascii_hexdigit(s[12]));
        assert(text::is_ascii_hexdigit(s[16]));
        assert(text::is_ascii_hexdigit(s[20]));
    }
}

/// The 8-4-4-4-12 shape of a UUID text: 36 characters with dashes at 8,
/// 13, 18 and 23.
pub open spec fn dashed_shape(s: Seq<char>) -> bool {
    &&& s.len() == 36
    &&& s[8] == '-'
    &&& s[13] == '-'
    &&& s[18] == '-'
    &&& s[23] == '-'
}

/// The bytes of an ASCII text, cut between two positions, read back as text
/// are that part of the text.
proof fn lemma_ascii_cut(s: Seq<char>, a: int, b: int)
    requires
        vstd::utf8::is_ascii_chars(s),
        0 <= a <= b <= s.len(),
    ensures
        decode_utf8(encode_utf8(s).subrange(a, b)) == s.subrange(a, b),
{
    broadcast use vstd::utf8::encode_utf8_decode_utf8;

    let t = s.subrange(a, b);
    vstd::utf8::is_ascii_chars_encode_utf8(s);
    assert(vstd::utf8::is_ascii_chars(t));
    vstd::utf8::is_ascii_chars_encode_utf8(t);
    assert(encode_utf8(s).subrange(a, b) =~= encode_utf8(t));
}

/// A 32-character ASCII text in dashed form has the UUID shape.
proof fn lemma_dashed_shape(s: Seq<char>)
    requires
        vstd::utf8::is_ascii_chars(s),
        s.len() == 32,
    ensures
        dashed_shape(dashed_text(s)),
{
    vstd::utf8::is_ascii_chars_encode_utf8(s);
    lemma_ascii_cut(s, 0, 8);
    lemma_ascii_cut(s, 8, 12);
    lemma_ascii_cut(s, 12, 16);
    lemma_ascii_cut(s, 16, 20);
    lemma_ascii_cut(s, 20, 32);
    reveal_strlit("-");
    let d = dashed_text(s);
    assert(d =~= s.subrange(0, 8) + "-"@ + s.subrange(8, 12) + "-"@ + s.subrange(12, 16) + "-"@
        + s.subrange(16, 20) + "-"@ + s.subrange(20, 32));
}

// ---------------------------------------------------------------------------
// Account database
// ---------------------------------------------------------------------------

/// The stored accounts and the id of the active one.
#[derive(Debug, Clone)]
pub struct AccountDatabase {
    pub accounts: Vec<Account>,
    pub active_account_id: Option<u128>,
}

impl AccountDatabase {
    /// The empty database.
    pub fn empty() -> (r: Self)
        ensures
            r.accounts@.len() == 0,
            r.active_account_id is None,
    {
        AccountDatabase { accounts: Vec::new(), active_account_id: None }
    }
}

/// Index of the first account with id `id`.
pub open spec fn first_with_id(accounts: Seq<Account>, id: u128) -> Option<int>
    decreases accounts.len(),
{
    if accounts.len() == 0 {
        None
    } else if accounts[0].id == id {
        Some(0)
    } else {
        match first_with_id(accounts.drop_first(), id) {
            Some(k) => Some(k + 1),
            None => None,
        }
    }
}

/// Index of the first account with this username and kind.
pub open spec fn first_same_login(accounts: Seq<Account>, username: Seq<char>, kind: AccountType) -> Option<int>
    decreases accounts.len(),
{
    if accounts.len() == 0 {
        None
    } else if accounts[0].username@ == username && accounts[0].account_type == kind {
        Some(0)
    } else {
        match first_same_login(accounts.drop_first(), username, kind) {
            Some(k) => Some(k + 1),
            None => None,
        }
    }
}

/// The active account: the first one with the active id, else the first
/// account.
pub open spec fn active_of(accounts: Seq<Account>, active: Option<u128>) -> Option<Account> {
    let by_id = match active {
        Some(id) => match first_with_id(accounts, id) {
            Some(k) => Some(accounts[k]),
            None => None,
        },
        None => None,
    };
    match by_id {
        Some(a) => Some(a),
        None => if accounts.len() > 0 {
            Some(accounts[0])
        } else {
            None
        },
    }
}

/// The accounts without those whose id is `id`, in order.
pub open spec fn without_id(accounts: Seq<Account>, id: u128) -> Seq<Account>
    decreases accounts.len(),
{
    if accounts.len() == 0 {
        accounts
    } else if accounts.last().id == id {
        without_id(accounts.drop_last(), id)
    } else {
        without_id(accounts.drop_last(), id).push(accounts.last())
    }
}

proof fn lemma_first_with_id(accounts: Seq<Account>, id: u128)
    ensures
        match first_with_id(accounts, id) {
            Some(k) => 0 <= k < accounts.len() && accounts[k].id == id && forall|j: int|
                0 <= j < k ==> accounts[j].id != id,
            None => forall|j: int| 0 <= j < accounts.len() ==> accounts[j].id != id,
        },
    decreases accounts.len(),
{
    if accounts.len() > 0 {
        lemma_first_with_id(accounts.drop_first(), id);
        if accounts[0].id != id {
            match first_with_id(accounts.drop_first(), id) {
                Some(k) => {
                    assert forall|j: int| 0 <= j < k + 1 implies accounts[j].id != id by {
                        if j > 0 {
                            assert(accounts[j] == accounts.drop_first()[j - 1]);
                        }
                    }
                },
                None => {
                    assert forall|j: int| 0 <= j < accounts.len() implies accounts[j].id != id by {
                        if j > 0 {
                            assert(accounts[j] == accounts.drop_first()[j - 1]);
                        }
                    }
                },
            }
        }
    }
}

proof fn lemma_first_same_login(accounts: Seq<Account>, username: Seq<char>, kind: AccountType)
    ensures
        match first_same_login(accounts, username, kind) {
            Some(k) => 0 <= k < accounts.len() && accounts[k].username@ == username
                && accounts[k].account_type == kind && forall|j: int|
                0 <= j < k ==> !(accounts[j].username@ == username && accounts[j].account_type
                    == kind),
            None => forall|j: int|
                0 <= j < accounts.len() ==> !(accounts[j].username@ == username
                    && accounts[j].account_type == kind),
        },
    decreases accounts.len(),
{
    if accounts.len() > 0 {
        lemma_first_same_login(accounts.drop_first(), username, kind);
        if !(accounts[0].username@ == username && accounts[0].account_type == kind) {
            match first_same_login(accounts.drop_first(), username, kind) {
                Some(k) => {
                    assert forall|j: int| 0 <= j < k + 1 implies !(accounts[j].username@ == username
                        && accounts[j].account_type == kind) by {
                        if j > 0 {
                            assert(accounts[j] == accounts.drop_first()[j - 1]);
                        }
                    }
                },
                None => {
                    assert forall|j: int| 0 <= j < accounts.len() implies !(accounts[j].username@
                        == username && accounts[j].account_type == kind) by {
                        if j > 0 {
                            assert(accounts[j] == accounts.drop_first()[j - 1]);
                        }
                    }
                },
            }
        }
    }
}

fn find_id(accounts: &Vec<Account>, id: u128) -> (r: Option<usize>)
    ensures
        match first_with_id(accounts@, id) {
            Some(k) => r matches Some(i) && i as int == k,
            None => r is None,
        },
{
    proof {
        lemma_first_with_id(accounts@, id);
    }
    let mut i: usize = 0;
    while i < accounts.len()
        invariant
            i <= accounts@.len(),
            forall|j: int| 0 <= j < i ==> accounts@[j].id != id,
            match first_with_id(accounts@, id) {
                Some(k) => 0 <= k < accounts@.len() && accounts@[k].id == id && forall|j: int|
                    0 <= j < k ==> accounts@[j].id != id,
                None => forall|j: int| 0 <= j < accounts@.len() ==> accounts@[j].id != id,
            },
        decreases accounts@.len() - i,
    {
        if accounts[i].id == id {
            return Some(i);
        }
        i = i + 1;
    }
    None
}

fn find_same_login(accounts: &Vec<Account>, username: &str, kind: AccountType) -> (r: Option<usize>)
    ensures
        match first_same_login(accounts@, username@, kind) {
            Some(k) => r matches Some(i) && i as int == k,
            None => r is None,
        },
{
    proof {
        lemma_first_same_login(accounts@, username@, kind);
    }
    let mut i: usize = 0;
    while i < accounts.len()
        invariant
            i <= accounts@.len(),
            forall|j: int|
                0 <= j < i ==> !(accounts@[j].username@ == username@ && accounts@[j].account_type
                    == kind),
            match first_same_login(accounts@, username@, kind) {
                Some(k) => 0 <= k < accounts@.len() && accounts@[k].username@ == username@
                    && accounts@[k].account_type == kind && forall|j: int|
                    0 <= j < k ==> !(accounts@[j].username@ == username@
                        && accounts@[j].account_type == kind),
                None => forall|j: int|
                    0 <= j < accounts@.len() ==> !(accounts@[j].username@ == username@
                        && accounts@[j].account_type == kind),
            },
        decreases accounts@.len() - i,
    {
        if text::str_eq(accounts[i].username.as_str(), username) && accounts[i].account_type == kind {
            return Some(i);
        }
        i = i + 1;
    }
    None
}

/// The accounts of the launcher, kept in a database file at `db_path`.
/// Reading and writing that file is the caller's part: every change here is
/// followed by a save.
#[derive(Debug, Clone)]
pub struct AccountManager {
    db_path: String,
    db: AccountDatabase,
}

impl View for AccountManager {
    type V = (Seq<Account>, Option<u128>, Seq<char>);

    closed spec fn view(&self) -> Self::V {
        (self.db.accounts@, self.db.active_account_id, self.db_path@)
    }
}

impl AccountManager {
    /// A manager over a database loaded from `db_path`.
    pub fn from_database(db_path: &str, db: AccountDatabase) -> (r: Self)
        ensures
            r@ == (db.accounts@, db.active_account_id, db_path@),
    {
        AccountManager { db_path: text::owned(db_path), db }
    }

    /// Where the database is stored.
    pub fn db_path(&self) -> (r: &String)
        ensures
            r@ == self@.2,
    {
        &self.db_path
    }

    /// The database, as it is to be saved.
    pub fn database(&self) -> (r: &AccountDatabase)
        ensures
            r.accounts@ == self@.0,
            r.active_account_id == self@.1,
    {
        &self.db
    }

    /// Every stored account.
    pub fn accounts(&self) -> (r: &[Account])
        ensures
            r@ == self@.0,
    {
        self.db.accounts.as_slice()
    }

    /// The active account: the one with the active id, else the first.
    pub fn active_account(&self) -> (r: Option<&Account>)
        ensures
            match active_of(self@.0, self@.1) {
                Some(a) => r matches Some(x) && *x == a,
                None => r is None,
            },
    {
        proof {
            match self.db.active_account_id {
                Some(id) => lemma_first_with_id(self.db.accounts@, id),
                None => {},
            }
        }
        let by_id = match self.db.active_account_id {
            Some(id) => find_id(&self.db.accounts, id),
            None => None,
        };
        match by_id {
            Some(k) => {
                Some(&self.db.accounts[k])
            },
            None => {
                if self.db.accounts.len() > 0 {
                    Some(&self.db.accounts[0])
                } else {
                    None
                }
            },
        }
    }

    /// Makes the account with id `id` active; fails when there is none.
    pub fn set_active(&mut self, id: u128) -> (r: Result<(), LauncherError>)
        ensures
            r is Ok <==> first_with_id(old(self)@.0, id) is Some,
            r is Ok ==> final(self)@ == (old(self)@.0, Some(id), old(self)@.2),
            r is Err ==> final(self)@ == old(self)@,
            r matches Err(LauncherError::Auth(m)) ==> m@ == "Account not found"@,
            r is Err ==> r matches Err(LauncherError::Auth(_)),
            final(self)@.2 == old(self)@.2,
    {
        match find_id(&self.db.accounts, id) {
            Some(_) => {
                self.db.active_account_id = Some(id);
                Ok(())
            },
            None => Err(LauncherError::Auth(text::owned("Account not found"))),
        }
    }

    /// Stores `account`: it replaces the first account with the same
    /// username and kind, or is appended; either way it becomes active.
    pub fn add_or_update_account(&mut self, account: Account)
        ensures
            final(self)@.1 == Some(account.id),
            final(self)@.2 == old(self)@.2,
            match first_same_login(old(self)@.0, account.username@, account.account_type) {
                Some(k) => final(self)@.0 == old(self)@.0.update(k, account),
                None => final(self)@.0 == old(self)@.0.push(account),
            },
    {
        let id = account.id;
        proof {
            lemma_first_same_login(self.db.accounts@, account.username@, account.account_type);
        }
        match find_same_login(&self.db.accounts, account.username.as_str(), account.account_type) {
            Some(pos) => {
                self.db.accounts.set(pos, account);
                self.db.active_account_id = Some(id);
            },
            None => {
                self.db.accounts.push(account);
                self.db.active_account_id = Some(id);
            },
        }
    }

    /// Removes every account with id `id`; when it was the active one, the
    /// first remaining account (if any) becomes active.
    pub fn remove_account(&mut self, id: u128)
        ensures
            final(self)@.0 == without_id(old(self)@.0, id),
            final(self)@.1 == (if old(self)@.1 == Some(id) {
                if without_id(old(self)@.0, id).len() > 0 {
                    Some(without_id(old(self)@.0, id)[0].id)
                } else {
                    None
                }
            } else {
                old(self)@.1
            }),
            final(self)@.2 == old(self)@.2,
    {
        let mut kept: Vec<Account> = Vec::new();
        let mut rest: Vec<Account> = Vec::new();
        std::mem::swap(&mut rest, &mut self.db.accounts);
        let ghost all = rest@;
        let total: usize = rest.len();
        let mut i: usize = 0;
        let mut taken: Vec<Account> = Vec::new();
        while rest.len() > 0
            invariant
                total == all.len(),
                i + rest@.len() == all.len(),
                rest@ == all.subrange(i as int, all.len() as int),
                kept@ == without_id(all.subrange(0, i as int), id),
            decreases rest@.len(),
        {
            let a = rest.remove(0);
            proof {
                assert(all.subrange(0, i + 1).drop_last() =~= all.subrange(0, i as int));
                assert(all.subrange(0, i + 1).last() == a);
            }
            if a.id != id {
                kept.push(a);
            } else {
                taken.push(a);
            }
            i = i + 1;
            assert(rest@ =~= all.subrange(i as int, all.len() as int));
        }
        assert(all.subrange(0, all.len() as int) =~= all);
        self.db.accounts = kept;
        if self.db.active_account_id == Some(id) {
            self.db.active_account_id = if self.db.accounts.len() > 0 {
                Some(self.db.accounts[0].id)
            } else {
                None
            };
        }
    }

    /// The session of the active account.
    pub fn get_session(&self) -> (r: Option<AuthSession>)
        ensures
            match active_of(self@.0, self@.1) {
                Some(a) => r matches Some(s) && s.username@ == a.username@ && s.uuid@ == a.uuid@
                    && s.access_token@ == session_token(a) && s.user_type@ == session_user_type(
                    a.account_type,
                ),
                None => r is None,
            },
    {
        match self.active_account() {
            Some(a) => Some(AuthSession::from_account(a)),
            None => None,
        }
    }
}

/// After storing an account it is the active one, provided no other stored
/// account (one with another username or kind) shares its id.
pub proof fn stored_account_is_active(before: Seq<Account>, account: Account, after: Seq<Account>)
    requires
        forall|j: int|
            0 <= j < before.len() && before[j].id == account.id ==> before[j].username@
                == account.username@ && before[j].account_type == account.account_type,
        match first_same_login(before, account.username@, account.account_type) {
            Some(k) => after == before.update(k, account),
            None => after == before.push(account),
        },
    ensures
        active_of(after, Some(account.id)) == Some(account),
{
    lemma_first_same_login(before, account.username@, account.account_type);
    lemma_first_with_id(after, account.id);
    match first_same_login(before, account.username@, account.account_type) {
        Some(k) => {
            assert(after[k] == account);
            match first_with_id(after, account.id) {
                Some(m) => {
                    if m < k {
                        assert(after[m] == before[m]);
                    } else if m > k {
                        assert(after[k].id == account.id);
                    }
                },
                None => {},
            }
        },
        None => {
            assert(after[before.len() as int] == account);
            match first_with_id(after, account.id) {
                Some(m) => {
                    if m < before.len() {
                        assert(after[m] == before[m]);
                    }
                },
                None => {},
            }
        },
    }
}

/// Removing an account leaves no account with its id, keeps every other
/// account in order, and never leaves the active id pointing at it.
pub proof fn removed_account_is_gone(accounts: Seq<Account>, id: u128)
    ensures
        forall|j: int| 0 <= j < without_id(accounts, id).len() ==> without_id(accounts, id)[j].id
            != id,
        without_id(accounts, id).len() <= accounts.len(),
        first_with_id(without_id(accounts, id), id) is None,
    decreases accounts.len(),
{
    if accounts.len() > 0 {
        removed_account_is_gone(accounts.drop_last(), id);
        let w = without_id(accounts.drop_last(), id);
        if accounts.last().id != id {
            assert forall|j: int| 0 <= j < w.push(accounts.last()).len() implies w.push(
                accounts.last(),
            )[j].id != id by {
                if j < w.len() {
                    assert(w.push(accounts.last())[j] == w[j]);
                }
            }
        }
    }
    lemma_first_with_id(without_id(accounts, id), id);
}

// ---------------------------------------------------------------------------
// Sign-in flows
// ---------------------------------------------------------------------------

/// The Azure client id of the Minecraft launcher.
pub fn default_client_id() -> (r: &'static str)
    ensures
        r@ == "00000000402b5328"@,
{
    "00000000402b5328"
}

/// What a poll of the Microsoft token endpoint means.
#[derive(Debug, Clone)]
pub enum TokenPoll {
    /// The user has not confirmed the code yet; poll again.
    Pending,
    /// Continue with the Xbox Live sign-in using this Microsoft token.
    Authorized,
    /// The flow failed.
    Failed(LauncherError),
}

/// Reads the `error` field of a token poll response.
pub fn interpret_token_poll(error: Option<&str>) -> (r: TokenPoll)
    ensures
        error is None ==> r is Authorized,
        error matches Some(e) && e@ == "authorization_pending"@ ==> r is Pending,
        forall|e: &str|
            error == Some(e) && e@ != "authorization_pending"@ ==> (r matches TokenPoll::Failed(
                LauncherError::Auth(m),
            ) && m@ == "MS auth failed: "@ + e@),
{
    match error {
        None => TokenPoll::Authorized,
        Some(e) => {
            if text::str_eq(e, "authorization_pending") {
                TokenPoll::Pending
            } else {
                TokenPoll::Failed(LauncherError::Auth(text::concat2("MS auth failed: ", e)))
            }
        },
    }
}

/// The RPS ticket sent to Xbox Live for a Microsoft access token.
pub fn rps_ticket(access_token: &str) -> (r: String)
    ensures
        r@ == "d="@ + access_token@,
{
    text::concat2("d=", access_token)
}

/// The user hash of an Xbox Live response: the first claim's, or an error
/// when there is none.
pub fn first_user_hash(claims: &Vec<String>) -> (r: Result<String, LauncherError>)
    ensures
        claims@.len() > 0 ==> (r matches Ok(h) && h@ == claims@[0]@),
        claims@.len() == 0 ==> (r matches Err(LauncherError::Auth(m)) && m@
            == "Missing Xbox Live user hash"@),
{
    if claims.len() > 0 {
        Ok(text::owned(claims[0].as_str()))
    } else {
        Err(LauncherError::Auth(text::owned("Missing Xbox Live user hash")))
    }
}

/// The identity token for the Minecraft services login.
pub fn xbox_identity_token(user_hash: &str, xsts_token: &str) -> (r: String)
    ensures
        r@ == "XBL3.0 x="@ + user_hash@ + ";"@ + xsts_token@,
{
    let mut out = text::concat2("XBL3.0 x=", user_hash);
    out.append(";");
    out.append(xsts_token);
    out
}

/// When a Microsoft token that is valid for `expires_in` seconds from `now`
/// (milliseconds) expires, in milliseconds; `None` without a lifetime or when
/// the instant does not fit.
pub fn token_expiry(now: i64, expires_in: Option<i64>) -> (r: Option<i64>)
    ensures
        match expires_in {
            None => r is None,
            Some(sec) => if i64::MIN <= sec * 1000 <= i64::MAX && i64::MIN <= now + sec * 1000
                <= i64::MAX {
                r == Some((now + sec * 1000) as i64)
            } else {
                r is None
            },
        },
{
    match expires_in {
        None => None,
        Some(sec) => {
            let ms = sec.checked_mul(1000);
            match ms {
                Some(m) => now.checked_add(m),
                None => None,
            }
        },
    }
}

/// The endpoint of a WetID call below the service's base URL.
pub fn wetid_endpoint(api_url: &str, path: &str) -> (r: String)
    ensures
        r@ == api_url@ + "/"@ + path@,
{
    text::concat3(api_url, "/", path)
}

/// The default WetID service.
pub fn default_wetid_api() -> (r: String)
    ensures
        r@ == "https://api.aleph.network/v1/auth/wetid"@,
{
    text::owned("https://api.aleph.network/v1/auth/wetid")
}

/// The device code Microsoft hands out for a sign-in.
#[derive(Debug, Clone)]
pub struct DeviceCodeResponse {
    pub device_code: String,
    pub user_code: String,
    pub verification_uri: String,
    pub expires_in: u64,
    pub interval: u64,
    pub message: String,
}

/// The Minecraft profile of a signed-in player.
#[derive(Debug, Clone)]
pub struct MinecraftProfileResponse {
    pub id: String,
    pub name: String,
}

pub open spec fn form_texts(p: Seq<(String, String)>) -> Seq<(Seq<char>, Seq<char>)> {
    p.map_values(|q: (String, String)| (q.0@, q.1@))
}

/// The form that asks Microsoft for a device code.
pub fn device_code_form(client_id: &str) -> (r: Vec<(String, String)>)
    ensures
        form_texts(r@) == seq![
            ("client_id"@, client_id@),
            ("scope"@, "XboxLive.signin offline_access"@),
        ],
{
    let mut f: Vec<(String, String)> = Vec::new();
    f.push((text::owned("client_id"), text::owned(client_id)));
    f.push((text::owned("scope"), text::owned("XboxLive.signin offline_access")));
    proof {
        reveal_strlit("client_id");
        reveal_strlit("scope");
        reveal_strlit("XboxLive.signin offline_access");
    }
    assert(form_texts(f@) =~= seq![
        ("client_id"@, client_id@),
        ("scope"@, "XboxLive.signin offline_access"@),
    ]);
    f
}

/// The form of one poll of the Microsoft token endpoint.
pub fn token_poll_form(client_id: &str, device_code: &str) -> (r: Vec<(String, String)>)
    ensures
        form_texts(r@) == seq![
            ("client_id"@, client_id@),
            ("grant_type"@, "urn:ietf:params:oauth:grant-type:device_code"@),
            ("device_code"@, device_code@),
        ],
{
    let mut f: Vec<(String, String)> = Vec::new();
    f.push((text::owned("client_id"), text::owned(client_id)));
    f.push(
        (text::owned("grant_type"), text::owned("urn:ietf:params:oauth:grant-type:device_code")),
    );
    f.push((text::owned("device_code"), text::owned(device_code)));
    proof {
        reveal_strlit("client_id");
        reveal_strlit("grant_type");
        reveal_strlit("urn:ietf:params:oauth:grant-type:device_code");
        reveal_strlit("device_code");
    }
    assert(form_texts(f@) =~= seq![
        ("client_id"@, client_id@),
        ("grant_type"@, "urn:ietf:params:oauth:grant-type:device_code"@),
        ("device_code"@, device_code@),
    ]);
    f
}

/// The Microsoft account of a signed-in player: its name and id from the
/// profile, the Minecraft access token, and the Microsoft refresh token and
/// expiry.
pub fn microsoft_account(
    profile: MinecraftProfileResponse,
    access_token: String,
    refresh_token: Option<String>,
    expires_at: Option<i64>,
) -> (r: Account)
    ensures
        r.account_type == AccountType::Microsoft,
        r.username == profile.name,
        r.uuid == profile.id,
        r.access_token == Some(access_token),
        r.refresh_token == refresh_token,
        r.expires_at == expires_at,
        r.skin_url is None,
        r.active,
{
    Account::new_microsoft(profile.name, profile.id, access_token, refresh_token, expires_at)
}

/// A WetID sign-in request.
#[derive(Debug, Clone)]
pub struct WetIdLoginRequest {
    pub login: String,
    pub password: Option<String>,
    pub token: Option<String>,
}

impl WetIdLoginRequest {
    /// A sign-in with login and password.
    pub fn with_password(login: &str, password: &str) -> (r: Self)
        ensures
            r.login@ == login@,
            r.password matches Some(p) && p@ == password@,
            r.token is None,
    {
        WetIdLoginRequest { login: text::owned(login), password: Some(text::owned(password)), token: None }
    }
}

/// The profile WetID returns for a signed-in player.
#[derive(Debug, Clone)]
pub struct WetIdProfile {
    pub uuid: String,
    pub username: String,
    pub token: String,
    pub skin_url: Option<String>,
    pub trust_level: u32,
}

/// The WetID account of a signed-in player.
pub fn wetid_account(profile: WetIdProfile) -> (r: Account)
    ensures
        r.account_type == AccountType::WetId,
        r.username == profile.username,
        r.uuid == profile.uuid,
        r.access_token == Some(profile.token),
        r.refresh_token is None,
        r.expires_at is None,
        r.skin_url == profile.skin_url,
        r.active,
{
    Account::new_wetid(profile.username, profile.uuid, profile.token, profile.skin_url)
}

} // verus!
