//! Signing in, passwords, and the administration of users.
use vstd::prelude::*;
use vstd::string::*;

use crate::claims::{holds_role, missing_role, role_among, Claims};
use crate::error::{failure, ApiError, ErrorKind, ErrorView};
use crate::text::{decimal, push_decimal, same_text};

verus! {

/// How long an access token is valid, in seconds.
pub const ACCESS_TOKEN_TTL: i64 = 10_800;

/// How long a refresh token is valid, in seconds.
pub const REFRESH_TOKEN_EXPIRATION: i64 = 86_400;

/// How long a temporary password is valid, in seconds.
pub const TEMP_PASSWORD_EXPIRY: i64 = 600;

/// How long after a reset email no other is sent, in seconds.
pub const TEMP_PASSWORD_MINIMUM_RESEND_WAIT: i64 = 120;

/// The least number of characters of a password.
pub const PASSWORD_MINIMUM_LENGTH: usize = 8;

/// A request to sign in.
#[derive(Clone, Debug, PartialEq, Eq)]
pub struct LoginRequest {
    pub email: String,
    pub password: String,
}

/// What a user is told after signing in.
#[derive(Clone, Debug, PartialEq, Eq)]
pub struct LoggedInUser {
    pub id: i64,
    pub name: String,
    pub email: String,
    pub phone: Option<String>,
    pub roles: Vec<String>,
    pub access_token: String,
}

/// The answer to signing in: the user, and the cookie that carries the
/// refresh token.
#[derive(Clone, Debug, PartialEq, Eq)]
pub struct LoginResponse {
    pub inner: LoggedInUser,
    pub cookie: String,
}

/// What is recorded of a user for signing in.
#[derive(Clone, Debug, PartialEq, Eq)]
pub struct UserLoginRecord {
    pub id: i64,
    pub name: String,
    pub email: String,
    pub phone: Option<String>,
    /// The hash of the password; `None` until the user has set one.
    pub pwd: Option<String>,
    /// The roles, separated by commas.
    pub roles: String,
}

/// A request to change a password.
#[derive(Clone, Debug, PartialEq, Eq)]
pub struct UpdatePasswordRequest {
    pub username: String,
    pub current_password: String,
    pub new_password: String,
}

/// A request to register a user.
#[derive(Clone, Debug, PartialEq, Eq)]
pub struct NewUserRequest {
    pub name: String,
    pub email: String,
    pub phone: Option<String>,
    pub website_url: String,
    pub reset_url: String,
}

/// A request for a reset email.
#[derive(Clone, Debug, PartialEq, Eq)]
pub struct PasswordResetRequest {
    pub email: String,
    pub website_url: String,
    pub reset_url: String,
}

/// A request to set a new password with a temporary one.
#[derive(Clone, Debug, PartialEq, Eq)]
pub struct UserPasswordReset {
    pub email: String,
    pub temp_password: String,
    pub new_password: String,
    pub website_url: String,
}

/// A user as it is listed.
#[derive(Clone, Debug, PartialEq, Eq)]
pub struct User {
    pub id: i64,
    pub name: String,
    pub email: String,
    pub phone: Option<String>,
    pub roles: Vec<String>,
}

/// A request to delete a user.
#[derive(Clone, Debug, PartialEq, Eq)]
pub struct UserDelete {
    pub password: Option<String>,
    pub website_url: String,
}

/// The new state of a user.
#[derive(Clone, Debug, PartialEq, Eq)]
pub struct UserUpdate {
    pub name: String,
    pub email: String,
    pub phone: Option<String>,
    pub roles: Vec<String>,
}

/// Which passwords a generator makes.
#[derive(Clone, Copy, Debug, PartialEq, Eq)]
pub struct PasswordPolicy {
    pub length: usize,
    pub numbers: bool,
    pub lowercase_letters: bool,
    pub uppercase_letters: bool,
    pub symbols: bool,
    pub spaces: bool,
    pub exclude_similar_characters: bool,
    pub strict: bool,
}

impl PasswordPolicy {
    /// How many kinds of characters the policy allows.
    pub open spec fn kinds(self) -> nat {
        (if self.numbers {
            1nat
        } else {
            0nat
        }) + (if self.lowercase_letters {
            1nat
        } else {
            0nat
        }) + (if self.uppercase_letters {
            1nat
        } else {
            0nat
        }) + (if self.symbols {
            1nat
        } else {
            0nat
        }) + (if self.spaces {
            1nat
        } else {
            0nat
        })
    }

    /// Whether passwords can be made under the policy: they have a length,
    /// some kind of character is allowed, and a strict policy leaves room
    /// for one character of each kind.
    pub open spec fn usable(self) -> bool {
        self.length > 0 && self.kinds() > 0 && (self.strict ==> self.length >= self.kinds())
    }
}

/// The policy of temporary passwords: twenty digits and capital letters,
/// some of each, none of them easily mistaken for another.
pub open spec fn temp_password_rules() -> PasswordPolicy {
    PasswordPolicy {
        length: 20,
        numbers: true,
        lowercase_letters: false,
        uppercase_letters: true,
        symbols: false,
        spaces: false,
        exclude_similar_characters: true,
        strict: true,
    }
}

/// The policy of temporary passwords.
pub fn temp_password_policy() -> (policy: PasswordPolicy)
    ensures
        policy == temp_password_rules(),
        policy.usable(),
{
    PasswordPolicy {
        length: 20,
        numbers: true,
        lowercase_letters: false,
        uppercase_letters: true,
        symbols: false,
        spaces: false,
        exclude_similar_characters: true,
        strict: true,
    }
}

/// Whether a password hash accepts a password, as `password_auth` judges it.
pub uninterp spec fn hash_accepts(password: Seq<char>, hash: Seq<char>) -> bool;

/// The RFC 2822 text of an instant, as `chrono` writes it.
pub uninterp spec fn rfc2822_text(at: i64) -> Option<Seq<char>>;

/// What reading a port number from text gives, as `u16::from_str` reads it:
/// the number, or the complaint.
pub uninterp spec fn port_reading(text: Seq<char>) -> Result<u16, Seq<char>>;

/// Calls `password_auth::verify_password`. The result says whether the call
/// succeeded, which depends on the password and the hash alone.
#[verifier::external_body]
fn password_verifies(password: &str, hash: &str) -> (ok: bool)
    ensures
        ok == hash_accepts(password@, hash@),
{
    password_auth::verify_password(password, hash).is_ok()
}

/// Calls `password_auth::generate_hash`, which salts at random: which hash
/// comes back is left open, but every hash it makes accepts the password
/// it was made for. Passwords that the hash function refuses as too long
/// are left out.
#[verifier::external_body]
fn hash_of(password: &str) -> (hash: String)
    requires
        password.spec_bytes().len() <= 0xFFFF_FFFF,
    ensures
        hash_accepts(password@, hash@),
{
    password_auth::generate_hash(password)
}

/// Calls `passwords::PasswordGenerator::generate_one` with the policy. It
/// succeeds exactly where the policy is usable, and each password it makes
/// has the length that the policy asks for; which characters it holds is
/// left to chance.
#[verifier::external_body]
fn generate_password(policy: &PasswordPolicy) -> (made: Result<String, String>)
    ensures
        made is Ok == policy.usable(),
        made matches Ok(password) ==> password@.len() == policy.length,
{
    let generator = passwords::PasswordGenerator {
        length: policy.length,
        numbers: policy.numbers,
        lowercase_letters: policy.lowercase_letters,
        uppercase_letters: policy.uppercase_letters,
        symbols: policy.symbols,
        spaces: policy.spaces,
        exclude_similar_characters: policy.exclude_similar_characters,
        strict: policy.strict,
    };
    generator.generate_one().map_err(|e| e.to_string())
}

/// Calls `chrono::DateTime::to_rfc2822` on the instant in UTC. The result
/// is what chrono writes for the instant alone. Instants outside the years
/// 0 to 9999, for which chrono has no such text, are left out.
#[verifier::external_body]
fn rfc2822(at: i64) -> (text: Option<String>)
    requires
        -62_167_219_200_000_000 <= at <= 253_402_300_799_999_999,
    ensures
        match text {
            Some(t) => rfc2822_text(at) == Some(t@),
            None => rfc2822_text(at) is None,
        },
{
    Some(chrono::DateTime::from_timestamp_micros(at)?.to_rfc2822())
}

/// Calls `str::parse::<u16>`. The result is what the standard library reads
/// from the text alone: the number, or the text of its complaint.
#[verifier::external_body]
fn read_port(text: &str) -> (reading: Result<u16, String>)
    ensures
        match reading {
            Ok(port) => port_reading(text@) == Ok::<u16, Seq<char>>(port),
            Err(complaint) => port_reading(text@) == Err::<u16, Seq<char>>(complaint@),
        },
{
    text.parse::<u16>().map_err(|e| e.to_string())
}

/// Whether a byte stands for itself in a percent-encoded text: digits,
/// letters, `-`, `.`, `_` and `~` do.
pub open spec fn is_unreserved(b: u8) -> bool {
    (48 <= b <= 57) || (65 <= b <= 90) || (97 <= b <= 122) || b == 45 || b == 46 || b == 95 || b
        == 126
}

/// The digit or capital letter that writes a number below sixteen.
pub open spec fn hex_digit(d: u8) -> char {
    if d < 10 {
        ((48 + d) as u8) as char
    } else {
        ((55 + d) as u8) as char
    }
}

/// Bytes with each byte that does not stand for itself written as `%` and
/// two hexadecimal digits.
pub open spec fn percent_encoded(bytes: Seq<u8>) -> Seq<char>
    decreases bytes.len(),
{
    if bytes.len() == 0 {
        Seq::empty()
    } else {
        let b = bytes.last();
        percent_encoded(bytes.drop_last()) + if is_unreserved(b) {
            seq![b as char]
        } else {
            seq!['%', hex_digit(b / 16), hex_digit(b % 16)]
        }
    }
}

/// Calls `urlencoding::encode`. The result holds the bytes of the text in
/// UTF-8, each byte but digits, letters, `-`, `.`, `_` and `~` written as
/// `%` and two hexadecimal digits in capitals.
#[verifier::external_body]
fn url_encode(text: &str) -> (encoded: String)
    ensures
        encoded@ == percent_encoded(text.spec_bytes()),
{
    urlencoding::encode(text).into_owned()
}

/// The link in a reset email: the reset page with the email address and
/// the temporary password as its parameters.
pub open spec fn reset_link(reset_url: Seq<char>, email: &str, temp_password: &str) -> Seq<char> {
    reset_url + "?email="@ + percent_encoded(email.spec_bytes()) + "&temp_pwd="@ + percent_encoded(
        temp_password.spec_bytes(),
    )
}

/// The link in a reset email.
pub fn reset_url_with_params(reset_url: &str, email: &str, temp_password: &str) -> (link: String)
    ensures
        link@ == reset_link(reset_url@, email, temp_password),
{
    let mut link: String = String::from_str(reset_url);
    link.append("?email=");
    link.append(url_encode(email).as_str());
    link.append("&temp_pwd=");
    link.append(url_encode(temp_password).as_str());
    link
}

/// The refusal of a sign-in.
pub open spec fn invalid_login() -> ErrorView {
    failure(ErrorKind::Unauthorized, "incorrect username or password"@)
}

/// What a user who signs in is told, given whether the recorded hash
/// accepted the password; `None` stands for a user without a password, who
/// has to reset it first.
pub open spec fn sign_in_verdict(accepted: Option<bool>) -> Result<(), ErrorView> {
    match accepted {
        None => Err(failure(ErrorKind::Forbidden, "please reset your password"@)),
        Some(true) => Ok(()),
        Some(false) => Err(invalid_login()),
    }
}

/// Whether the hash that is recorded for a user accepts a password, where
/// one is recorded.
pub open spec fn acceptance(pwd: Option<String>, password: Seq<char>) -> Option<bool> {
    match pwd {
        None => None,
        Some(hash) => Some(hash_accepts(password, hash@)),
    }
}

/// Whether a user may sign in with a password: a user without a password
/// has to reset it first; with one, the recorded hash must accept the
/// password.
pub open spec fn sign_in_check(pwd: Option<String>, password: Seq<char>) -> Result<(), ErrorView> {
    sign_in_verdict(acceptance(pwd, password))
}

/// Hands the record of a user back where the user may sign in, given
/// whether the recorded hash accepted the password.
pub fn sign_in(login_record: UserLoginRecord, accepted: Option<bool>) -> (r: Result<
    UserLoginRecord,
    ApiError,
>)
    ensures
        match r {
            Ok(record) => sign_in_verdict(accepted) is Ok && record == login_record,
            Err(e) => sign_in_verdict(accepted) == Err::<(), ErrorView>(e@),
        },
{
    match accepted {
        None => Err(ApiError::new(ErrorKind::Forbidden, "please reset your password")),
        Some(true) => Ok(login_record),
        Some(false) => Err(ApiError::new(ErrorKind::Unauthorized, "incorrect username or password")),
    }
}

/// Checks a password against what is recorded of a user, and hands the
/// record back where it is accepted.
pub fn verify_user(login_record: UserLoginRecord, password: &str) -> (r: Result<
    UserLoginRecord,
    ApiError,
>)
    ensures
        match r {
            Ok(record) => sign_in_check(login_record.pwd, password@) is Ok && record == login_record,
            Err(e) => sign_in_check(login_record.pwd, password@) == Err::<(), ErrorView>(e@),
        },
{
    let accepted: Option<bool> = match &login_record.pwd {
        None => None,
        Some(hash) => Some(password_verifies(password, hash.as_str())),
    };
    sign_in(login_record, accepted)
}

/// Checks a password against the record that was found for a user, if one
/// was found: an unknown user is refused as a wrong password is.
pub fn verify_found_user(found: Option<UserLoginRecord>, password: &str) -> (r: Result<
    UserLoginRecord,
    ApiError,
>)
    ensures
        match r {
            Ok(record) => found == Some(record) && sign_in_check(record.pwd, password@) is Ok,
            Err(e) => match found {
                None => e@ == invalid_login(),
                Some(record) => sign_in_check(record.pwd, password@) == Err::<(), ErrorView>(e@),
            },
        },
{
    match found {
        None => Err(ApiError::new(ErrorKind::Unauthorized, "incorrect username or password")),
        Some(record) => verify_user(record, password),
    }
}

/// Whether a new password will do: it differs from the current one and has
/// eight characters or more.
pub open spec fn suitable_password(new_password: Seq<char>, current_password: Seq<char>) -> Result<
    (),
    ErrorView,
> {
    if new_password == current_password {
        Err(
            failure(
                ErrorKind::Forbidden,
                "new password cannot be the same as the current password"@,
            ),
        )
    } else if new_password.len() < PASSWORD_MINIMUM_LENGTH {
        Err(
            failure(ErrorKind::Forbidden, "new password must be at least 8 characters in length"@),
        )
    } else {
        Ok(())
    }
}

/// A check or its refusal, with the refusal as kind and message.
pub open spec fn check_told(r: Result<(), ApiError>) -> Result<(), ErrorView> {
    match r {
        Ok(_) => Ok(()),
        Err(e) => Err(e@),
    }
}

/// Checks that a new password will do.
pub fn verify_suitable_password(new_password: &str, current_password: &str) -> (r: Result<
    (),
    ApiError,
>)
    ensures
        check_told(r) == suitable_password(new_password@, current_password@),
{
    if same_text(new_password, current_password) {
        return Err(
            ApiError::new(
                ErrorKind::Forbidden,
                "new password cannot be the same as the current password",
            ),
        );
    }
    if new_password.unicode_len() < PASSWORD_MINIMUM_LENGTH {
        return Err(
            ApiError::new(
                ErrorKind::Forbidden,
                "new password must be at least 8 characters in length",
            ),
        );
    }
    Ok(())
}

/// The hash to record for a new password: one that accepts the password,
/// so that the user signs in with it once the hash is recorded. A password
/// too long to hash is refused as an internal error.
pub fn new_password_hash(password: &str) -> (r: Result<String, ApiError>)
    ensures
        r is Ok <==> password.spec_bytes().len() <= 0xFFFF_FFFF,
        r matches Ok(hash) ==> hash_accepts(password@, hash@) && sign_in_check(
            Some(hash),
            password@,
        ) is Ok && reset_check(Some(hash), password@) is Ok,
        r matches Err(e) ==> e@ == failure(ErrorKind::InternalError, "password hashing error"@),
{
    if password.as_bytes().len() > 0xFFFF_FFFF {
        return Err(ApiError::new(ErrorKind::InternalError, "password hashing error"));
    }
    Ok(hash_of(password))
}

/// A new temporary password: twenty characters under the policy of
/// temporary passwords.
pub fn new_temp_password() -> (r: Result<String, ApiError>)
    ensures
        r matches Ok(password) && password@.len() == 20,
{
    let policy = temp_password_policy();
    match generate_password(&policy) {
        Ok(password) => Ok(password),
        Err(complaint) => Err(ApiError::with_message(ErrorKind::InternalError, complaint)),
    }
}

/// The texts of a list of strings.
pub open spec fn texts(list: Seq<String>) -> Seq<Seq<char>> {
    Seq::new(list.len(), |i: int| list[i]@)
}

/// The pieces between the commas of a text. A text without a comma is one
/// piece; the empty text is one empty piece.
pub open spec fn split_commas(text: Seq<char>) -> Seq<Seq<char>>
    decreases text.len(),
{
    if text.len() == 0 {
        seq![Seq::<char>::empty()]
    } else {
        let before = split_commas(text.drop_last());
        if text.last() == ',' {
            before.push(Seq::<char>::empty())
        } else {
            before.drop_last().push(before.last().push(text.last()))
        }
    }
}

/// The roles that a text of roles names: the pieces between its commas, and
/// none for the empty text.
pub open spec fn roles_of(text: Seq<char>) -> Seq<Seq<char>> {
    if text.len() == 0 {
        Seq::empty()
    } else {
        split_commas(text)
    }
}

/// The roles that a text of roles names.
pub fn parse_roles(roles_str: &str) -> (roles: Vec<String>)
    ensures
        texts(roles@) == roles_of(roles_str@),
{
    let n: usize = roles_str.unicode_len();
    let mut roles: Vec<String> = Vec::new();
    if n == 0 {
        assert(texts(roles@) =~= roles_of(roles_str@));
        return roles;
    }
    let mut start: usize = 0;
    let mut i: usize = 0;
    proof {
        assert(roles_str@.take(0).len() == 0);
        assert(roles_str@.subrange(0, 0) =~= Seq::<char>::empty());
        assert(texts(roles@) =~= Seq::<Seq<char>>::empty());
        assert(texts(roles@).push(roles_str@.subrange(0, 0)) =~= seq![Seq::<char>::empty()]);
    }
    while i < n
        invariant
            n == roles_str@.len(),
            start <= i <= n,
            split_commas(roles_str@.take(i as int)) == texts(roles@).push(
                roles_str@.subrange(start as int, i as int),
            ),
        decreases n - i,
    {
        let ghost before = texts(roles@);
        let ghost piece = roles_str@.subrange(start as int, i as int);
        let c: char = roles_str.get_char(i);
        proof {
            assert(roles_str@.take(i + 1).drop_last() =~= roles_str@.take(i as int));
            assert(roles_str@.take(i + 1).last() == c);
            assert(before.push(piece).drop_last() =~= before);
        }
        if c == ',' {
            roles.push(String::from_str(roles_str.substring_char(start, i)));
            start = i + 1;
            proof {
                assert(texts(roles@) =~= before.push(piece));
                assert(roles_str@.subrange(start as int, i + 1) =~= Seq::<char>::empty());
            }
        } else {
            proof {
                assert(roles_str@.subrange(start as int, i + 1) =~= piece.push(c));
            }
        }
        i += 1;
    }
    roles.push(String::from_str(roles_str.substring_char(start, n)));
    proof {
        assert(roles_str@.take(n as int) =~= roles_str@);
        assert(texts(roles@) =~= split_commas(roles_str@));
    }
    roles
}

/// Roles put together with commas between them.
pub open spec fn joined(roles: Seq<Seq<char>>) -> Seq<char>
    decreases roles.len(),
{
    if roles.len() == 0 {
        Seq::empty()
    } else if roles.len() == 1 {
        roles[0]
    } else {
        joined(roles.drop_last()) + seq![','] + roles.last()
    }
}

/// The text of a list of roles: the roles with commas between them.
pub fn join_roles(roles: &Vec<String>) -> (text: String)
    ensures
        text@ == joined(texts(roles@)),
{
    let mut text: String = String::new();
    let mut i: usize = 0;
    proof {
        reveal_strlit(",");
        assert(texts(roles@).take(0) =~= Seq::<Seq<char>>::empty());
    }
    while i < roles.len()
        invariant
            i <= roles.len(),
            text@ == joined(texts(roles@).take(i as int)),
            ","@ == seq![','],
        decreases roles.len() - i,
    {
        let ghost shown = texts(roles@).take(i + 1);
        proof {
            assert(shown.drop_last() =~= texts(roles@).take(i as int));
            assert(shown.last() == roles@[i as int]@);
        }
        if i > 0 {
            text.append(",");
        }
        text.append(roles[i].as_str());
        proof {
            if i == 0 {
                assert(text@ =~= shown[0]);
            } else {
                assert(text@ =~= joined(shown.drop_last()) + seq![','] + shown.last());
            }
        }
        i += 1;
    }
    assert(texts(roles@).take(roles.len() as int) =~= texts(roles@));
    text
}

/// The user that a row of the persons table shows.
pub fn user_from_row(id: i64, name: String, email: String, phone: Option<String>, roles: &str) -> (user:
    User)
    ensures
        user.id == id,
        user.name == name,
        user.email == email,
        user.phone == phone,
        texts(user.roles@) == roles_of(roles@),
{
    User { id, name, email, phone, roles: parse_roles(roles) }
}

/// What a user is told after signing in.
pub fn logged_in_user(login_record: UserLoginRecord, access_token: String) -> (user: LoggedInUser)
    ensures
        user.id == login_record.id,
        user.name == login_record.name,
        user.email == login_record.email,
        user.phone == login_record.phone,
        texts(user.roles@) == roles_of(login_record.roles@),
        user.access_token == access_token,
{
    let roles: Vec<String> = parse_roles(login_record.roles.as_str());
    LoggedInUser {
        id: login_record.id,
        name: login_record.name,
        email: login_record.email,
        phone: login_record.phone,
        roles,
        access_token,
    }
}

/// The value of the cookie that carries a refresh token.
pub open spec fn refresh_cookie(refresh_token: Seq<char>, expires: Seq<char>) -> Seq<char> {
    "refresh_token="@ + refresh_token + ";HttpOnly;Expires="@ + expires
}

/// The refusal of a cookie whose expiry has no text.
pub open spec fn no_cookie_date() -> ErrorView {
    failure(ErrorKind::InternalError, "date cannot be represented by RFC 2822"@)
}

/// When a refresh token that is issued at `now` expires, where that is an
/// instant that can be recorded.
pub open spec fn refresh_expiry(now: i64) -> Option<i64> {
    let at = now + REFRESH_TOKEN_EXPIRATION * 1_000_000;
    if -62_167_219_200_000_000 <= at <= 253_402_300_799_999_999 {
        Some(at as i64)
    } else {
        None
    }
}

/// The text of the instant at which the cookie expires, where it has one.
pub open spec fn cookie_expiry_text(now: i64) -> Option<Seq<char>> {
    match refresh_expiry(now) {
        Some(at) => rfc2822_text(at),
        None => None,
    }
}

/// The text of the instant at which a cookie that is set at `now` expires,
/// where it has one.
pub fn cookie_expires(now: i64) -> (text: Option<String>)
    ensures
        match text {
            Some(t) => cookie_expiry_text(now) == Some(t@),
            None => cookie_expiry_text(now) is None,
        },
{
    let at: i64 = match now.checked_add(REFRESH_TOKEN_EXPIRATION * 1_000_000) {
        Some(at) => at,
        None => { return None; },
    };
    if at < -62_167_219_200_000_000 || at > 253_402_300_799_999_999 {
        return None;
    }
    rfc2822(at)
}

/// The answer to signing in, given the text of the instant at which the
/// cookie expires: the user with the access token, and the refresh token in
/// the cookie. It fails where the expiry has no text.
pub fn login_response_with(
    login_record: UserLoginRecord,
    access_token: String,
    refresh_token: &str,
    expires: Option<String>,
) -> (r: Result<LoginResponse, ApiError>)
    ensures
        match r {
            Ok(response) => expires matches Some(text) && response.cookie@ == refresh_cookie(
                refresh_token@,
                text@,
            ) && response.inner.id == login_record.id && response.inner.name == login_record.name
                && response.inner.email == login_record.email && response.inner.phone
                == login_record.phone && texts(response.inner.roles@) == roles_of(
                login_record.roles@,
            ) && response.inner.access_token == access_token,
            Err(e) => expires is None && e@ == no_cookie_date(),
        },
{
    let expires: String = match expires {
        Some(t) => t,
        None => {
            return Err(
                ApiError::new(ErrorKind::InternalError, "date cannot be represented by RFC 2822"),
            );
        },
    };
    let mut cookie: String = String::from_str("refresh_token=");
    cookie.append(refresh_token);
    cookie.append(";HttpOnly;Expires=");
    cookie.append(expires.as_str());
    Ok(LoginResponse { inner: logged_in_user(login_record, access_token), cookie })
}

/// The answer to signing in at the instant `now`: the user with the access
/// token, and the refresh token in a cookie that expires a day later. It
/// fails where that day has no RFC 2822 text.
pub fn build_login_response(
    login_record: UserLoginRecord,
    access_token: String,
    refresh_token: &str,
    now: i64,
) -> (r: Result<LoginResponse, ApiError>)
    ensures
        match r {
            Ok(response) => cookie_expiry_text(now) matches Some(expires) && response.cookie@
                == refresh_cookie(refresh_token@, expires) && response.inner.id == login_record.id
                && response.inner.name == login_record.name && response.inner.email
                == login_record.email && response.inner.phone == login_record.phone && texts(
                response.inner.roles@,
            ) == roles_of(login_record.roles@) && response.inner.access_token == access_token,
            Err(e) => cookie_expiry_text(now) is None && e@ == no_cookie_date(),
        },
{
    login_response_with(login_record, access_token, refresh_token, cookie_expires(now))
}

/// The refusal for a secret that is not configured.
pub open spec fn missing_secret(name: Seq<char>) -> ErrorView {
    failure(ErrorKind::InternalError, "missing secret "@ + name)
}

/// The secret of the given name, which must be configured.
pub fn required_secret(value: Option<String>, name: &str) -> (r: Result<String, ApiError>)
    ensures
        match r {
            Ok(secret) => value == Some(secret),
            Err(e) => value is None && e@ == missing_secret(name@),
        },
{
    match value {
        Some(secret) => Ok(secret),
        None => Err(
            ApiError::with_message(
                ErrorKind::InternalError,
                String::from_str("missing secret ").concat(name),
            ),
        ),
    }
}

/// How to reach the mail server.
#[derive(Clone, Debug, PartialEq, Eq)]
pub struct SmtpSettings {
    pub username: String,
    pub password: String,
    pub host: String,
    pub port: u16,
}

/// The refusal for mail credentials that are not configured.
pub open spec fn no_smtp_credentials() -> ErrorView {
    failure(ErrorKind::InternalError, "SMTP credentials not found"@)
}

/// The port that a configured text names, given what the text reads as.
pub open spec fn smtp_port(reading: Result<u16, Seq<char>>) -> Result<u16, ErrorView> {
    match reading {
        Ok(port) => Ok(port),
        Err(complaint) => Err(
            failure(ErrorKind::InternalError, "Failed to read SMTP port: "@ + complaint),
        ),
    }
}

/// A reading of a port with its complaint as a sequence of characters.
pub open spec fn port_read(reading: Result<u16, String>) -> Result<u16, Seq<char>> {
    match reading {
        Ok(port) => Ok(port),
        Err(complaint) => Err(complaint@),
    }
}

/// The port that a configured text names, given what the text reads as.
pub fn smtp_port_of(reading: Result<u16, String>) -> (r: Result<u16, ApiError>)
    ensures
        match r {
            Ok(port) => smtp_port(port_read(reading)) == Ok::<u16, ErrorView>(port),
            Err(e) => smtp_port(port_read(reading)) == Err::<u16, ErrorView>(e@),
        },
{
    match reading {
        Ok(port) => Ok(port),
        Err(complaint) => Err(
            ApiError::with_message(
                ErrorKind::InternalError,
                String::from_str("Failed to read SMTP port: ").concat(complaint.as_str()),
            ),
        ),
    }
}

/// The port that a configured text names.
pub fn parse_smtp_port(text: &str) -> (r: Result<u16, ApiError>)
    ensures
        match r {
            Ok(port) => smtp_port(port_reading(text@)) == Ok::<u16, ErrorView>(port),
            Err(e) => smtp_port(port_reading(text@)) == Err::<u16, ErrorView>(e@),
        },
{
    smtp_port_of(read_port(text))
}

/// How to reach the mail server, from what is configured: user name,
/// password, host and port must all be there, and the port must be a
/// number.
pub fn smtp_settings(
    username: Option<String>,
    password: Option<String>,
    host: Option<String>,
    port: Option<String>,
) -> (r: Result<SmtpSettings, ApiError>)
    ensures
        match r {
            Ok(settings) => username == Some(settings.username) && password == Some(
                settings.password,
            ) && host == Some(settings.host) && port is Some && port_reading(port->0@) == Ok::<
                u16,
                Seq<char>,
            >(settings.port),
            Err(e) => if username is None || password is None || host is None || port is None {
                e@ == no_smtp_credentials()
            } else {
                smtp_port(port_reading(port->0@)) == Err::<u16, ErrorView>(e@)
            },
        },
{
    let username: String = match username {
        Some(u) => u,
        None => {
            return Err(ApiError::new(ErrorKind::InternalError, "SMTP credentials not found"));
        },
    };
    let password: String = match password {
        Some(p) => p,
        None => {
            return Err(ApiError::new(ErrorKind::InternalError, "SMTP credentials not found"));
        },
    };
    let host: String = match host {
        Some(h) => h,
        None => {
            return Err(ApiError::new(ErrorKind::InternalError, "SMTP credentials not found"));
        },
    };
    let port_text: String = match port {
        Some(p) => p,
        None => {
            return Err(ApiError::new(ErrorKind::InternalError, "SMTP credentials not found"));
        },
    };
    match parse_smtp_port(port_text.as_str()) {
        Ok(port) => Ok(SmtpSettings { username, password, host, port }),
        Err(e) => Err(e),
    }
}

/// Whether another reset email may be sent, given how many were sent in the
/// last two minutes.
pub open spec fn resend_check(recent: i64) -> Result<(), ErrorView> {
    if recent > 0 {
        Err(
            failure(
                ErrorKind::BadRequest,
                "Cannot send another reset email within "@ + decimal(
                    TEMP_PASSWORD_MINIMUM_RESEND_WAIT / 60,
                ) + " minutes."@,
            ),
        )
    } else {
        Ok(())
    }
}

/// Whether another reset email may be sent.
pub fn check_resend(recent: i64) -> (r: Result<(), ApiError>)
    ensures
        check_told(r) == resend_check(recent),
{
    if recent > 0 {
        let mut message: String = String::from_str("Cannot send another reset email within ");
        push_decimal(&mut message, TEMP_PASSWORD_MINIMUM_RESEND_WAIT / 60);
        message.append(" minutes.");
        Err(ApiError::with_message(ErrorKind::BadRequest, message))
    } else {
        Ok(())
    }
}

/// The instant after which an earlier reset email forbids another.
pub fn resend_cutoff(now: i64) -> (at: i64)
    ensures
        at == if now - TEMP_PASSWORD_MINIMUM_RESEND_WAIT * 1_000_000 < i64::MIN {
            i64::MIN
        } else {
            (now - TEMP_PASSWORD_MINIMUM_RESEND_WAIT * 1_000_000) as i64
        },
{
    match now.checked_sub(TEMP_PASSWORD_MINIMUM_RESEND_WAIT * 1_000_000) {
        Some(at) => at,
        None => i64::MIN,
    }
}

/// The instant at which a temporary password that is made at `now` expires.
pub fn temp_password_expiry(now: i64) -> (at: i64)
    ensures
        at == if now + TEMP_PASSWORD_EXPIRY * 1_000_000 > i64::MAX {
            i64::MAX
        } else {
            (now + TEMP_PASSWORD_EXPIRY * 1_000_000) as i64
        },
{
    match now.checked_add(TEMP_PASSWORD_EXPIRY * 1_000_000) {
        Some(at) => at,
        None => i64::MAX,
    }
}

/// The user of a reset, who must be known.
pub fn known_user(found: Option<UserLoginRecord>, email: &str, complaint: &str) -> (r: Result<
    UserLoginRecord,
    ApiError,
>)
    ensures
        match r {
            Ok(record) => found == Some(record),
            Err(e) => found is None && e@ == failure(ErrorKind::BadRequest, complaint@ + email@),
        },
{
    match found {
        Some(record) => Ok(record),
        None => Err(
            ApiError::with_message(ErrorKind::BadRequest, String::from_str(complaint).concat(email)),
        ),
    }
}

/// Whether a user may be registered: nobody may hold the email address yet.
pub fn check_new_user(existing: &Option<UserLoginRecord>) -> (r: Result<(), ApiError>)
    ensures
        r is Ok <==> *existing is None,
        r matches Err(e) ==> e@ == failure(
            ErrorKind::Conflict,
            "User already exists with this email address"@,
        ),
{
    match existing {
        Some(_) => Err(
            ApiError::new(ErrorKind::Conflict, "User already exists with this email address"),
        ),
        None => Ok(()),
    }
}

/// What a user who resets a password is told, given whether the hash that
/// was recorded for the reset accepted the temporary password; `None`
/// stands for a reset that was not asked for.
pub open spec fn reset_verdict(accepted: Option<bool>) -> Result<(), ErrorView> {
    match accepted {
        None => Err(
            failure(
                ErrorKind::Forbidden,
                "Password reset has not been requested, or it has expired."@,
            ),
        ),
        Some(true) => Ok(()),
        Some(false) => Err(failure(ErrorKind::Forbidden, "incorrect username or password"@)),
    }
}

/// Whether a temporary password lets a reset through: a reset must have
/// been asked for, and the recorded hash must accept the temporary
/// password.
pub open spec fn reset_check(temp_hash: Option<String>, temp_password: Seq<char>) -> Result<
    (),
    ErrorView,
> {
    reset_verdict(acceptance(temp_hash, temp_password))
}

/// What a user who resets a password is told, given whether the recorded
/// hash accepted the temporary password.
pub fn reset_result(accepted: Option<bool>) -> (r: Result<(), ApiError>)
    ensures
        check_told(r) == reset_verdict(accepted),
{
    match accepted {
        None => Err(
            ApiError::new(
                ErrorKind::Forbidden,
                "Password reset has not been requested, or it has expired.",
            ),
        ),
        Some(true) => Ok(()),
        Some(false) => Err(ApiError::new(ErrorKind::Forbidden, "incorrect username or password")),
    }
}

/// Checks a temporary password against the hash that was recorded for the
/// reset, if one was.
pub fn check_reset(temp_hash: &Option<String>, temp_password: &str) -> (r: Result<(), ApiError>)
    ensures
        check_told(r) == reset_check(*temp_hash, temp_password@),
{
    let accepted: Option<bool> = match temp_hash {
        None => None,
        Some(hash) => Some(password_verifies(temp_password, hash.as_str())),
    };
    reset_result(accepted)
}

/// The users among the first `upto` who hold the role, in their order.
pub open spec fn holders(users: Seq<User>, role: Seq<char>, upto: int) -> Seq<User>
    decreases upto,
{
    if upto <= 0 {
        Seq::empty()
    } else {
        let before = holders(users, role, upto - 1);
        if holds_role(users[upto - 1].roles@, role) {
            before.push(users[upto - 1])
        } else {
            before
        }
    }
}

/// The users who hold the role, in their order; all of them where no role
/// is asked for.
pub open spec fn users_with(users: Seq<User>, role: Option<String>) -> Seq<User> {
    match role {
        Some(r) => holders(users, r@, users.len() as int),
        None => users,
    }
}

/// The users who hold the role, in their order; all of them where no role
/// is asked for.
pub fn filter_by_role(users: Vec<User>, role: &Option<String>) -> (kept: Vec<User>)
    ensures
        kept@ == users_with(users@, *role),
{
    let wanted: &String = match role {
        Some(r) => r,
        None => { return users; },
    };
    let ghost all = users@;
    let mut kept: Vec<User> = users;
    let mut i: usize = 0;
    let ghost mut seen: int = 0;
    assert(kept@.take(0) =~= holders(all, wanted@, 0));
    assert(kept@.skip(0) =~= all.skip(0));
    while i < kept.len()
        invariant
            i <= kept.len(),
            0 <= seen <= all.len(),
            kept@.take(i as int) == holders(all, wanted@, seen),
            kept@.skip(i as int) == all.skip(seen),
        decreases kept.len() - i,
    {
        let ghost before = kept@;
        proof {
            assert(before.skip(i as int).len() == before.len() - i);
            assert(all.skip(seen).len() == all.len() - seen);
            assert(before.skip(i as int)[0] == before[i as int]);
            assert(all.skip(seen)[0] == all[seen]);
        }
        if role_among(&kept[i].roles, wanted.as_str()) {
            proof {
                assert(before.take(i + 1) =~= before.take(i as int).push(before[i as int]));
                assert(before.skip(i + 1) =~= before.skip(i as int).skip(1));
                assert(all.skip(seen + 1) =~= all.skip(seen).skip(1));
            }
            i += 1;
        } else {
            let _ = kept.remove(i);
            proof {
                assert(kept@.take(i as int) =~= before.take(i as int));
                assert(kept@.skip(i as int) =~= before.skip(i as int).skip(1));
                assert(all.skip(seen + 1) =~= all.skip(seen).skip(1));
            }
        }
        proof {
            seen = seen + 1;
        }
    }
    proof {
        assert(kept@.take(i as int) =~= kept@);
        assert(all.skip(seen).len() == 0);
    }
    kept
}

/// Whether `claim` may list users: only an admin may.
pub fn may_list_users(claim: &Claims) -> (r: Result<(), ApiError>)
    ensures
        r is Ok <==> claim.admin(),
        r matches Err(e) ==> e@ == failure(ErrorKind::Forbidden, "admin only"@),
{
    if claim.has_role("admin") {
        Ok(())
    } else {
        Err(ApiError::new(ErrorKind::Forbidden, "admin only"))
    }
}

/// The list of users that `claim` asks for: only an admin may ask, and the
/// list holds the users with the role, or all where no role is asked for.
pub fn list_users(claim: &Claims, users: Vec<User>, role: &Option<String>) -> (r: Result<
    Vec<User>,
    ApiError,
>)
    ensures
        r is Ok <==> claim.admin(),
        r matches Ok(kept) ==> kept@ == users_with(users@, *role),
        r matches Err(e) ==> e@ == failure(ErrorKind::Forbidden, "admin only"@),
{
    match may_list_users(claim) {
        Ok(_) => Ok(filter_by_role(users, role)),
        Err(e) => Err(e),
    }
}

/// The refusal of the deletion of an unknown user.
pub open spec fn no_such_user(user_id: i64) -> ErrorView {
    failure(ErrorKind::NotFound, "user id not found: "@ + decimal(user_id as int))
}

/// Whether `claim` may delete the user: the user must be known. Users
/// delete themselves with their password, even admins; anybody else is
/// deleted by an admin only.
pub open spec fn deletion_check(claim: Claims, user_id: i64, found: Option<UserLoginRecord>, password: Option<
    String,
>) -> Result<(), ErrorView> {
    match found {
        None => Err(no_such_user(user_id)),
        Some(record) => {
            if user_id == claim.uid {
                match password {
                    None => Err(
                        failure(ErrorKind::Forbidden, "password is required to delete profile"@),
                    ),
                    Some(p) => sign_in_check(record.pwd, p@),
                }
            } else if claim.admin() {
                Ok(())
            } else {
                Err(missing_role("admin"@))
            }
        },
    }
}

/// Checks whether `claim` may delete the user, and hands back what is
/// recorded of the user where it may.
pub fn check_delete_user(
    claim: &Claims,
    user_id: i64,
    found: Option<UserLoginRecord>,
    deletion: &UserDelete,
) -> (r: Result<UserLoginRecord, ApiError>)
    ensures
        match r {
            Ok(record) => found == Some(record) && deletion_check(
                *claim,
                user_id,
                found,
                deletion.password,
            ) is Ok,
            Err(e) => deletion_check(*claim, user_id, found, deletion.password) == Err::<
                (),
                ErrorView,
            >(e@),
        },
{
    let record: UserLoginRecord = match found {
        Some(record) => record,
        None => {
            let mut message: String = String::from_str("user id not found: ");
            push_decimal(&mut message, user_id);
            return Err(ApiError::with_message(ErrorKind::NotFound, message));
        },
    };
    if user_id == claim.uid {
        match &deletion.password {
            None => Err(
                ApiError::new(ErrorKind::Forbidden, "password is required to delete profile"),
            ),
            Some(password) => verify_user(record, password.as_str()),
        }
    } else {
        match claim.assert_roles_contains("admin") {
            Ok(_) => Ok(record),
            Err(e) => Err(e),
        }
    }
}

/// Whether an update of the user needs an admin: it does for every user
/// but the caller.
pub open spec fn update_needs_admin(uid: i64, user_id: i64) -> bool {
    user_id != uid
}

/// Whether `claim` may update the user: users update themselves, anybody
/// else is updated by an admin only.
pub fn check_update_user(claim: &Claims, user_id: i64) -> (r: Result<(), ApiError>)
    ensures
        r is Ok <==> (update_needs_admin(claim.uid, user_id) ==> claim.admin()),
        r matches Err(e) ==> e@ == missing_role("admin"@),
{
    if user_id != claim.uid {
        claim.assert_roles_contains("admin")
    } else {
        Ok(())
    }
}

} // verus!
