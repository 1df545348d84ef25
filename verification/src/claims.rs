//! The verified identity of a caller, and what its roles allow.
use vstd::prelude::*;
use vstd::string::*;

use crate::calendar::now;
use crate::error::{failure, ApiError, ErrorKind, ErrorView};
use crate::text::same_text;

verus! {

/// The membership that a caller's roles amount to.
#[derive(Clone, Copy, Debug, PartialEq, Eq, Structural)]
pub enum Membership {
    /// Books any session without paying for it.
    Full,
    /// Books one paid session a week, and free sessions at will.
    Limited,
    /// No membership: pays for each session with credits.
    PayAsYouGo,
}

/// What the booking rules need to know of a caller.
#[derive(Clone, Copy, Debug, PartialEq, Eq, Structural)]
pub struct Caller {
    pub uid: i64,
    pub admin: bool,
    pub membership: Membership,
}

/// Why a request carries no usable identity.
#[derive(Clone, Debug, PartialEq, Eq)]
pub enum AuthenticationError {
    Missing,
    Decoding(String),
    Expired,
}

impl AuthenticationError {
    /// The sentence that describes this error.
    pub open spec fn text(self) -> Seq<char> {
        match self {
            AuthenticationError::Missing => "missing authorization header"@,
            AuthenticationError::Decoding(msg) => "failed to decode authorization header: "@ + msg@,
            AuthenticationError::Expired => "authorization token expired"@,
        }
    }

    /// The sentence that describes this error.
    pub fn to_text(&self) -> (s: String)
        ensures
            s@ == self.text(),
    {
        match self {
            AuthenticationError::Missing => String::from_str("missing authorization header"),
            AuthenticationError::Decoding(msg) => {
                String::from_str("failed to decode authorization header: ").concat(msg.as_str())
            },
            AuthenticationError::Expired => String::from_str("authorization token expired"),
        }
    }

    /// The error for a token that could not be accepted: `Expired` where the
    /// decoder found the signature expired, else `Decoding` with the
    /// decoder's complaint.
    pub fn from_decoder(expired: bool, complaint: String) -> (e: AuthenticationError)
        ensures
            expired ==> e == AuthenticationError::Expired,
            !expired ==> e == AuthenticationError::Decoding(complaint),
    {
        if expired {
            AuthenticationError::Expired
        } else {
            AuthenticationError::Decoding(complaint)
        }
    }
}

/// Whether a character is white space: one of the characters with the
/// Unicode property `White_Space`, which are tab to carriage return, the
/// space, next line, the no-break space and the spaces of general
/// punctuation and ideographic text.
pub open spec fn is_white(c: char) -> bool {
    let n = c as u32;
    (0x09 <= n <= 0x0D) || n == 0x20 || n == 0x85 || n == 0xA0 || n == 0x1680 || (0x2000 <= n
        <= 0x200A) || n == 0x2028 || n == 0x2029 || n == 0x202F || n == 0x205F || n == 0x3000
}

/// Calls `char::is_whitespace`, which says whether the character has the
/// Unicode property `White_Space`.
#[verifier::external_body]
fn white(c: char) -> (w: bool)
    ensures
        w == is_white(c),
{
    c.is_whitespace()
}

/// How many characters of white space a text begins with.
pub open spec fn leading_white(text: Seq<char>) -> nat
    decreases text.len(),
{
    if text.len() > 0 && is_white(text[0]) {
        1 + leading_white(text.drop_first())
    } else {
        0
    }
}

/// How many characters of white space a text ends with.
pub open spec fn trailing_white(text: Seq<char>) -> nat
    decreases text.len(),
{
    if text.len() > 0 && is_white(text.last()) {
        1 + trailing_white(text.drop_last())
    } else {
        0
    }
}

/// A text without the white space that it begins and ends with.
pub open spec fn trimmed(text: Seq<char>) -> Seq<char> {
    let rest = text.skip(leading_white(text) as int);
    rest.take(rest.len() - trailing_white(rest))
}

/// White space at the beginning of a text is part of the text.
pub proof fn lemma_leading_white(text: Seq<char>, n: int)
    requires
        0 <= n <= text.len(),
        forall|i: int| 0 <= i < n ==> is_white(#[trigger] text[i]),
        n < text.len() ==> !is_white(text[n]),
    ensures
        leading_white(text) == n,
    decreases n,
{
    if n > 0 {
        assert forall|i: int| 0 <= i < n - 1 implies is_white(#[trigger] text.drop_first()[i]) by {
            assert(text.drop_first()[i] == text[i + 1]);
        }
        if n < text.len() {
            assert(text.drop_first()[n - 1] == text[n]);
        }
        lemma_leading_white(text.drop_first(), n - 1);
    }
}

/// White space at the end of a text is part of the text.
pub proof fn lemma_trailing_white(text: Seq<char>, n: int)
    requires
        0 <= n <= text.len(),
        forall|i: int| text.len() - n <= i < text.len() ==> is_white(#[trigger] text[i]),
        n < text.len() ==> !is_white(text[text.len() - n - 1]),
    ensures
        trailing_white(text) == n,
    decreases n,
{
    if n > 0 {
        assert forall|i: int|
            text.drop_last().len() - (n - 1) <= i < text.drop_last().len() implies is_white(
            #[trigger] text.drop_last()[i],
        ) by {
            assert(text.drop_last()[i] == text[i]);
        }
        if n < text.len() {
            assert(text.drop_last()[text.drop_last().len() - (n - 1) - 1] == text[text.len() - n
                - 1]);
        }
        lemma_trailing_white(text.drop_last(), n - 1);
    }
}

/// A text without the white space that it begins and ends with.
pub fn trim(text: &str) -> (t: &str)
    ensures
        t@ == trimmed(text@),
{
    let n: usize = text.unicode_len();
    let mut from: usize = 0;
    while from < n && white(text.get_char(from))
        invariant
            n == text@.len(),
            from <= n,
            forall|i: int| 0 <= i < from ==> is_white(#[trigger] text@[i]),
        decreases n - from,
    {
        from += 1;
    }
    let mut to: usize = n;
    while to > from && white(text.get_char(to - 1))
        invariant
            n == text@.len(),
            from <= to <= n,
            forall|i: int| to <= i < n ==> is_white(#[trigger] text@[i]),
        decreases to,
    {
        to -= 1;
    }
    proof {
        lemma_leading_white(text@, from as int);
        let rest = text@.skip(from as int);
        assert forall|i: int| rest.len() - (n - to) <= i < rest.len() implies is_white(
            #[trigger] rest[i],
        ) by {
            assert(rest[i] == text@[i + from]);
        }
        if n - to < rest.len() {
            assert(rest[rest.len() - (n - to) - 1] == text@[to - 1]);
        }
        lemma_trailing_white(rest, (n - to) as int);
        assert(text@.subrange(from as int, to as int) =~= rest.take(rest.len() - (n - to)));
    }
    text.substring_char(from, to)
}

/// The token that an authorization header carries: what follows `Bearer `,
/// without the white space around it. There is none where the header does
/// not begin so.
pub open spec fn token_of(value: Seq<char>) -> Option<Seq<char>> {
    if value.len() >= 7 && value.take(7) == "Bearer "@ {
        Some(trimmed(value.skip(7)))
    } else {
        None
    }
}

/// The token that an authorization header carries. A header that does not
/// begin with `Bearer ` counts as missing.
pub fn bearer_token(value: &str) -> (r: Result<&str, AuthenticationError>)
    ensures
        match r {
            Ok(token) => token_of(value@) == Some(token@),
            Err(e) => token_of(value@) is None && e == AuthenticationError::Missing,
        },
{
    let n: usize = value.unicode_len();
    if n < 7 {
        return Err(AuthenticationError::Missing);
    }
    proof {
        reveal_strlit("Bearer ");
    }
    if !same_text(value.substring_char(0, 7), "Bearer ") {
        assert(value@.take(7) =~= value@.subrange(0, 7));
        return Err(AuthenticationError::Missing);
    }
    proof {
        assert(value@.take(7) =~= value@.subrange(0, 7));
        assert(value@.skip(7) =~= value@.subrange(7, n as int));
    }
    Ok(trim(value.substring_char(7, n)))
}

/// What the answer to a refused request says: the authentication error that
/// was recorded for it, or `NOT AUTH` where none was.
pub open spec fn forbidden_message(auth_error: Option<AuthenticationError>) -> Seq<char> {
    match auth_error {
        Some(e) => e.text(),
        None => "NOT AUTH"@,
    }
}

/// The answer to a request that was refused before it reached a handler.
pub fn forbidden(auth_error: &Option<AuthenticationError>) -> (e: ApiError)
    ensures
        e@ == failure(ErrorKind::Forbidden, forbidden_message(*auth_error)),
{
    let message: String = match auth_error {
        Some(msg) => msg.to_text(),
        None => String::from_str("NOT AUTH"),
    };
    ApiError::with_message(ErrorKind::Forbidden, message)
}

/// Whether one of `roles` is `role`.
pub open spec fn holds_role(roles: Seq<String>, role: Seq<char>) -> bool {
    exists|i: int| 0 <= i < roles.len() && (#[trigger] roles[i])@ == role
}

/// Whether one of `roles` is `role`.
pub fn role_among(roles: &Vec<String>, role: &str) -> (held: bool)
    ensures
        held == holds_role(roles@, role@),
{
    let mut i: usize = 0;
    while i < roles.len()
        invariant
            i <= roles.len(),
            forall|j: int| 0 <= j < i ==> (#[trigger] roles@[j])@ != role@,
        decreases roles.len() - i,
    {
        if same_text(roles[i].as_str(), role) {
            return true;
        }
        i += 1;
    }
    false
}

/// A copy of a list of roles.
pub fn copy_roles(roles: &Vec<String>) -> (held: Vec<String>)
    ensures
        held@ == roles@,
{
    let mut held: Vec<String> = Vec::new();
    let mut i: usize = 0;
    while i < roles.len()
        invariant
            i <= roles.len(),
            held@ == roles@.take(i as int),
        decreases roles.len() - i,
    {
        held.push(roles[i].clone());
        assert(held@ =~= roles@.take(i + 1));
        i += 1;
    }
    assert(roles@.take(roles.len() as int) =~= roles@);
    held
}

/// The membership that a list of roles amounts to.
pub open spec fn membership_of(roles: Seq<String>) -> Membership {
    if holds_role(roles, "member"@) {
        Membership::Full
    } else if holds_role(roles, "limited-member"@) {
        Membership::Limited
    } else {
        Membership::PayAsYouGo
    }
}

/// When a token issued at `now` for `duration` seconds expires, in seconds
/// since the epoch, kept within what `usize` holds.
pub open spec fn expiry(now: i64, duration: i64) -> usize {
    let at: int = now + duration;
    if at < 0 {
        0usize
    } else if at > usize::MAX {
        usize::MAX
    } else {
        at as usize
    }
}

/// The refusal of a caller who lacks a role.
pub open spec fn missing_role(role: Seq<char>) -> ErrorView {
    failure(ErrorKind::Forbidden, "missing required role: "@ + role)
}

/// A verified identity: who calls, with which roles, until when.
#[derive(Clone, Debug, PartialEq, Eq)]
pub struct Claims {
    pub uid: i64,
    pub email: String,
    pub phone: Option<String>,
    pub roles: Vec<String>,
    pub exp: usize,
}

impl Claims {
    /// The claims of user `uid`, expiring `duration` seconds after `now`
    /// (both in seconds).
    pub fn create_at(
        uid: i64,
        email: &str,
        phone: &Option<String>,
        roles: &Vec<String>,
        now: i64,
        duration: i64,
    ) -> (claims: Claims)
        ensures
            claims.uid == uid,
            claims.email@ == email@,
            claims.phone == *phone,
            claims.roles@ == roles@,
            claims.exp == expiry(now, duration),
    {
        let held: Vec<String> = copy_roles(roles);
        let held_phone: Option<String> = match phone {
            Some(p) => Some(p.clone()),
            None => None,
        };
        let at: i128 = now as i128 + duration as i128;
        let exp: usize = if at < 0 {
            0
        } else if at > usize::MAX as i128 {
            usize::MAX
        } else {
            at as usize
        };
        Claims { uid, email: String::from_str(email), phone: held_phone, roles: held, exp }
    }

    /// The claims of user `uid`, expiring `duration` seconds from now.
    pub fn create(
        uid: i64,
        email: &str,
        phone: &Option<String>,
        roles: &Vec<String>,
        duration: i64,
    ) -> (claims: Claims)
        ensures
            claims.uid == uid,
            claims.email@ == email@,
            claims.phone == *phone,
            claims.roles@ == roles@,
            exists|at: i64| claims.exp == expiry(at, duration),
    {
        let at: i64 = now() / 1_000_000;
        let claims = Claims::create_at(uid, email, phone, roles, at, duration);
        assert(claims.exp == expiry(at, duration));
        claims
    }

    /// Whether the caller holds `required_role`.
    pub fn has_role(&self, required_role: &str) -> (held: bool)
        ensures
            held == holds_role(self.roles@, required_role@),
    {
        role_among(&self.roles, required_role)
    }

    /// Succeeds where the caller holds `required_role`, and is `Forbidden`
    /// with a message that names the role where not.
    pub fn assert_roles_contains(&self, required_role: &str) -> (r: Result<(), ApiError>)
        ensures
            r is Ok <==> holds_role(self.roles@, required_role@),
            r matches Err(e) ==> e@ == missing_role(required_role@),
    {
        if !self.has_role(required_role) {
            let message: String = String::from_str("missing required role: ").concat(required_role);
            return Err(ApiError::with_message(ErrorKind::Forbidden, message));
        }
        Ok(())
    }

    /// Whether the caller is an administrator.
    pub open spec fn admin(&self) -> bool {
        holds_role(self.roles@, "admin"@)
    }

    /// Whether the caller is a trainer.
    pub open spec fn trains(&self) -> bool {
        holds_role(self.roles@, "trainer"@)
    }

    /// What the booking rules need to know of this caller.
    pub open spec fn as_caller(&self) -> Caller {
        Caller { uid: self.uid, admin: self.admin(), membership: membership_of(self.roles@) }
    }

    /// What the booking rules need to know of this caller.
    pub fn caller(&self) -> (c: Caller)
        ensures
            c == self.as_caller(),
    {
        let membership: Membership = if self.has_role("member") {
            Membership::Full
        } else if self.has_role("limited-member") {
            Membership::Limited
        } else {
            Membership::PayAsYouGo
        };
        Caller { uid: self.uid, admin: self.has_role("admin"), membership }
    }
}

} // verus!
