//! Who may use a cloud's server: the password check, the claims of a login
//! token, and how credentials are read from a request.
use vstd::prelude::*;
use crate::cloud::UtcTime;
use crate::text::{copy_str, join_with, lemma_split_join, split_by, split_on, starts_with, str_eq, str_starts_with};

verus! {

/// Seconds a login token stays valid.
pub const TOKEN_LIFETIME_SECS: i64 = 86400;

/// The claims carried by a login token.
pub struct Claims {
    pub sub: String,
    pub exp: usize,
    pub pwd_changed: i64,
}

/// The body of a login request.
pub struct LoginRequest {
    pub password: String,
}

/// The body of a login answer.
pub struct LoginResponse {
    pub token: String,
}

/// What a cloud server checks credentials against.
pub struct AuthState {
    pub secret: String,
    pub password: Option<String>,
    pub password_changed_at: Option<UtcTime>,
}

/// The password-change time recorded in new tokens: its seconds, or 0.
pub open spec fn pwd_changed_stamp(t: Option<UtcTime>) -> i64 {
    match t {
        Some(t) => t.secs,
        None => 0,
    }
}

impl AuthState {
    /// Credentials of a cloud.
    pub fn new(secret: String, password: Option<String>, password_changed_at: Option<UtcTime>) -> (res:
        AuthState)
        ensures
            res.secret == secret,
            res.password == password,
            res.password_changed_at == password_changed_at,
    {
        AuthState { secret, password, password_changed_at }
    }

    /// Whether `password` equals the stored one; false when none is stored.
    pub fn verify_password(&self, password: &str) -> (res: bool)
        ensures
            res == (self.password matches Some(p) && p@ == password@),
    {
        match &self.password {
            Some(stored) => str_eq(password, stored.as_str()),
            None => false,
        }
    }

    /// The claims of a token issued at `now`: subject `admin`, expiry a day
    /// later, and the time of the last password change.
    pub fn token_claims(&self, now: UtcTime) -> (res: Claims)
        requires
            now.secs <= i64::MAX - TOKEN_LIFETIME_SECS,
        ensures
            res.sub@ == "admin"@,
            res.exp == (now.secs + TOKEN_LIFETIME_SECS) as usize,
            res.pwd_changed == pwd_changed_stamp(self.password_changed_at),
    {
        let pwd_changed = match self.password_changed_at {
            Some(t) => t.secs,
            None => 0,
        };
        let exp_secs: i64 = now.secs + TOKEN_LIFETIME_SECS;
        Claims { sub: String::from_str("admin"), exp: exp_secs as usize, pwd_changed }
    }

    /// Answers a login: with the stored password, the claims of a token
    /// issued at `now`; with any other password (or none stored), nothing.
    pub fn login_claims(&self, password: &str, now: UtcTime) -> (res: Option<Claims>)
        requires
            now.secs <= i64::MAX - TOKEN_LIFETIME_SECS,
        ensures
            res is Some <==> (self.password matches Some(p) && p@ == password@),
            res matches Some(c) ==> c.sub@ == "admin"@ && c.exp == (now.secs + TOKEN_LIFETIME_SECS) as usize
                && c.pwd_changed == pwd_changed_stamp(self.password_changed_at),
    {
        if self.verify_password(password) {
            Some(self.token_claims(now))
        } else {
            None
        }
    }

    /// Whether a request may pass: a valid token, from the `Authorization`
    /// header or from a cookie, admits it; else the `password` parameter of
    /// its query must equal the stored password.
    pub fn admits(&self, header_token_valid: bool, cookie_token_valid: bool, query: Option<&str>) -> (res: bool)
        ensures
            res == (header_token_valid || cookie_token_valid || (query matches Some(q) && query_password(q@) matches Some(
                p,
            ) && self.password matches Some(s) && s@ == p)),
    {
        if header_token_valid || cookie_token_valid {
            return true;
        }
        match query {
            Some(q) => match password_from_query(q) {
                Some(p) => self.verify_password(p.as_str()),
                None => false,
            },
            None => false,
        }
    }

    /// Accepts the decoded claims of a token unless the password changed
    /// after the token was issued.
    pub fn accept_claims(&self, claims: Claims) -> (res: Option<Claims>)
        ensures
            (self.password_changed_at matches Some(t) && t.secs > claims.pwd_changed) ==> res is None,
            !(self.password_changed_at matches Some(t) && t.secs > claims.pwd_changed) ==> res
                == Some(claims),
    {
        match self.password_changed_at {
            Some(t) => {
                if t.secs > claims.pwd_changed {
                    return None;
                }
                Some(claims)
            },
            None => Some(claims),
        }
    }
}

/// The token of an `Authorization` header of the form `Bearer <token>`.
pub open spec fn bearer_of(header: Seq<char>) -> Option<Seq<char>> {
    if starts_with(header, "Bearer "@) {
        Some(header.skip(7))
    } else {
        None
    }
}

/// Reads the token from an `Authorization` header.
pub fn bearer_token(header: &str) -> (res: Option<String>)
    ensures
        res is Some == bearer_of(header@) is Some,
        res matches Some(t) ==> t@ == bearer_of(header@)->Some_0,
{
    proof {
        reveal_strlit("Bearer ");
    }
    if str_starts_with(header, "Bearer ") {
        let n = header.unicode_len();
        Some(copy_str(header.substring_char(7, n)))
    } else {
        None
    }
}

/// The first `password=` parameter of a query string, after the `=`.
pub open spec fn query_password(query: Seq<char>) -> Option<Seq<char>> {
    let params = split_on(query, '&');
    if exists|i: int| 0 <= i < params.len() && starts_with(#[trigger] params[i], "password="@) {
        let i = choose|i: int|
            0 <= i < params.len() && starts_with(#[trigger] params[i], "password="@) && forall|j: int|
                0 <= j < i ==> !starts_with(#[trigger] params[j], "password="@);
        Some(params[i].skip(9))
    } else {
        None
    }
}

/// Reads the password from a query string such as `a=1&password=secret`.
pub fn password_from_query(query: &str) -> (res: Option<String>)
    ensures
        res is Some == query_password(query@) is Some,
        res matches Some(p) ==> p@ == query_password(query@)->Some_0,
{
    proof {
        reveal_strlit("password=");
        assert("password="@.len() == 9);
    }
    let params = split_by(query, '&');
    let ghost ps = split_on(query@, '&');
    let mut i: usize = 0;
    while i < params.len()
        invariant
            i <= params.len(),
            params@.map_values(|p: String| p@) == ps,
            ps == split_on(query@, '&'),
            "password="@.len() == 9,
            forall|j: int| 0 <= j < i ==> !starts_with(#[trigger] ps[j], "password="@),
        decreases params.len() - i,
    {
        assert(params@[i as int]@ == ps[i as int]);
        if str_starts_with(params[i].as_str(), "password=") {
            let p = params[i].as_str();
            let n = p.unicode_len();
            assert(starts_with(p@, "password="@));
            let v = copy_str(p.substring_char(9, n));
            proof {
                let k = choose|k: int|
                    0 <= k < ps.len() && starts_with(#[trigger] ps[k], "password="@) && forall|
                        j: int,
                    | 0 <= j < k ==> !starts_with(#[trigger] ps[j], "password="@);
                assert(k == i as int) by {
                    if k < i {
                    } else if k > i {
                    }
                }
                assert(p@.skip(9) =~= p@.subrange(9, n as int));
            }
            return Some(v);
        }
        i = i + 1;
    }
    None
}


/// The password of a query string is the text after `password=` in the first
/// `&`-separated parameter that begins with `password=`, wherever it stands,
/// the first parameter included; with no such parameter there is none.
pub proof fn law_query_password_first(ps: Seq<Seq<char>>, k: int, value: Seq<char>)
    requires
        forall|i: int| 0 <= i < ps.len() ==> !#[trigger] ps[i].contains('&'),
        0 <= k < ps.len(),
        ps[k] == "password="@ + value,
        forall|j: int| 0 <= j < k ==> !(#[trigger] ps[j].len() >= 9 && ps[j].subrange(0, 9) == "password="@),
    ensures
        query_password(join_with(ps, seq!['&'])) == Some(value),
{
    reveal_strlit("password=");
    lemma_split_join(ps, '&');
    let params = split_on(join_with(ps, seq!['&']), '&');
    assert(params == ps);
    assert(ps[k].subrange(0, 9) =~= "password="@);
    assert(starts_with(ps[k], "password="@));
    assert forall|j: int| 0 <= j < k implies !starts_with(#[trigger] ps[j], "password="@) by {
        assert(!(ps[j].len() >= 9 && ps[j].subrange(0, 9) == "password="@));
    }
    let i = choose|i: int|
        0 <= i < params.len() && starts_with(#[trigger] params[i], "password="@) && forall|j: int|
            0 <= j < i ==> !starts_with(#[trigger] params[j], "password="@);
    assert(0 <= i < params.len() && starts_with(params[i], "password="@));
    assert(i == k) by {
        if i < k {
            assert(!starts_with(ps[i], "password="@));
        } else if i > k {
            assert(!starts_with(params[k], "password="@));
        }
    }
    assert(ps[k].skip(9) =~= value);
}

/// A query string none of whose `&`-separated parameters begins with
/// `password=` carries no password.
pub proof fn law_query_without_password(ps: Seq<Seq<char>>)
    requires
        ps.len() > 0,
        forall|i: int| 0 <= i < ps.len() ==> !#[trigger] ps[i].contains('&'),
        forall|j: int| 0 <= j < ps.len() ==> !(#[trigger] ps[j].len() >= 9 && ps[j].subrange(0, 9) == "password="@),
    ensures
        query_password(join_with(ps, seq!['&'])) is None,
{
    reveal_strlit("password=");
    lemma_split_join(ps, '&');
    assert forall|j: int| 0 <= j < ps.len() implies !starts_with(#[trigger] ps[j], "password="@) by {
        assert(!(ps[j].len() >= 9 && ps[j].subrange(0, 9) == "password="@));
    }
}

/// A token issued at login is accepted as long as the password has not
/// changed since: claims that carry the current password-change time pass
/// `accept_claims`, and keep their subject.
pub proof fn law_login_token_accepted(auth: AuthState, c: Claims)
    requires
        c.pwd_changed == pwd_changed_stamp(auth.password_changed_at),
    ensures
        !(auth.password_changed_at matches Some(t) && t.secs > c.pwd_changed),
{
}

} // verus!
