use vstd::prelude::*;

use crate::clock::Timestamp;
use crate::ids::{parse_uuid, uuid_parse, uuid_text};
use crate::models::api::auth::TokenClaims;
use crate::models::database::User;
use crate::services::auth::{claims_for, claims_of, hours_after};
use crate::text::{chars_of, starts_with_str, starts_with_text};

verus! {

/// The claims the middleware reads from a bearer token.
pub struct Claims {
    /// The user's id, as text.
    pub sub: String,
    pub email: String,
    /// Expiry, seconds since the epoch.
    pub exp: usize,
}

/// The authenticated caller, attached to the request.
pub struct AuthUser {
    pub user_id: u128,
    pub email: String,
}

/// What the `Authorization` header of a request holds.
pub enum HeaderCheck {
    /// No header; `public` tells whether the path is one of the public
    /// routes, where none is expected.
    Missing { public: bool },
    /// The header is not visible ASCII text.
    NotText,
    /// The header does not start with `Bearer `.
    NotBearer,
    /// The token after `Bearer `.
    Bearer { token: String },
}

/// The routes that are served without a token.
pub open spec fn public_routes() -> Seq<Seq<char>> {
    seq!["/auth/register"@, "/auth/login"@, "/health"@, "/health/db"@, "/health/tigerbeetle"@]
}

/// The path begins with one of the public routes.
pub open spec fn is_public_path(path: Seq<char>) -> bool {
    exists|i: int| 0 <= i < public_routes().len() && #[trigger] starts_with_text(path, public_routes()[i])
}

/// Whether the path begins with one of the public routes.
pub fn is_public_route(path: &str) -> (res: bool)
    ensures
        res == is_public_path(path@),
{
    proof {
        reveal_strlit("/auth/register");
        reveal_strlit("/auth/login");
        reveal_strlit("/health");
        reveal_strlit("/health/db");
        reveal_strlit("/health/tigerbeetle");
    }
    let r0 = starts_with_str(path, "/auth/register");
    let r1 = starts_with_str(path, "/auth/login");
    let r2 = starts_with_str(path, "/health");
    let r3 = starts_with_str(path, "/health/db");
    let r4 = starts_with_str(path, "/health/tigerbeetle");
    proof {
        let routes = public_routes();
        if r0 {
            assert(starts_with_text(path@, routes[0]));
        }
        if r1 {
            assert(starts_with_text(path@, routes[1]));
        }
        if r2 {
            assert(starts_with_text(path@, routes[2]));
        }
        if r3 {
            assert(starts_with_text(path@, routes[3]));
        }
        if r4 {
            assert(starts_with_text(path@, routes[4]));
        }
        if !(r0 || r1 || r2 || r3 || r4) {
            assert forall|i: int| 0 <= i < routes.len() implies !#[trigger] starts_with_text(path@, routes[i]) by {
                if i == 0 {
                } else if i == 1 {
                } else if i == 2 {
                } else if i == 3 {
                } else {
                }
            }
        }
    }
    r0 || r1 || r2 || r3 || r4
}

/// The token of a header value: what follows the `Bearer ` prefix.
pub open spec fn bearer_token_of(value: Seq<char>) -> Option<Seq<char>> {
    if starts_with_text(value, "Bearer "@) {
        Some(value.subrange(7, value.len() as int))
    } else {
        None
    }
}

/// The text after `Bearer `, if the value starts with it
/// (`strip_prefix("Bearer ")`).
pub fn strip_bearer(value: &str) -> (res: Option<String>)
    ensures
        match bearer_token_of(value@) {
            Some(t) => res matches Some(s) && s@ == t,
            None => res is None,
        },
{
    proof {
        reveal_strlit("Bearer ");
    }
    if !starts_with_str(value, "Bearer ") {
        return None;
    }
    let chars = chars_of(value);
    let mut s = String::new();
    let mut i: usize = 7;
    while i < chars.len()
        invariant
            7 <= i <= chars.len(),
            chars@ == value@,
            s@ == value@.subrange(7, i as int),
        decreases chars.len() - i,
    {
        crate::text::push_char(&mut s, chars[i]);
        i = i + 1;
        assert(s@ =~= value@.subrange(7, i as int));
    }
    Some(s)
}

/// What a request's `Authorization` header holds: `header` is `None` when
/// there is none, `Some(None)` when it is not visible ASCII text, else its
/// text; `path` is the request's path.
pub fn inspect_header(header: Option<Option<String>>, path: &str) -> (res: HeaderCheck)
    ensures
        match header {
            None => res matches HeaderCheck::Missing { public } && public == is_public_path(path@),
            Some(None) => res is NotText,
            Some(Some(v)) => match bearer_token_of(v@) {
                Some(t) => res matches HeaderCheck::Bearer { token } && token@ == t,
                None => res is NotBearer,
            },
        },
{
    match header {
        None => HeaderCheck::Missing { public: is_public_route(path) },
        Some(None) => HeaderCheck::NotText,
        Some(Some(v)) => match strip_bearer(v.as_str()) {
            Some(token) => HeaderCheck::Bearer { token },
            None => HeaderCheck::NotBearer,
        },
    }
}

/// The caller a decoded token authenticates: its subject read as a user id,
/// or no one when the subject is not an id.
pub fn auth_user_from_claims(claims: Claims) -> (res: Option<AuthUser>)
    ensures
        match uuid_parse(claims.sub@) {
            Some(id) => res matches Some(u) && u.user_id == id && u.email == claims.email,
            None => res is None,
        },
        forall|x: u128| #[trigger] uuid_text(x) == claims.sub@ ==> (res matches Some(u) && u.user_id == x),
{
    match parse_uuid(claims.sub.as_str()) {
        Some(user_id) => Some(AuthUser { user_id, email: claims.email }),
        None => None,
    }
}

/// The caller that a request with this header and this decoded token
/// authenticates: only a bearer token that decodes to claims with an id for
/// a subject authenticates, as that id and the claims' e-mail.
pub open spec fn authenticated(check: HeaderCheck, decoded: Option<Result<Claims, String>>, res: Option<AuthUser>) -> bool {
    match (check, decoded) {
        (HeaderCheck::Bearer { .. }, Some(Ok(c))) => {
            &&& match uuid_parse(c.sub@) {
                Some(id) => res matches Some(u) && u.user_id == id && u.email == c.email,
                None => res is None,
            }
            &&& forall|x: u128| #[trigger] uuid_text(x) == c.sub@ ==> (res matches Some(u) && u.user_id == x)
        },
        _ => res is None,
    }
}

/// The caller a request authenticates, given what its header held and what
/// decoding the bearer token gave (`None` when there was no bearer token to
/// decode): only a bearer token that decodes to claims with an id for a
/// subject authenticates. The request goes on either way.
pub fn authenticate(check: &HeaderCheck, decoded: Option<Result<Claims, String>>) -> (res: Option<AuthUser>)
    ensures
        authenticated(*check, decoded, res),
{
    match check {
        HeaderCheck::Bearer { .. } => match decoded {
            Some(Ok(claims)) => auth_user_from_claims(claims),
            _ => None,
        },
        _ => None,
    }
}

/// A token issued for a user authenticates that user: when the claims read
/// back from the bearer token carry, as subject, the text of the id the
/// token was issued for (the form in which the identifier is written into
/// the token), and its e-mail, the middleware attaches the user the token
/// was issued to.
pub proof fn law_issued_token_authenticates(
    user: User,
    hours: i64,
    issued: TokenClaims,
    token: String,
    read: Claims,
    res: Option<AuthUser>,
)
    requires
        claims_for(user, hours, issued),
        read.sub@ == uuid_text(issued.sub),
        read.email == issued.email,
        authenticated(HeaderCheck::Bearer { token }, Some(Ok(read)), res),
    ensures
        res matches Some(u) && u.user_id == user.id && u.email == user.email,
{
    let t = choose|t: Timestamp|
        #[trigger] claims_of(user, hours_after(t, hours), t, issued) && i64::MIN <= t.secs + hours * 3600 <= i64::MAX;
    assert(claims_of(user, hours_after(t, hours), t, issued));
    assert(uuid_text(issued.sub) == read.sub@);
}

} // verus!
