use vstd::prelude::*;
use crate::error::{concat2, ApplicationError};
use crate::ids::{fresh_token, is_uuid_v4_text, parse_uuid, uuid_of};

verus! {

/// How long an upload token stays valid, in seconds.
pub const TOKEN_TTL_SECONDS: u64 = 300;

/// The text of an optional string.
pub open spec fn opt_view(o: Option<String>) -> Option<Seq<char>> {
    match o {
        Some(s) => Some(s@),
        None => None,
    }
}

/// The key under which a token is kept in the key/value store.
pub open spec fn key_of(token: Seq<char>) -> Seq<char> {
    "upload_token:"@ + token
}

/// The value kept for a token: the owner's id, or the empty text for an
/// anonymous token.
pub open spec fn stored_value_of(owner: Option<Seq<char>>) -> Seq<char> {
    match owner {
        Some(u) => u,
        None => Seq::empty(),
    }
}

/// What consuming a token yields, given what the store's get-and-delete
/// returned: nothing means the token is invalid (`None`); the empty text
/// means an anonymous token; any other text is the owner's id.
pub open spec fn consume_outcome_of(value: Option<Seq<char>>) -> Option<Option<Seq<char>>> {
    match value {
        None => None,
        Some(v) => if v.len() == 0 { Some(None) } else { Some(Some(v)) },
    }
}

/// The key/value store that keeps tokens, as a map from key to value. Keys
/// that expired are absent.
pub type TokenStoreView = Map<Seq<char>, Seq<char>>;

/// The store's atomic get-and-delete of `key` (Redis `GETDEL`): the value,
/// if any, and the store without the key.
pub open spec fn get_del(store: TokenStoreView, key: Seq<char>) -> (TokenStoreView, Option<Seq<char>>) {
    if store.contains_key(key) {
        (store.remove(key), Some(store[key]))
    } else {
        (store, None)
    }
}

/// The store's write of `value` under `key` (Redis `SET` with an expiry).
pub open spec fn set_ex(store: TokenStoreView, key: Seq<char>, value: Seq<char>) -> TokenStoreView {
    store.insert(key, value)
}

/// One consumption of `token` against the store: the store after it, and its
/// outcome as `consume_outcome_of` states it.
pub open spec fn consume_in(store: TokenStoreView, token: Seq<char>) -> (TokenStoreView, Option<Option<Seq<char>>>) {
    let (after, value) = get_del(store, key_of(token));
    (after, consume_outcome_of(value))
}

/// The key under which `token` is kept.
pub fn token_key(token: &str) -> (r: String)
    ensures
        r@ == key_of(token@),
{
    concat2("upload_token:", token)
}

/// The value to keep for a token of `owner`.
pub fn stored_value(owner: &Option<String>) -> (r: String)
    ensures
        r@ == stored_value_of(opt_view(*owner)),
{
    match owner {
        Some(u) => u.clone(),
        None => String::new(),
    }
}

/// A token ready to be written to the store: the token handed to the
/// client, the key and value to write, and how long they live.
#[derive(Debug, Clone)]
pub struct TokenGrant {
    pub token: String,
    pub key: String,
    pub value: String,
    pub ttl_seconds: u64,
}

/// Makes a fresh single-use token for `owner` (`None`: anonymous) that
/// lives `ttl_seconds` (the service uses `TOKEN_TTL_SECONDS`).
pub fn issue_token(owner: &Option<String>, ttl_seconds: u64) -> (r: TokenGrant)
    ensures
        is_uuid_v4_text(r.token@),
        r.key@ == key_of(r.token@),
        r.value@ == stored_value_of(opt_view(*owner)),
        r.ttl_seconds == ttl_seconds,
{
    let token = fresh_token();
    let key = token_key(token.as_str());
    let value = stored_value(owner);
    TokenGrant { token, key, value, ttl_seconds }
}

/// Checks the owner id of a token request: absent, or a UUID. Whether the
/// user exists is the user store's to say.
pub fn check_token_owner(user_id: &Option<String>) -> (r: Result<Option<u128>, ApplicationError>)
    ensures
        match *user_id {
            None => r == Ok::<Option<u128>, ApplicationError>(None),
            Some(u) => match uuid_of(u@) {
                Some(id) => r == Ok::<Option<u128>, ApplicationError>(Some(id)),
                None => r matches Err(ApplicationError::BadRequest(_)),
            },
        },
{
    match user_id {
        None => Ok(None),
        Some(u) => match parse_uuid(u.as_str()) {
            Some(id) => Ok(Some(id)),
            None => Err(ApplicationError::BadRequest("Invalid user ID format".to_owned())),
        },
    }
}

/// The outcome of consuming a token, from what the store's get-and-delete
/// returned: `InvalidToken` where the key was absent (never issued, already
/// consumed or expired, which cannot be told apart), otherwise the owner.
pub fn consume_outcome(value: Option<String>) -> (r: Result<Option<String>, ApplicationError>)
    ensures
        match consume_outcome_of(opt_view(value)) {
            None => r == Err::<Option<String>, ApplicationError>(ApplicationError::InvalidToken),
            Some(o) => r is Ok && opt_view(r->Ok_0) == o,
        },
{
    match value {
        None => Err(ApplicationError::InvalidToken),
        Some(v) => if v.as_str().is_empty() { Ok(None) } else { Ok(Some(v)) },
    }
}

/// The token that an upload request carries in its header; a request
/// without one is unauthorized.
pub fn require_token(header: Option<String>) -> (r: Result<String, ApplicationError>)
    ensures
        match header {
            Some(t) => r == Ok::<String, ApplicationError>(t),
            None => r == Err::<String, ApplicationError>(ApplicationError::Unauthorized),
        },
{
    match header {
        Some(t) => Ok(t),
        None => Err(ApplicationError::Unauthorized),
    }
}

/// A token is consumed at most once: whatever the store holds, a second
/// consumption of the same token right after a first finds it invalid.
pub proof fn lemma_consume_at_most_once(store: TokenStoreView, token: Seq<char>)
    ensures
        consume_in(consume_in(store, token).0, token).1 == None::<Option<Seq<char>>>,
{
}

/// Issuing a token and then consuming it yields the owner it was issued for,
/// provided an owner's id is not the empty text (that text marks an anonymous
/// token).
pub proof fn lemma_issue_then_consume(
    store: TokenStoreView,
    token: Seq<char>,
    owner: Option<Seq<char>>,
)
    requires
        owner matches Some(u) ==> u.len() > 0,
    ensures
        consume_in(set_ex(store, key_of(token), stored_value_of(owner)), token).1 == Some(owner),
{
    let s1 = set_ex(store, key_of(token), stored_value_of(owner));
    assert(s1.contains_key(key_of(token)));
    assert(s1[key_of(token)] == stored_value_of(owner));
}

/// The answer to a token request.
#[derive(Debug, Clone)]
pub struct TokenResponse {
    pub token: String,
    pub expires_in: u64,
}

impl TokenResponse {
    pub fn from_grant(grant: TokenGrant) -> (r: TokenResponse)
        ensures
            r.token == grant.token,
            r.expires_in == grant.ttl_seconds,
    {
        TokenResponse { token: grant.token, expires_in: grant.ttl_seconds }
    }
}

/// A token request: the owner's id, or none for an anonymous token.
#[derive(Debug, Clone, Default)]
pub struct GenerateTokenRequest {
    pub user_id: Option<String>,
}

} // verus!
