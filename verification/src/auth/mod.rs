//! Online account identity: client configuration guardrails, credential checks,
//! token inspection and the classification of authentication service errors.
use crate::text::{
    byte_len, char_count, chars_of, contains_char, contains_seq, contains_str, has_char,
    index_of_any, is_alnum, is_digit, is_lower, is_upper, nat_digits, owned, push_decimal,
    push_str, starts_with, take_until, to_lowercase, trim, trim_seq, unicode_lower, utf8_len,
};
use vstd::prelude::*;

pub mod middleware;

verus! {

/// Public client parameters of the authentication service.
#[derive(Debug, Clone, PartialEq, Eq)]
pub struct SupabaseAuthConfig {
    pub url: String,
    pub publishable_key: String,
}

/// Identity of an online account.
#[derive(Debug, Clone, PartialEq, Eq)]
pub struct OnlineIdentity {
    pub id: String,
    pub email: String,
    pub created_at: Option<String>,
    pub last_sign_in_at: Option<String>,
}

/// An authenticated online session.
#[derive(Debug, Clone, PartialEq, Eq)]
pub struct OnlineSession {
    pub access_token: String,
    pub refresh_token: Option<String>,
    pub expires_at: Option<i64>,
    pub expires_in: Option<i64>,
    pub token_type: Option<String>,
    pub user: OnlineIdentity,
}

/// Sign-in credentials.
#[derive(Debug, Clone)]
pub struct SignInInput {
    pub email: String,
    pub password: String,
}

/// Error body returned by the authentication service (each field optional).
#[derive(Debug, Clone, PartialEq, Eq)]
pub struct AuthErrorBody {
    pub error: Option<String>,
    pub error_description: Option<String>,
    pub message: Option<String>,
    pub msg: Option<String>,
}

/// Typed authentication errors.
#[derive(Debug, Clone, PartialEq, Eq)]
pub enum AuthError {
    InvalidCredentials(String),
    RateLimit(String),
    Network(String),
    ServiceUnavailable(String),
    Unconfigured(String),
    SessionExpired(String),
    InvalidResponse(String),
    Validation(String),
    SecurityViolation(String),
}

/// Mathematical image of an `AuthError`.
pub enum AuthFault {
    InvalidCredentials(Seq<char>),
    RateLimit(Seq<char>),
    Network(Seq<char>),
    ServiceUnavailable(Seq<char>),
    Unconfigured(Seq<char>),
    SessionExpired(Seq<char>),
    InvalidResponse(Seq<char>),
    Validation(Seq<char>),
    SecurityViolation(Seq<char>),
}

impl View for AuthError {
    type V = AuthFault;

    open spec fn view(&self) -> AuthFault {
        match self {
            AuthError::InvalidCredentials(m) => AuthFault::InvalidCredentials(m@),
            AuthError::RateLimit(m) => AuthFault::RateLimit(m@),
            AuthError::Network(m) => AuthFault::Network(m@),
            AuthError::ServiceUnavailable(m) => AuthFault::ServiceUnavailable(m@),
            AuthError::Unconfigured(m) => AuthFault::Unconfigured(m@),
            AuthError::SessionExpired(m) => AuthFault::SessionExpired(m@),
            AuthError::InvalidResponse(m) => AuthFault::InvalidResponse(m@),
            AuthError::Validation(m) => AuthFault::Validation(m@),
            AuthError::SecurityViolation(m) => AuthFault::SecurityViolation(m@),
        }
    }
}

/// The text an authentication error is displayed with.
pub open spec fn auth_error_text(f: AuthFault) -> Seq<char> {
    match f {
        AuthFault::InvalidCredentials(m) => "Invalid credentials: "@ + m,
        AuthFault::RateLimit(m) => "Rate limit exceeded: "@ + m,
        AuthFault::Network(m) => "Network error: "@ + m,
        AuthFault::ServiceUnavailable(m) => "Service unavailable: "@ + m,
        AuthFault::Unconfigured(m) => "Configuration error: "@ + m,
        AuthFault::SessionExpired(m) => "Session expired: "@ + m,
        AuthFault::InvalidResponse(m) => "Invalid auth response: "@ + m,
        AuthFault::Validation(m) => "Validation error: "@ + m,
        AuthFault::SecurityViolation(m) => "Security violation: "@ + m,
    }
}

impl AuthError {
    /// The display text of this error.
    pub fn describe(&self) -> (r: String)
        ensures
            r@ == auth_error_text(self@),
    {
        match self {
            AuthError::InvalidCredentials(m) => crate::text::concat2("Invalid credentials: ", m.as_str()),
            AuthError::RateLimit(m) => crate::text::concat2("Rate limit exceeded: ", m.as_str()),
            AuthError::Network(m) => crate::text::concat2("Network error: ", m.as_str()),
            AuthError::ServiceUnavailable(m) => crate::text::concat2("Service unavailable: ", m.as_str()),
            AuthError::Unconfigured(m) => crate::text::concat2("Configuration error: ", m.as_str()),
            AuthError::SessionExpired(m) => crate::text::concat2("Session expired: ", m.as_str()),
            AuthError::InvalidResponse(m) => crate::text::concat2("Invalid auth response: ", m.as_str()),
            AuthError::Validation(m) => crate::text::concat2("Validation error: ", m.as_str()),
            AuthError::SecurityViolation(m) => crate::text::concat2("Security violation: ", m.as_str()),
        }
    }
}

/// Whether `s` starts with `p`.
pub open spec fn has_prefix(s: Seq<char>, p: Seq<char>) -> bool {
    p.len() <= s.len() && s.take(p.len() as int) == p
}

// ---------------------------------------------------------------- base64url

/// Characters accepted by the base64url decoder (both URL-safe and standard alphabets).
pub open spec fn is_b64_char(c: char) -> bool {
    is_alnum(c) || c == '+' || c == '/' || c == '-' || c == '_'
}

/// Six-bit value of a base64 character (`-` and `_` stand for `+` and `/`).
pub open spec fn sextet(c: char) -> nat {
    if is_upper(c) {
        ((c as u32) - ('A' as u32)) as nat
    } else if is_lower(c) {
        ((c as u32) - ('a' as u32) + 26) as nat
    } else if is_digit(c) {
        ((c as u32) - ('0' as u32) + 52) as nat
    } else if c == '+' || c == '-' {
        62
    } else {
        63
    }
}

/// Bytes encoded by a sequence of six-bit values: every four values give three bytes; a
/// trailing group of two or three values gives one or two bytes; leftover bits are dropped.
pub open spec fn b64_bytes(v: Seq<nat>) -> Seq<u8>
    decreases v.len(),
{
    if v.len() >= 4 {
        seq![
            (v[0] * 4 + v[1] / 16) as u8,
            ((v[1] % 16) * 16 + v[2] / 4) as u8,
            ((v[2] % 4) * 64 + v[3]) as u8,
        ] + b64_bytes(v.skip(4))
    } else if v.len() == 3 {
        seq![(v[0] * 4 + v[1] / 16) as u8, ((v[1] % 16) * 16 + v[2] / 4) as u8]
    } else if v.len() == 2 {
        seq![(v[0] * 4 + v[1] / 16) as u8]
    } else {
        Seq::empty()
    }
}

/// What `decode_base64url` returns: the decoded bytes, or `None` when a character is outside
/// the alphabet.
pub open spec fn base64url_spec(s: Seq<char>) -> Option<Seq<u8>> {
    if forall|i: int| 0 <= i < s.len() ==> is_b64_char(#[trigger] s[i]) {
        Some(b64_bytes(s.map_values(|c: char| sextet(c))))
    } else {
        None
    }
}

fn sextet_of(c: char) -> (v: u8)
    requires
        is_b64_char(c),
    ensures
        v as nat == sextet(c),
        v < 64,
{
    if c >= 'A' && c <= 'Z' {
        ((c as u32) - ('A' as u32)) as u8
    } else if c >= 'a' && c <= 'z' {
        ((c as u32) - ('a' as u32) + 26) as u8
    } else if c >= '0' && c <= '9' {
        ((c as u32) - ('0' as u32) + 52) as u8
    } else if c == '+' || c == '-' {
        62
    } else {
        63
    }
}

/// Decodes a base64url (or standard base64, unpadded) string into bytes.
pub fn decode_base64url(s: &str) -> (r: Result<Vec<u8>, &'static str>)
    ensures
        match base64url_spec(s@) {
            Some(b) => r matches Ok(v) && v@ == b,
            None => r matches Err(e) && e@ == "invalid base64url character"@,
        },
{
    let chars = chars_of(s);
    let mut vals: Vec<u8> = Vec::new();
    let mut i: usize = 0;
    while i < chars.len()
        invariant
            chars@ == s@,
            i <= chars@.len(),
            vals@.len() == i,
            forall|k: int| 0 <= k < i ==> is_b64_char(#[trigger] s@[k]),
            forall|k: int| 0 <= k < i ==> #[trigger] vals@[k] as nat == sextet(s@[k]) && vals@[k] < 64,
        decreases chars.len() - i,
    {
        let c = chars[i];
        let ok = (c >= 'a' && c <= 'z') || (c >= 'A' && c <= 'Z') || (c >= '0' && c <= '9') || c
            == '+' || c == '/' || c == '-' || c == '_';
        if !ok {
            assert(!is_b64_char(s@[i as int]));
            return Err("invalid base64url character");
        }
        let x = sextet_of(c);
        let ghost before = vals@;
        vals.push(x);
        assert(forall|k: int| 0 <= k < i ==> vals@[k] == before[k]);
        i = i + 1;
    }
    let ghost sv = s@.map_values(|c: char| sextet(c));
    assert forall|k: int| 0 <= k < vals@.len() implies vals@[k] as nat == #[trigger] sv[k] by {}
    let n = vals.len();
    let mut out: Vec<u8> = Vec::new();
    assert(sv.skip(0) =~= sv);
    assert(out@ + b64_bytes(sv.skip(0)) =~= b64_bytes(sv));
    let mut j: usize = 0;
    while n - j >= 4
        invariant
            n == vals@.len(),
            n == sv.len(),
            j <= n,
            forall|k: int| 0 <= k < n ==> vals@[k] as nat == #[trigger] sv[k] && vals@[k] < 64,
            out@ + b64_bytes(sv.skip(j as int)) == b64_bytes(sv),
        decreases n - j,
    {
        let v0 = vals[j] as u32;
        let v1 = vals[j + 1] as u32;
        let v2 = vals[j + 2] as u32;
        let v3 = vals[j + 3] as u32;
        let ghost rest = sv.skip(j as int);
        assert(rest[0] == sv[j as int] && rest[1] == sv[j + 1] && rest[2] == sv[j + 2] && rest[3]
            == sv[j + 3]);
        assert(rest.skip(4) =~= sv.skip(j + 4));
        out.push((v0 * 4 + v1 / 16) as u8);
        out.push(((v1 % 16) * 16 + v2 / 4) as u8);
        out.push(((v2 % 4) * 64 + v3) as u8);
        j = j + 4;
    }
    let ghost rest = sv.skip(j as int);
    if n - j == 3 {
        let v0 = vals[j] as u32;
        let v1 = vals[j + 1] as u32;
        let v2 = vals[j + 2] as u32;
        assert(rest[0] == sv[j as int] && rest[1] == sv[j + 1] && rest[2] == sv[j + 2]);
        out.push((v0 * 4 + v1 / 16) as u8);
        out.push(((v1 % 16) * 16 + v2 / 4) as u8);
    } else if n - j == 2 {
        let v0 = vals[j] as u32;
        let v1 = vals[j + 1] as u32;
        assert(rest[0] == sv[j as int] && rest[1] == sv[j + 1]);
        out.push((v0 * 4 + v1 / 16) as u8);
    }
    assert(out@ =~= b64_bytes(sv));
    Ok(out)
}

/// The URL-safe base64 alphabet: the character that stands for a six-bit value.
pub open spec fn b64url_char(n: nat) -> char {
    if n < 26 {
        (n + 65) as char
    } else if n < 52 {
        (n + 71) as char
    } else if n < 62 {
        (n - 4) as char
    } else if n == 62 {
        '-'
    } else {
        '_'
    }
}

/// Unpadded base64url encoding of bytes: three bytes give four characters, a trailing one or
/// two bytes give two or three characters.
pub open spec fn b64url_encode(b: Seq<u8>) -> Seq<char>
    decreases b.len(),
{
    if b.len() >= 3 {
        seq![
            b64url_char((b[0] / 4) as nat),
            b64url_char(((b[0] % 4) * 16 + b[1] / 16) as nat),
            b64url_char(((b[1] % 16) * 4 + b[2] / 64) as nat),
            b64url_char((b[2] % 64) as nat),
        ] + b64url_encode(b.skip(3))
    } else if b.len() == 2 {
        seq![
            b64url_char((b[0] / 4) as nat),
            b64url_char(((b[0] % 4) * 16 + b[1] / 16) as nat),
            b64url_char(((b[1] % 16) * 4) as nat),
        ]
    } else if b.len() == 1 {
        seq![b64url_char((b[0] / 4) as nat), b64url_char(((b[0] % 4) * 16) as nat)]
    } else {
        Seq::empty()
    }
}

proof fn lemma_b64url_char(n: nat)
    requires
        n < 64,
    ensures
        is_b64_char(b64url_char(n)),
        sextet(b64url_char(n)) == n,
{
}

proof fn lemma_b64_byte_split(b0: u8, b1: u8, b2: u8)
    ensures
        b0 / 4 < 64,
        (b0 % 4) * 16 + b1 / 16 < 64,
        (b1 % 16) * 4 + b2 / 64 < 64,
        (b0 / 4) * 4 + ((b0 % 4) * 16 + b1 / 16) / 16 == b0,
        (((b0 % 4) * 16 + b1 / 16) % 16) * 16 + ((b1 % 16) * 4 + b2 / 64) / 4 == b1,
        (((b1 % 16) * 4 + b2 / 64) % 4) * 64 + b2 % 64 == b2,
{
}

proof fn lemma_b64url_encode_decodes(b: Seq<u8>)
    ensures
        forall|i: int|
            0 <= i < b64url_encode(b).len() ==> is_b64_char(#[trigger] b64url_encode(b)[i]),
        b64_bytes(b64url_encode(b).map_values(|c: char| sextet(c))) == b,
    decreases b.len(),
{
    let e = b64url_encode(b);
    let m = e.map_values(|c: char| sextet(c));
    if b.len() >= 3 {
        lemma_b64_byte_split(b[0], b[1], b[2]);
        let n0 = (b[0] / 4) as nat;
        let n1 = ((b[0] % 4) * 16 + b[1] / 16) as nat;
        let n2 = ((b[1] % 16) * 4 + b[2] / 64) as nat;
        let n3 = (b[2] % 64) as nat;
        lemma_b64url_char(n0);
        lemma_b64url_char(n1);
        lemma_b64url_char(n2);
        lemma_b64url_char(n3);
        let head = seq![b64url_char(n0), b64url_char(n1), b64url_char(n2), b64url_char(n3)];
        let rest = b64url_encode(b.skip(3));
        lemma_b64url_encode_decodes(b.skip(3));
        assert(e == head + rest);
        assert forall|i: int| 0 <= i < e.len() implies is_b64_char(#[trigger] e[i]) by {
            if i >= 4 {
                assert(e[i] == rest[i - 4]);
            }
        }
        assert(m.skip(4) =~= rest.map_values(|c: char| sextet(c)));
        assert(m[0] == n0 && m[1] == n1 && m[2] == n2 && m[3] == n3);
        assert(b64_bytes(m) == seq![b[0], b[1], b[2]] + b.skip(3));
        assert(seq![b[0], b[1], b[2]] + b.skip(3) =~= b);
    } else if b.len() == 2 {
        lemma_b64_byte_split(b[0], b[1], 0);
        let n0 = (b[0] / 4) as nat;
        let n1 = ((b[0] % 4) * 16 + b[1] / 16) as nat;
        let n2 = ((b[1] % 16) * 4) as nat;
        lemma_b64url_char(n0);
        lemma_b64url_char(n1);
        lemma_b64url_char(n2);
        assert(m[0] == n0 && m[1] == n1 && m[2] == n2);
        assert(b64_bytes(m) =~= b);
    } else if b.len() == 1 {
        lemma_b64_byte_split(b[0], 0, 0);
        let n0 = (b[0] / 4) as nat;
        let n1 = ((b[0] % 4) * 16) as nat;
        lemma_b64url_char(n0);
        lemma_b64url_char(n1);
        assert(m[0] == n0 && m[1] == n1);
        assert(b64_bytes(m) =~= b);
    } else {
        assert(b64_bytes(m) =~= b);
    }
}

/// Decoding the unpadded base64url encoding of any bytes gives those bytes back.
pub proof fn lemma_base64url_decodes_encoding(b: Seq<u8>)
    ensures
        base64url_spec(b64url_encode(b)) == Some(b),
{
    lemma_b64url_encode_decodes(b);
}

// ---------------------------------------------------------------- JWT role claim

/// Names what `serde_json` reads as the string `role` member of a JSON payload: `None` when
/// the bytes are not JSON or the member is absent or not a string.
pub uninterp spec fn json_role_claim(payload: Seq<u8>) -> Option<Seq<char>>;

/// Calls `serde_json::from_slice` on the payload and reads its `role` member as a string.
/// The contract only ties the result to the payload through the name `json_role_claim`;
/// the JSON grammar is not stated.
#[verifier::external_body]
fn role_claim_of(payload: &[u8]) -> (r: Option<String>)
    ensures
        match r {
            Some(x) => json_role_claim(payload@) == Some(x@),
            None => json_role_claim(payload@) is None,
        },
{
    let json: serde_json::Value = serde_json::from_slice(payload).ok()?;
    json.get("role").and_then(|v| v.as_str()).map(|v| v.to_string())
}

/// The payload segment of a three-segment dotted token.
pub open spec fn jwt_payload_segment(s: Seq<char>) -> Option<Seq<char>> {
    let i = take_until(s, seq!['.']).len() as int;
    if i >= s.len() {
        None
    } else {
        let rest = s.skip(i + 1);
        let j = take_until(rest, seq!['.']).len() as int;
        if j >= rest.len() {
            None
        } else if has_char(rest.skip(j + 1), '.') {
            None
        } else {
            Some(rest.take(j))
        }
    }
}

/// The role claim of a legacy JWT key.
pub open spec fn jwt_role_spec(jwt: Seq<char>) -> Option<Seq<char>> {
    match jwt_payload_segment(jwt) {
        None => None,
        Some(p) => match base64url_spec(p) {
            None => None,
            Some(bytes) => json_role_claim(bytes),
        },
    }
}

/// Reads the `role` claim of a legacy JWT (three dot-separated segments, base64url payload).
pub fn extract_jwt_role(jwt: &str) -> (r: Option<String>)
    ensures
        match r {
            Some(x) => jwt_role_spec(jwt@) == Some(x@),
            None => jwt_role_spec(jwt@) is None,
        },
{
    proof {
        reveal_strlit(".");
    }
    assert("."@ =~= seq!['.']);
    let n = char_count(jwt);
    let i = index_of_any(jwt, ".");
    if i >= n {
        return None;
    }
    let rest = jwt.substring_char(i + 1, n);
    assert(rest@ =~= jwt@.skip(i + 1));
    let m = char_count(rest);
    let j = index_of_any(rest, ".");
    if j >= m {
        return None;
    }
    let tail = rest.substring_char(j + 1, m);
    assert(tail@ =~= rest@.skip(j + 1));
    if contains_char(tail, '.') {
        return None;
    }
    let payload = rest.substring_char(0, j);
    assert(payload@ =~= rest@.take(j as int));
    match decode_base64url(payload) {
        Err(_) => None,
        Ok(bytes) => role_claim_of(bytes.as_slice()),
    }
}

// ---------------------------------------------------------------- URL rules

/// Host of a URL authority: a bracketed IPv6 literal (which may only be followed by a port),
/// else everything before the first `:`.
pub open spec fn authority_host(auth: Seq<char>) -> Option<Seq<char>> {
    if auth[0] == '[' {
        if has_char(auth, ']') {
            let e = take_until(auth, seq![']']).len() as int;
            let after = auth.skip(e + 1);
            if after.len() > 0 && after[0] != ':' {
                None
            } else {
                Some(auth.take(e + 1))
            }
        } else {
            None
        }
    } else {
        Some(take_until(auth, seq![':']))
    }
}

/// Whether an `http://` URL points to a loopback host (`localhost`, `127.0.0.1`, `[::1]`).
pub open spec fn localhost_http_spec(url: Seq<char>) -> bool {
    if !has_prefix(url, "http://"@) {
        false
    } else {
        let auth = trim_seq(take_until(url.skip(7), seq!['/', '?', '#']));
        if auth.len() == 0 || has_char(auth, '@') {
            false
        } else {
            match authority_host(auth) {
                None => false,
                Some(h) => h == "localhost"@ || h == "127.0.0.1"@ || h == "[::1]"@,
            }
        }
    }
}

/// Checks whether an HTTP URL points strictly to a local development loopback host.
pub fn is_allowed_localhost_http(url: &str) -> (r: bool)
    ensures
        r == localhost_http_spec(url@),
{
    proof {
        reveal_strlit("http://");
        reveal_strlit("/?#");
        reveal_strlit("]");
        reveal_strlit(":");
    }
    assert("/?#"@ =~= seq!['/', '?', '#']);
    assert("]"@ =~= seq![']']);
    assert(":"@ =~= seq![':']);
    if !starts_with(url, "http://") {
        return false;
    }
    let n = char_count(url);
    let rest = url.substring_char(7, n);
    assert(rest@ =~= url@.skip(7));
    let cut = index_of_any(rest, "/?#");
    assert("/?#"@ =~= seq!['/', '?', '#']);
    let head = rest.substring_char(0, cut);
    assert(head@ =~= rest@.take(cut as int));
    let authority = trim(head);
    let an = char_count(authority);
    if an == 0 || contains_char(authority, '@') {
        return false;
    }
    let host: &str = if authority.get_char(0) == '[' {
        if !contains_char(authority, ']') {
            return false;
        }
        let e = index_of_any(authority, "]");
        assert(e < an) by {
            if e >= an {
                let k = choose|k: int| 0 <= k < authority@.len() && authority@[k] == ']';
                assert("]"@[0] == authority@[k]);
                assert(has_char("]"@, authority@[k]));
            }
        }
        let after = authority.substring_char(e + 1, an);
        assert(after@ =~= authority@.skip(e + 1));
        if char_count(after) > 0 && after.get_char(0) != ':' {
            return false;
        }
        let h = authority.substring_char(0, e + 1);
        assert(h@ =~= authority@.take(e + 1));
        h
    } else {
        let c = index_of_any(authority, ":");
        assert(":"@ =~= seq![':']);
        let h = authority.substring_char(0, c);
        assert(h@ =~= authority@.take(c as int));
        h
    };
    crate::text::str_eq(host, "localhost") || crate::text::str_eq(host, "127.0.0.1")
        || crate::text::str_eq(host, "[::1]")
}

/// What `validate_config` decides.
pub open spec fn config_spec(url: Seq<char>, key: Seq<char>) -> Result<(), AuthFault> {
    let u = trim_seq(url);
    let k = trim_seq(key);
    if u.len() == 0 {
        Err(AuthFault::Unconfigured("Supabase URL cannot be empty"@))
    } else if !has_prefix(u, "https://"@) && !localhost_http_spec(u) && has_prefix(u, "http://"@) {
        Err(
            AuthFault::SecurityViolation(
                "Insecure HTTP Supabase URL is forbidden. Production and remote environments must use HTTPS (HTTP is restricted to localhost)"@,
            ),
        )
    } else if !has_prefix(u, "https://"@) && !localhost_http_spec(u) {
        Err(
            AuthFault::Unconfigured(
                "Supabase URL must start with https:// (or http:// for localhost development only)"@,
            ),
        )
    } else if k.len() == 0 {
        Err(AuthFault::Unconfigured("Supabase publishable key cannot be empty"@))
    } else if has_prefix(k, "sb_secret_"@) {
        Err(
            AuthFault::SecurityViolation(
                "Supabase secret key (sb_secret_*) must never be configured in client application"@,
            ),
        )
    } else if jwt_role_spec(k) == Some("service_role"@) {
        Err(
            AuthFault::SecurityViolation(
                "Legacy service_role JWT key must never be configured in client application"@,
            ),
        )
    } else if contains_seq(unicode_lower(k), "service_role"@) || contains_seq(
        unicode_lower(k),
        "secret_key"@,
    ) {
        Err(
            AuthFault::SecurityViolation(
                "Privileged service-role key or secret must never be configured in client application"@,
            ),
        )
    } else {
        Ok(())
    }
}

/// Validates that the configuration holds only public client parameters: an HTTPS URL (HTTP
/// only for loopback development hosts) and a publishable key that is no secret or
/// service-role key.
pub fn validate_config(config: &SupabaseAuthConfig) -> (r: Result<(), AuthError>)
    ensures
        match config_spec(config.url@, config.publishable_key@) {
            Ok(()) => r is Ok,
            Err(f) => r matches Err(e) && e@ == f,
        },
{
    let url = trim(config.url.as_str());
    if char_count(url) == 0 {
        return Err(AuthError::Unconfigured(String::from_str("Supabase URL cannot be empty")));
    }
    if starts_with(url, "https://") {
    } else if is_allowed_localhost_http(url) {
    } else if starts_with(url, "http://") {
        return Err(
            AuthError::SecurityViolation(
                String::from_str(
                    "Insecure HTTP Supabase URL is forbidden. Production and remote environments must use HTTPS (HTTP is restricted to localhost)",
                ),
            ),
        );
    } else {
        return Err(
            AuthError::Unconfigured(
                String::from_str(
                    "Supabase URL must start with https:// (or http:// for localhost development only)",
                ),
            ),
        );
    }
    let key = trim(config.publishable_key.as_str());
    if char_count(key) == 0 {
        return Err(
            AuthError::Unconfigured(String::from_str("Supabase publishable key cannot be empty")),
        );
    }
    if starts_with(key, "sb_secret_") {
        return Err(
            AuthError::SecurityViolation(
                String::from_str(
                    "Supabase secret key (sb_secret_*) must never be configured in client application",
                ),
            ),
        );
    }
    if let Some(role) = extract_jwt_role(key) {
        if crate::text::str_eq(role.as_str(), "service_role") {
            return Err(
                AuthError::SecurityViolation(
                    String::from_str(
                        "Legacy service_role JWT key must never be configured in client application",
                    ),
                ),
            );
        }
    }
    let lower = to_lowercase(key);
    if contains_str(lower.as_str(), "service_role") || contains_str(lower.as_str(), "secret_key") {
        return Err(
            AuthError::SecurityViolation(
                String::from_str(
                    "Privileged service-role key or secret must never be configured in client application",
                ),
            ),
        );
    }
    Ok(())
}

/// No secret key (`sb_secret_…`, surrounding whitespace ignored) is ever accepted as the
/// client key, whatever the (otherwise valid HTTPS) URL.
pub proof fn lemma_secret_key_refused(url: Seq<char>, key: Seq<char>)
    requires
        trim_seq(url).len() != 0,
        has_prefix(trim_seq(url), "https://"@),
        has_prefix(trim_seq(key), "sb_secret_"@),
    ensures
        config_spec(url, key) matches Err(AuthFault::SecurityViolation(_)),
{
    reveal_strlit("sb_secret_");
    assert(trim_seq(key).len() != 0);
}

/// What `validate_credentials` decides: the trimmed e-mail and the password unchanged.
pub open spec fn credentials_spec(email: Seq<char>, password: Seq<char>) -> Result<
    (Seq<char>, Seq<char>),
    AuthFault,
> {
    let e = trim_seq(email);
    if e.len() == 0 {
        Err(AuthFault::Validation("Email cannot be empty"@))
    } else if !has_char(e, '@') || byte_len(e) < 3 {
        Err(AuthFault::Validation("Invalid email format"@))
    } else if password.len() == 0 {
        Err(AuthFault::Validation("Password cannot be empty"@))
    } else {
        Ok((e, password))
    }
}

/// Validates sign-in credentials before transmission.
pub fn validate_credentials(email: &str, password: &str) -> (r: Result<(String, String), AuthError>)
    ensures
        match credentials_spec(email@, password@) {
            Ok((e, p)) => r matches Ok((re, rp)) && re@ == e && rp@ == p,
            Err(f) => r matches Err(x) && x@ == f,
        },
{
    let e = trim(email);
    if char_count(e) == 0 {
        return Err(AuthError::Validation(String::from_str("Email cannot be empty")));
    }
    if !contains_char(e, '@') || utf8_len(e) < 3 {
        return Err(AuthError::Validation(String::from_str("Invalid email format")));
    }
    if char_count(password) == 0 {
        return Err(AuthError::Validation(String::from_str("Password cannot be empty")));
    }
    Ok((owned(e), owned(password)))
}

// ---------------------------------------------------------------- service replies

/// The user part of a token reply of the authentication service, as parsed.
#[derive(Debug, Clone, PartialEq, Eq)]
pub struct TokenUserFields {
    pub id: String,
    pub email: Option<String>,
    pub created_at: Option<String>,
    pub last_sign_in_at: Option<String>,
}

/// A token reply of the authentication service, as parsed.
#[derive(Debug, Clone, PartialEq, Eq)]
pub struct TokenResponseFields {
    pub access_token: String,
    pub refresh_token: Option<String>,
    pub expires_at: Option<i64>,
    pub expires_in: Option<i64>,
    pub token_type: Option<String>,
    pub user: Option<TokenUserFields>,
}

fn copy_opt_string(o: &Option<String>) -> (r: Option<String>)
    ensures
        r == *o,
{
    match o {
        Some(s) => Some(s.clone()),
        None => None,
    }
}

/// The session a token reply describes; a reply without user data is refused. An absent
/// e-mail becomes empty.
pub fn session_from_token_response(raw: &TokenResponseFields) -> (r: Result<OnlineSession, AuthError>)
    ensures
        raw.user is None ==> (r matches Err(e) && e@ == AuthFault::InvalidResponse(
            "User data missing in auth response"@,
        )),
        raw.user matches Some(u) ==> (r matches Ok(s) && {
            &&& s.access_token == raw.access_token
            &&& s.refresh_token == raw.refresh_token
            &&& s.expires_at == raw.expires_at
            &&& s.expires_in == raw.expires_in
            &&& s.token_type == raw.token_type
            &&& s.user.id == u.id
            &&& s.user.email@ == match u.email {
                Some(x) => x@,
                None => Seq::<char>::empty(),
            }
            &&& s.user.created_at == u.created_at
            &&& s.user.last_sign_in_at == u.last_sign_in_at
        }),
{
    match &raw.user {
        None => Err(AuthError::InvalidResponse(String::from_str("User data missing in auth response"))),
        Some(u) => {
            let email = match &u.email {
                Some(x) => x.clone(),
                None => String::new(),
            };
            Ok(
                OnlineSession {
                    access_token: raw.access_token.clone(),
                    refresh_token: copy_opt_string(&raw.refresh_token),
                    expires_at: raw.expires_at,
                    expires_in: raw.expires_in,
                    token_type: copy_opt_string(&raw.token_type),
                    user: OnlineIdentity {
                        id: u.id.clone(),
                        email,
                        created_at: copy_opt_string(&u.created_at),
                        last_sign_in_at: copy_opt_string(&u.last_sign_in_at),
                    },
                },
            )
        },
    }
}

/// `s` without its trailing `/` characters.
pub open spec fn strip_trailing_slashes(s: Seq<char>) -> Seq<char>
    decreases s.len(),
{
    if s.len() > 0 && s.last() == '/' {
        strip_trailing_slashes(s.drop_last())
    } else {
        s
    }
}

/// The address of a service endpoint: the configured URL without trailing slashes, then
/// the endpoint's path and query.
pub fn auth_endpoint(url: &str, path: &str) -> (r: String)
    ensures
        r@ == strip_trailing_slashes(url@) + path@,
{
    let v = chars_of(url);
    let mut end: usize = v.len();
    assert(url@.take(end as int) =~= url@);
    while end > 0 && v[end - 1] == '/'
        invariant
            v@ == url@,
            end <= v@.len(),
            strip_trailing_slashes(url@) == strip_trailing_slashes(url@.take(end as int)),
        decreases end,
    {
        proof {
            assert(url@.take(end as int).drop_last() =~= url@.take(end - 1));
        }
        end = end - 1;
    }
    proof {
        assert(url@.take(end as int) == strip_trailing_slashes(url@.take(end as int)));
    }
    let base = url.substring_char(0, end);
    assert(base@ =~= url@.take(end as int));
    let mut r = owned(base);
    push_str(&mut r, path);
    r
}

// ---------------------------------------------------------------- service errors

/// The message an error body carries: its description, else message, else msg, else error,
/// else a generic text.
pub open spec fn body_message(
    error: Option<Seq<char>>,
    description: Option<Seq<char>>,
    message: Option<Seq<char>>,
    msg: Option<Seq<char>>,
) -> Seq<char> {
    match description {
        Some(d) => d,
        None => match message {
            Some(m) => m,
            None => match msg {
                Some(m) => m,
                None => match error {
                    Some(e) => e,
                    None => "Authentication request failed"@,
                },
            },
        },
    }
}

pub open spec fn opt_str_view(o: Option<String>) -> Option<Seq<char>> {
    match o {
        Some(s) => Some(s@),
        None => None,
    }
}

/// What `classify_error_response` returns for an HTTP status and the parsed error body
/// (`None` when the body did not parse).
pub open spec fn classify_spec(status: u16, body: Option<AuthErrorBody>) -> AuthFault {
    if status == 429 {
        AuthFault::RateLimit("Too many authentication requests. Please wait a moment and try again."@)
    } else if status >= 500 {
        AuthFault::ServiceUnavailable(
            "Supabase authentication service is currently unavailable. Please try again later."@,
        )
    } else {
        match body {
            None => AuthFault::InvalidResponse(
                "Authentication service returned unparseable error response (HTTP "@ + nat_digits(
                    status as nat,
                ) + ")"@,
            ),
            Some(b) => {
                let m = body_message(
                    opt_str_view(b.error),
                    opt_str_view(b.error_description),
                    opt_str_view(b.message),
                    opt_str_view(b.msg),
                );
                let lower = unicode_lower(m);
                if status == 400 {
                    if contains_seq(lower, "invalid login credentials"@) || contains_seq(
                        lower,
                        "invalid_grant"@,
                    ) || contains_seq(lower, "invalid credentials"@) || contains_seq(
                        lower,
                        "email not confirmed"@,
                    ) || contains_seq(lower, "user not found"@) {
                        AuthFault::InvalidCredentials("Invalid email or password"@)
                    } else {
                        AuthFault::Validation(m)
                    }
                } else if status == 401 {
                    if contains_seq(lower, "jwt expired"@) || contains_seq(lower, "session expired"@)
                        || contains_seq(lower, "token expired"@) {
                        AuthFault::SessionExpired("Session has expired. Please sign in again."@)
                    } else {
                        AuthFault::InvalidCredentials(
                            "Authentication credentials are invalid or expired"@,
                        )
                    }
                } else {
                    AuthFault::InvalidResponse(
                        "Unexpected authentication error (HTTP "@ + nat_digits(status as nat)
                            + "): "@ + m,
                    )
                }
            },
        }
    }
}

fn pick_message(body: &AuthErrorBody) -> (m: String)
    ensures
        m@ == body_message(
            opt_str_view(body.error),
            opt_str_view(body.error_description),
            opt_str_view(body.message),
            opt_str_view(body.msg),
        ),
{
    match &body.error_description {
        Some(d) => owned(d.as_str()),
        None => match &body.message {
            Some(x) => owned(x.as_str()),
            None => match &body.msg {
                Some(x) => owned(x.as_str()),
                None => match &body.error {
                    Some(x) => owned(x.as_str()),
                    None => String::from_str("Authentication request failed"),
                },
            },
        },
    }
}

/// Maps an error response of the authentication service to a typed error without leaking
/// secrets: rate limits and server failures by status, then by the body's message.
pub fn classify_error_response(status_code: u16, body: Option<AuthErrorBody>) -> (r: AuthError)
    ensures
        r@ == classify_spec(status_code, body),
{
    if status_code == 429 {
        return AuthError::RateLimit(
            String::from_str("Too many authentication requests. Please wait a moment and try again."),
        );
    }
    if status_code >= 500 {
        return AuthError::ServiceUnavailable(
            String::from_str(
                "Supabase authentication service is currently unavailable. Please try again later.",
            ),
        );
    }
    let b = match body {
        None => {
            let mut m = String::from_str(
                "Authentication service returned unparseable error response (HTTP ",
            );
            push_decimal(&mut m, status_code as u64);
            push_str(&mut m, ")");
            return AuthError::InvalidResponse(m);
        },
        Some(b) => b,
    };
    let err_msg = pick_message(&b);
    let lower = to_lowercase(err_msg.as_str());
    let l = lower.as_str();
    if status_code == 400 {
        if contains_str(l, "invalid login credentials") || contains_str(l, "invalid_grant")
            || contains_str(l, "invalid credentials") || contains_str(l, "email not confirmed")
            || contains_str(l, "user not found") {
            AuthError::InvalidCredentials(String::from_str("Invalid email or password"))
        } else {
            AuthError::Validation(err_msg)
        }
    } else if status_code == 401 {
        if contains_str(l, "jwt expired") || contains_str(l, "session expired") || contains_str(
            l,
            "token expired",
        ) {
            AuthError::SessionExpired(String::from_str("Session has expired. Please sign in again."))
        } else {
            AuthError::InvalidCredentials(
                String::from_str("Authentication credentials are invalid or expired"),
            )
        }
    } else {
        let mut m = String::from_str("Unexpected authentication error (HTTP ");
        push_decimal(&mut m, status_code as u64);
        push_str(&mut m, "): ");
        push_str(&mut m, err_msg.as_str());
        AuthError::InvalidResponse(m)
    }
}

} // verus!
