//! Authentication and entitlements: password hashing, signed session tokens,
//! the canonical module keys and the decisions of the API guard.
//!
//! Storage is not touched here. Where a decision needs a stored fact (an
//! entitlement row), the caller looks it up and passes it in; where the token
//! payload must be turned into claims, the caller parses the authenticated
//! bytes this module hands out.
use vstd::prelude::*;
use vstd::string::*;
use vstd::utf8::*;
use crate::codec::{
    base64url_bytes, base64url_char, base64url_decode, base64url_encode, base64url_text,
    hex_decode, hex_decoded, hex_encode, hex_lower, hmac_sha256, hmac_sha256_tag,
    hmac_sha256_verify, lemma_hex_round_trip, pbkdf2_sha512, pbkdf2_sha512_key, random_bytes,
};
use crate::text::{blank, chars_of, is_blank, same_text};

verus! {

broadcast use {vstd::string::group_string_axioms, vstd::utf8::group_utf8_lib};

/// The secret that signs and verifies session tokens.
pub struct HmacSecret(pub Vec<u8>);

/// Length in bytes of the secret kept in the application's data directory.
pub const HMAC_SECRET_LEN: usize = 32;

/// The secret read back from the data directory, if one was read and has
/// the expected length; `None` means a fresh secret must be made and stored.
pub fn stored_hmac_secret(read: Option<Vec<u8>>) -> (s: Option<HmacSecret>)
    ensures
        match read {
            Some(b) => if b@.len() == HMAC_SECRET_LEN {
                s matches Some(h) && h.0@ == b@
            } else {
                s is None
            },
            None => s is None,
        },
{
    match read {
        Some(b) => {
            if b.len() == HMAC_SECRET_LEN {
                Some(HmacSecret(b))
            } else {
                None
            }
        },
        None => None,
    }
}

/// A fresh random secret of `HMAC_SECRET_LEN` bytes.
pub fn fresh_hmac_secret() -> (s: HmacSecret)
    ensures
        s.0@.len() == HMAC_SECRET_LEN,
{
    HmacSecret(random_bytes(HMAC_SECRET_LEN))
}

/// Canonical entitlement module keys.
pub const CANONICAL_MODULE_KEYS: [&'static str; 5] = [
    "quotes_core",
    "inventory_specs",
    "rate_matrix",
    "compliance_terms",
    "revision_lpo",
];

/// PBKDF2 iteration count for stored password hashes.
pub const PBKDF2_ITERATIONS: u32 = 100_000;

/// Length in bytes of a stored password hash (before hex encoding).
pub const PBKDF2_OUTPUT_LEN: usize = 64;

/// Session tokens expire eight hours after issue.
pub const SESSION_TOKEN_LIFETIME_SECS: u64 = 28800;

/// The fixed JSON header of every session token.
pub const SESSION_TOKEN_HEADER: &'static str = "{\"alg\":\"HS256\",\"typ\":\"JWT\"}";

/// `key` is one of the canonical module keys.
pub open spec fn canonical_module_key(key: Seq<char>) -> bool {
    ||| key == "quotes_core"@
    ||| key == "inventory_specs"@
    ||| key == "rate_matrix"@
    ||| key == "compliance_terms"@
    ||| key == "revision_lpo"@
}

/// Membership in `CANONICAL_MODULE_KEYS`.
pub fn is_canonical_module_key(key: &str) -> (b: bool)
    ensures
        b == canonical_module_key(key@),
{
    same_text(key, "quotes_core") || same_text(key, "inventory_specs") || same_text(key, "rate_matrix")
        || same_text(key, "compliance_terms") || same_text(key, "revision_lpo")
}

// ---------------------------------------------------------------------------
// Constant-time comparison
// ---------------------------------------------------------------------------

/// Byte comparison that walks every byte of equal-length inputs instead of
/// stopping at the first difference. True exactly when the inputs are equal.
pub fn constant_time_eq(a: &[u8], b: &[u8]) -> (eq: bool)
    ensures
        eq == (a@ == b@),
{
    if a.len() != b.len() {
        return false;
    }
    let mut diff: u8 = 0;
    let mut i: usize = 0;
    while i < a.len()
        invariant
            a.len() == b.len(),
            i <= a.len(),
            (diff == 0) <==> (a@.take(i as int) =~= b@.take(i as int)),
        decreases a.len() - i,
    {
        let x = a[i];
        let y = b[i];
        let d = diff;
        assert(((d | (x ^ y)) == 0) <==> (d == 0 && x == y)) by (bit_vector);
        diff = diff | (x ^ y);
        proof {
            assert(a@.take(i + 1) =~= a@.take(i as int).push(x));
            assert(b@.take(i + 1) =~= b@.take(i as int).push(y));
            if a@.take(i + 1) =~= b@.take(i + 1) {
                assert(a@.take(i + 1)[i as int] == b@.take(i + 1)[i as int]);
                assert(a@.take(i as int) =~= a@.take(i + 1).take(i as int));
                assert(b@.take(i as int) =~= b@.take(i + 1).take(i as int));
            }
        }
        i = i + 1;
    }
    assert(a@.take(a.len() as int) =~= a@);
    assert(b@.take(b.len() as int) =~= b@);
    diff == 0
}

// ---------------------------------------------------------------------------
// Password hashing
// ---------------------------------------------------------------------------

/// The stored form of a password hash: `"{salt}${hex(pbkdf2)}"`, where the key
/// is PBKDF2-HMAC-SHA512 over the password bytes with the salt text's bytes.
pub open spec fn stored_hash_text(password: Seq<u8>, salt: Seq<char>) -> Seq<char> {
    salt + seq!['$'] + hex_lower(
        pbkdf2_sha512_key(password, encode_utf8(salt), PBKDF2_ITERATIONS, PBKDF2_OUTPUT_LEN as nat),
    )
}

/// `k` is the position of the first `c` in `s`.
pub open spec fn first_at(s: Seq<char>, c: char, k: int) -> bool {
    &&& 0 <= k < s.len()
    &&& s[k] == c
    &&& forall|j: int| 0 <= j < k ==> s[j] != c
}

/// Whether `password` (its bytes) matches a stored `"salt$hash"` text: the text
/// splits at its first `$` into a non-empty salt and a non-empty hash, the hash
/// is valid hexadecimal, and it denotes the PBKDF2 key of the password with
/// that salt.
pub open spec fn password_matches(password: Seq<u8>, stored: Seq<char>) -> bool {
    if exists|k: int| first_at(stored, '$', k) {
        let k = choose|k: int| first_at(stored, '$', k);
        let salt = stored.take(k);
        let hash = stored.skip(k + 1);
        &&& salt.len() > 0
        &&& hash.len() > 0
        &&& hex_decoded(encode_utf8(hash)) == Some(
            pbkdf2_sha512_key(password, encode_utf8(salt), PBKDF2_ITERATIONS, PBKDF2_OUTPUT_LEN as nat),
        )
    } else {
        false
    }
}

/// Hashes `password` with PBKDF2-HMAC-SHA512 (100,000 iterations, 64-byte
/// output). Uses `salt` when given, else a fresh random 16-byte salt written as
/// 32 lowercase hexadecimal digits. Returns `"{salt}${hash_hex}"`.
pub fn hash_password(password: &str, salt: Option<&str>) -> (stored: String)
    ensures
        match salt {
            Some(s) => stored@ == stored_hash_text(encode_utf8(password@), s@),
            None => exists|r: Seq<u8>|
                r.len() == 16 && stored@ == stored_hash_text(encode_utf8(password@), #[trigger] hex_lower(r)),
        },
        (salt matches Some(s) ==> s@.len() > 0 && !s@.contains('$')) ==> password_matches(
            encode_utf8(password@),
            stored@,
        ),
        stored@.len() == match salt {
            Some(s) => s@.len() + 1 + 2 * PBKDF2_OUTPUT_LEN,
            None => 32 + 1 + 2 * PBKDF2_OUTPUT_LEN,
        },
{
    let ghost mut rnd: Seq<u8> = Seq::empty();
    let salt_text: String = match salt {
        Some(s) => String::from_str(s),
        None => {
            let r = random_bytes(16);
            proof {
                rnd = r@;
            }
            hex_encode(r.as_slice())
        },
    };
    let key = pbkdf2_sha512(
        password.as_bytes(),
        salt_text.as_str().as_bytes(),
        PBKDF2_ITERATIONS,
        PBKDF2_OUTPUT_LEN,
    );
    let hash_hex = hex_encode(key.as_slice());
    let stored = salt_text.concat("$").concat(hash_hex.as_str());
    proof {
        reveal_strlit("$");
        match salt {
            Some(s) => {
                if s@.len() > 0 && !s@.contains('$') {
                    assert forall|i: int| 0 <= i < s@.len() implies s@[i] != '$' by {
                        if s@[i] == '$' {
                            assert(s@.contains('$'));
                        }
                    }
                    lemma_hash_then_verify(encode_utf8(password@), s@);
                }
            },
            None => {
                lemma_random_salt_hash_verifies(encode_utf8(password@), rnd);
                assert(stored@ == stored_hash_text(encode_utf8(password@), hex_lower(rnd)));
            },
        }
    }
    stored
}

/// Verifies `password` against a stored `"salt$hash"` text. Any malformed
/// stored text (no `$`, empty salt or hash, hash not hexadecimal) yields
/// `false`; never panics.
pub fn verify_password(password: &str, stored_hash: &str) -> (ok: bool)
    ensures
        ok == password_matches(encode_utf8(password@), stored_hash@),
{
    let cs = chars_of(stored_hash);
    let n = cs.len();
    let mut k: usize = 0;
    while k < n && cs[k] != '$'
        invariant
            cs@ == stored_hash@,
            n == cs.len(),
            k <= n,
            forall|j: int| 0 <= j < k ==> cs@[j] != '$',
        decreases n - k,
    {
        k = k + 1;
    }
    if k == n {
        proof {
            assert(!exists|k: int| first_at(stored_hash@, '$', k));
        }
        return false;
    }
    proof {
        assert(first_at(stored_hash@, '$', k as int));
        let kk = choose|kk: int| first_at(stored_hash@, '$', kk);
        assert(kk == k as int) by {
            if kk < k as int {
                assert(cs@[kk] != '$');
            } else if kk > k as int {
                assert(stored_hash@[k as int] != '$');
            }
        }
    }
    if k == 0 || k + 1 == n {
        return false;
    }
    let salt = stored_hash.substring_char(0, k);
    let hash = stored_hash.substring_char(k + 1, n);
    assert(salt@ =~= stored_hash@.take(k as int));
    assert(hash@ =~= stored_hash@.skip(k + 1));
    let decoded = match hex_decode(hash) {
        Some(d) => d,
        None => {
            return false;
        },
    };
    let candidate = pbkdf2_sha512(password.as_bytes(), salt.as_bytes(), PBKDF2_ITERATIONS, PBKDF2_OUTPUT_LEN);
    constant_time_eq(candidate.as_slice(), decoded.as_slice())
}

/// A password always matches the stored text built from it with any non-empty
/// salt that holds no `$`.
pub proof fn lemma_hash_then_verify(password: Seq<u8>, salt: Seq<char>)
    requires
        salt.len() > 0,
        forall|i: int| 0 <= i < salt.len() ==> salt[i] != '$',
        pbkdf2_sha512_key(password, encode_utf8(salt), PBKDF2_ITERATIONS, PBKDF2_OUTPUT_LEN as nat).len()
            == PBKDF2_OUTPUT_LEN,
    ensures
        password_matches(password, stored_hash_text(password, salt)),
{
    let key = pbkdf2_sha512_key(password, encode_utf8(salt), PBKDF2_ITERATIONS, PBKDF2_OUTPUT_LEN as nat);
    let hex = hex_lower(key);
    let stored = stored_hash_text(password, salt);
    let k = salt.len() as int;
    assert(stored[k] == '$');
    assert forall|j: int| 0 <= j < k implies stored[j] != '$' by {
        assert(stored[j] == salt[j]);
    }
    assert(first_at(stored, '$', k));
    let kk = choose|kk: int| first_at(stored, '$', kk);
    assert(kk == k) by {
        if kk < k {
            assert(stored[kk] == salt[kk]);
        } else if kk > k {
            assert(stored[k] == '$');
        }
    }
    assert(stored.take(k) =~= salt);
    assert(stored.skip(k + 1) =~= hex);
    lemma_hex_round_trip(key);
}

/// Random salts (lowercase hexadecimal of 16 bytes) hold no `$`, so a password
/// always matches its own hash made with a random salt.
pub proof fn lemma_random_salt_hash_verifies(password: Seq<u8>, r: Seq<u8>)
    requires
        r.len() == 16,
        pbkdf2_sha512_key(password, encode_utf8(hex_lower(r)), PBKDF2_ITERATIONS, PBKDF2_OUTPUT_LEN as nat).len()
            == PBKDF2_OUTPUT_LEN,
    ensures
        password_matches(password, stored_hash_text(password, hex_lower(r))),
{
    let s = hex_lower(r);
    crate::codec::lemma_hex_lower_digits(r);
    lemma_hash_then_verify(password, s);
}


// ---------------------------------------------------------------------------
// Session tokens
// ---------------------------------------------------------------------------

/// Claims carried by a session token.
#[derive(Debug, Clone, PartialEq)]
pub struct SessionClaims {
    pub sub: String,
    pub tenant_id: String,
    pub role: String,
    pub iat: u64,
    pub exp: u64,
}

/// The user fields a token is issued for.
pub struct UserForToken<'a> {
    pub id: &'a str,
    pub tenant_id: &'a str,
    pub role: &'a str,
}

/// Why a token was rejected.
#[derive(Debug, Clone, Copy, PartialEq, Eq, Structural)]
pub enum TokenError {
    Malformed,
    BadSignature,
    Expired,
}

/// `header.payload` of a token for `payload`: both parts base64url-encoded.
pub open spec fn signing_input_text(payload: Seq<u8>) -> Seq<char> {
    base64url_text(encode_utf8(SESSION_TOKEN_HEADER@)) + seq!['.'] + base64url_text(payload)
}

/// The token for `payload` signed with `key`: `header.payload.signature`, the
/// signature being the base64url HMAC-SHA256 tag of the bytes of `header.payload`.
pub open spec fn session_token_text(payload: Seq<u8>, key: Seq<u8>) -> Seq<char> {
    signing_input_text(payload) + seq!['.'] + base64url_text(
        hmac_sha256_tag(key, encode_utf8(signing_input_text(payload))),
    )
}

/// `t` holds exactly two dots, at `i` and `j` (so it splits on `.` into three parts).
pub open spec fn dots_at(t: Seq<char>, i: int, j: int) -> bool {
    &&& 0 <= i < j < t.len()
    &&& t[i] == '.'
    &&& t[j] == '.'
    &&& forall|k: int| 0 <= k < t.len() && k != i && k != j ==> t[k] != '.'
}

/// What checking a token's shape and signature gives: its authenticated
/// payload bytes, or why it was rejected. A token must split on `.` into three
/// parts; the third must decode from base64url (else `Malformed`) to the
/// HMAC-SHA256 tag of the bytes of the first two parts joined by `.` (else
/// `BadSignature`); the second must decode from base64url (else `Malformed`).
pub open spec fn token_check(token: Seq<char>, key: Seq<u8>) -> Result<Seq<u8>, TokenError> {
    if exists|i: int, j: int| dots_at(token, i, j) {
        let (i, j) = choose|i: int, j: int| dots_at(token, i, j);
        match base64url_bytes(encode_utf8(token.skip(j + 1))) {
            None => Err(TokenError::Malformed),
            Some(sig) => if sig != hmac_sha256_tag(key, encode_utf8(token.take(j))) {
                Err(TokenError::BadSignature)
            } else {
                match base64url_bytes(encode_utf8(token.subrange(i + 1, j))) {
                    None => Err(TokenError::Malformed),
                    Some(p) => Ok(p),
                }
            },
        }
    } else {
        Err(TokenError::Malformed)
    }
}

proof fn lemma_base64url_no_dot(t: Seq<char>)
    requires
        forall|i: int| 0 <= i < t.len() ==> base64url_char(#[trigger] t[i]),
    ensures
        forall|i: int| 0 <= i < t.len() ==> #[trigger] t[i] != '.',
{
    assert forall|i: int| 0 <= i < t.len() implies #[trigger] t[i] != '.' by {
        assert(base64url_char(t[i]));
    }
}

/// The HMAC-SHA256 signature of the bytes of `data` under `secret`. The
/// keyed MAC takes a key of any length, so a signature always results.
pub fn sign(data: &str, secret: &[u8]) -> (sig: Option<Vec<u8>>)
    ensures
        sig matches Some(t) && t@ == hmac_sha256_tag(secret@, encode_utf8(data@)) && t@.len() == 32,
{
    Some(hmac_sha256(secret, data.as_bytes()))
}

/// Signs a token for the given claims payload (the JSON bytes of the claims):
/// `header.payload.signature` with the fixed HS256 header. The token verifies
/// with the same secret and gives back exactly `payload_json`.
pub fn sign_session_token(payload_json: &[u8], secret: &[u8]) -> (token: String)
    requires
        payload_json@.len() <= usize::MAX / 2,
    ensures
        token@ == session_token_text(payload_json@, secret@),
        token_check(token@, secret@) == Ok::<Seq<u8>, TokenError>(payload_json@),
{
    proof {
        reveal_strlit("{\"alg\":\"HS256\",\"typ\":\"JWT\"}");
        assert(is_ascii_chars(SESSION_TOKEN_HEADER@));
    }
    let header = base64url_encode(SESSION_TOKEN_HEADER.as_bytes());
    let body = base64url_encode(payload_json);
    let signing = header.concat(".").concat(body.as_str());
    proof {
        reveal_strlit(".");
        assert(signing@ == signing_input_text(payload_json@));
    }
    let sig = sign(signing.as_str(), secret).unwrap();
    let sig_text = base64url_encode(sig.as_slice());
    let ghost s = signing@;
    let token = signing.concat(".").concat(sig_text.as_str());
    proof {
        let t = token@;
        let i = header@.len() as int;
        let j = s.len() as int;
        lemma_base64url_no_dot(header@);
        lemma_base64url_no_dot(body@);
        lemma_base64url_no_dot(sig_text@);
        assert(t =~= header@ + seq!['.'] + body@ + seq!['.'] + sig_text@);
        assert forall|k: int| 0 <= k < t.len() && k != i && k != j implies t[k] != '.' by {
            if k < i {
                assert(t[k] == header@[k]);
            } else if k < j {
                assert(t[k] == body@[k - i - 1]);
            } else {
                assert(t[k] == sig_text@[k - j - 1]);
            }
        }
        assert(dots_at(t, i, j));
        let (i2, j2) = choose|i2: int, j2: int| dots_at(t, i2, j2);
        assert(i2 == i && j2 == j) by {
            if i2 != i && i2 != j {
                assert(t[i2] != '.');
            }
            if j2 != i && j2 != j {
                assert(t[j2] != '.');
            }
        }
        assert(t.skip(j + 1) =~= sig_text@);
        assert(t.take(j) =~= s);
        assert(t.subrange(i + 1, j) =~= body@);
    }
    token
}

/// Checks a token's shape and signature and returns its authenticated payload
/// bytes (the claims JSON), without looking at the claims themselves.
pub fn token_payload(token: &str, secret: &[u8]) -> (res: Result<Vec<u8>, TokenError>)
    ensures
        match res {
            Ok(p) => token_check(token@, secret@) == Ok::<Seq<u8>, TokenError>(p@),
            Err(e) => token_check(token@, secret@) == Err::<Seq<u8>, TokenError>(e),
        },
{
    let cs = chars_of(token);
    let n = cs.len();
    let mut count: usize = 0;
    let mut first: usize = 0;
    let mut second: usize = 0;
    let mut third: usize = 0;
    let mut k: usize = 0;
    while k < n
        invariant
            cs@ == token@,
            n == cs.len(),
            k <= n,
            count <= k,
            count == 0 ==> forall|m: int| 0 <= m < k ==> cs@[m] != '.',
            count >= 1 ==> first < k && cs@[first as int] == '.' && forall|m: int|
                0 <= m < first ==> cs@[m] != '.',
            count == 1 ==> forall|m: int| first < m < k ==> cs@[m] != '.',
            count >= 2 ==> first < second < k && cs@[second as int] == '.' && forall|m: int|
                first < m < second ==> cs@[m] != '.',
            count == 2 ==> forall|m: int| second < m < k ==> cs@[m] != '.',
            count >= 3 ==> second < third < k && cs@[third as int] == '.',
        decreases n - k,
    {
        if cs[k] == '.' {
            if count == 0 {
                first = k;
            } else if count == 1 {
                second = k;
            } else if count == 2 {
                third = k;
            }
            count = count + 1;
        }
        k = k + 1;
    }
    if count != 2 {
        proof {
            assert forall|i: int, j: int| !dots_at(token@, i, j) by {
                if dots_at(token@, i, j) {
                    if count == 0 {
                        assert(cs@[i] != '.');
                    } else if count == 1 {
                        if i != first as int {
                            assert(cs@[i] != '.');
                        } else {
                            assert(cs@[j] != '.');
                        }
                    } else {
                        if first as int != i && first as int != j {
                            assert(token@[first as int] != '.');
                        } else if second as int != i && second as int != j {
                            assert(token@[second as int] != '.');
                        } else {
                            assert(token@[third as int] != '.');
                        }
                    }
                }
            }
        }
        return Err(TokenError::Malformed);
    }
    proof {
        assert(dots_at(token@, first as int, second as int));
        let (i2, j2) = choose|i2: int, j2: int| dots_at(token@, i2, j2);
        assert(i2 == first && j2 == second) by {
            if i2 != first && i2 != second {
                assert(token@[i2] != '.');
            }
            if j2 != first && j2 != second {
                assert(token@[j2] != '.');
            }
        }
    }
    let sig_text = token.substring_char(second + 1, n);
    assert(sig_text@ =~= token@.skip(second + 1));
    let sig = match base64url_decode(sig_text) {
        Some(s) => s,
        None => {
            return Err(TokenError::Malformed);
        },
    };
    let signing = token.substring_char(0, second);
    assert(signing@ =~= token@.take(second as int));
    if !hmac_sha256_verify(secret, signing.as_bytes(), sig.as_slice()) {
        return Err(TokenError::BadSignature);
    }
    let payload_text = token.substring_char(first + 1, second);
    assert(payload_text@ =~= token@.subrange(first + 1, second as int));
    match base64url_decode(payload_text) {
        Some(p) => Ok(p),
        None => Err(TokenError::Malformed),
    }
}

/// The claims issued to `user` at `now_unix_secs`: subject, tenant and role
/// from the user, issued now, expiring eight hours later.
pub fn session_claims_for(user: &UserForToken, now_unix_secs: u64) -> (claims: SessionClaims)
    requires
        now_unix_secs + SESSION_TOKEN_LIFETIME_SECS <= u64::MAX,
    ensures
        claims.sub@ == user.id@,
        claims.tenant_id@ == user.tenant_id@,
        claims.role@ == user.role@,
        claims.iat == now_unix_secs,
        claims.exp == now_unix_secs + SESSION_TOKEN_LIFETIME_SECS,
{
    SessionClaims {
        sub: String::from_str(user.id),
        tenant_id: String::from_str(user.tenant_id),
        role: String::from_str(user.role),
        iat: now_unix_secs,
        exp: now_unix_secs + SESSION_TOKEN_LIFETIME_SECS,
    }
}

/// A token is expired from its `exp` second on.
pub open spec fn token_expired(exp: u64, now: u64) -> bool {
    now >= exp
}

/// Accepts authenticated claims unless they have expired at `now_unix_secs`.
pub fn check_token_expiry(claims: SessionClaims, now_unix_secs: u64) -> (res: Result<SessionClaims, TokenError>)
    ensures
        match res {
            Ok(c) => c == claims && !token_expired(claims.exp, now_unix_secs),
            Err(e) => e == TokenError::Expired && token_expired(claims.exp, now_unix_secs),
        },
{
    if now_unix_secs >= claims.exp {
        return Err(TokenError::Expired);
    }
    Ok(claims)
}

/// Claims issued at `now` are accepted at every instant before eight hours
/// have passed, and rejected as expired from then on.
pub proof fn lemma_issued_claims_lifetime(now: u64, t: u64)
    requires
        now + SESSION_TOKEN_LIFETIME_SECS <= u64::MAX,
    ensures
        token_expired((now + SESSION_TOKEN_LIFETIME_SECS) as u64, t) <==> t >= now + SESSION_TOKEN_LIFETIME_SECS,
{
}

// ---------------------------------------------------------------------------
// Entitlements and the API guard
// ---------------------------------------------------------------------------

/// An entitlement can only hold for a non-empty tenant and a non-empty,
/// canonical module key; for anything else no stored row is consulted.
pub open spec fn entitlement_lookup_allowed(tenant_id: Seq<char>, module_key: Seq<char>) -> bool {
    &&& tenant_id.len() > 0
    &&& module_key.len() > 0
    &&& canonical_module_key(module_key)
}

/// Whether the stored entitlement row (its `is_enabled` value, if a row
/// exists) needs to be looked up at all for this tenant and module key.
pub fn entitlement_lookup_needed(tenant_id: &str, module_key: &str) -> (b: bool)
    ensures
        b == entitlement_lookup_allowed(tenant_id@, module_key@),
{
    if tenant_id.is_empty() || module_key.is_empty() {
        return false;
    }
    is_canonical_module_key(module_key)
}

/// Whether `tenant_id` holds an active entitlement for `module_key`, given the
/// stored `is_enabled` value of its entitlement row (`None` when there is no
/// row). Only an enabled row (`1`) for a canonical key grants access.
pub fn entitlement_granted(tenant_id: &str, module_key: &str, stored_is_enabled: Option<i64>) -> (b: bool)
    ensures
        b == (entitlement_lookup_allowed(tenant_id@, module_key@) && stored_is_enabled == Some(1i64)),
{
    if !entitlement_lookup_needed(tenant_id, module_key) {
        return false;
    }
    match stored_is_enabled {
        Some(v) => v == 1,
        None => false,
    }
}

/// What seeding one tenant entitlement does.
#[derive(Debug, Clone, Copy, PartialEq, Eq, Structural)]
pub enum SeedAction {
    /// The tenant id is empty: the request is an error.
    MissingTenant,
    /// The module key is not canonical: nothing is written.
    Skip,
    /// Insert the row, or update `is_enabled` on the existing one.
    Upsert,
}

/// Decides what seeding `module_key` for `tenant_id` does.
pub fn seed_entitlement_action(tenant_id: &str, module_key: &str) -> (a: SeedAction)
    ensures
        tenant_id@.len() == 0 ==> a == SeedAction::MissingTenant,
        tenant_id@.len() > 0 && !canonical_module_key(module_key@) ==> a == SeedAction::Skip,
        tenant_id@.len() > 0 && canonical_module_key(module_key@) ==> a == SeedAction::Upsert,
{
    if tenant_id.is_empty() {
        SeedAction::MissingTenant
    } else if !is_canonical_module_key(module_key) {
        SeedAction::Skip
    } else {
        SeedAction::Upsert
    }
}

/// Why the API guard refused a request.
#[derive(Debug, PartialEq)]
pub enum GuardError {
    /// Invalid or expired session token.
    Unauthorized,
    /// The verified token carries no tenant scope.
    MissingTenantScope,
    /// The tenant does not hold an active entitlement for the module.
    EntitlementDenied { tenant_id: String, module_key: String },
}

/// First stage of the API guard, on the outcome of token verification: a
/// rejected token is `Unauthorized`; verified claims with a blank tenant are
/// `MissingTenantScope`; otherwise the claims pass on.
pub fn guard_session(verified: Result<SessionClaims, TokenError>) -> (res: Result<SessionClaims, GuardError>)
    ensures
        match verified {
            Err(_) => res matches Err(GuardError::Unauthorized),
            Ok(c) => if blank(c.tenant_id@) {
                res matches Err(GuardError::MissingTenantScope)
            } else {
                res == Ok::<SessionClaims, GuardError>(c)
            },
        },
{
    match verified {
        Err(_) => Err(GuardError::Unauthorized),
        Ok(c) => {
            if is_blank(c.tenant_id.as_str()) {
                Err(GuardError::MissingTenantScope)
            } else {
                Ok(c)
            }
        },
    }
}

/// Second stage of the API guard: the claims pass when the tenant is entitled
/// to the required module (a failed lookup counts as not entitled); else the
/// refusal names the tenant and the module key.
pub fn guard_entitlement(claims: SessionClaims, required_module_key: &str, entitled: bool) -> (res: Result<SessionClaims, GuardError>)
    ensures
        entitled ==> res == Ok::<SessionClaims, GuardError>(claims),
        !entitled ==> match res {
            Err(GuardError::EntitlementDenied { tenant_id, module_key }) =>
                tenant_id@ == claims.tenant_id@ && module_key@ == required_module_key@,
            _ => false,
        },
{
    if !entitled {
        let tenant_id = claims.tenant_id.clone();
        return Err(GuardError::EntitlementDenied {
            tenant_id,
            module_key: String::from_str(required_module_key),
        });
    }
    Ok(claims)
}

/// The keys listed in `CANONICAL_MODULE_KEYS` are exactly the canonical
/// ones, and for a non-empty tenant every listed key is looked up: an enabled
/// entitlement row for any of them grants the module.
pub proof fn lemma_listed_keys_are_entitled(tenant_id: Seq<char>, key: Seq<char>)
    requires
        tenant_id.len() > 0,
    ensures
        canonical_module_key(key) <==> exists|i: int| 0 <= i < 5 && #[trigger] CANONICAL_MODULE_KEYS@[i]@ == key,
        forall|i: int| 0 <= i < 5 ==> entitlement_lookup_allowed(tenant_id, #[trigger] CANONICAL_MODULE_KEYS@[i]@),
{
    reveal_strlit("quotes_core");
    reveal_strlit("inventory_specs");
    reveal_strlit("rate_matrix");
    reveal_strlit("compliance_terms");
    reveal_strlit("revision_lpo");
    let ks = CANONICAL_MODULE_KEYS@;
    assert(ks[0]@ == "quotes_core"@);
    assert(ks[1]@ == "inventory_specs"@);
    assert(ks[2]@ == "rate_matrix"@);
    assert(ks[3]@ == "compliance_terms"@);
    assert(ks[4]@ == "revision_lpo"@);
    if canonical_module_key(key) {
        if key == "quotes_core"@ {
            assert(ks[0]@ == key);
        } else if key == "inventory_specs"@ {
            assert(ks[1]@ == key);
        } else if key == "rate_matrix"@ {
            assert(ks[2]@ == key);
        } else if key == "compliance_terms"@ {
            assert(ks[3]@ == key);
        } else {
            assert(ks[4]@ == key);
        }
    }
}

} // verus!
