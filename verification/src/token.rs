use vstd::prelude::*;
use vstd::string::*;

use crate::base64url::{base64url_decode, spec_b64_decoded};
use crate::error::TokenError;

verus! {

/// Whether positions `p1 < p2` are the only two dots of `s`, so that `s`
/// splits into exactly three dot-separated sections.
pub open spec fn spec_dot_split(s: Seq<char>, p1: int, p2: int) -> bool {
    &&& 0 <= p1 < p2 < s.len()
    &&& s[p1] == '.'
    &&& s[p2] == '.'
    &&& forall|k: int| 0 <= k < s.len() && k != p1 && k != p2 ==> s[k] != '.'
}

/// The middle section of a three-section token: the characters between its
/// only two dots, or nothing where the token is not of that shape.
pub open spec fn spec_payload(s: Seq<char>) -> Option<Seq<char>> {
    if exists|p1: int, p2: int| spec_dot_split(s, p1, p2) {
        let (p1, p2) = choose|p1: int, p2: int| spec_dot_split(s, p1, p2);
        Option::Some(s.subrange(p1 + 1, p2))
    } else {
        Option::None
    }
}

/// A token splits on its two dots in only one way.
proof fn lemma_dot_split_unique(s: Seq<char>, p1: int, p2: int, q1: int, q2: int)
    requires
        spec_dot_split(s, p1, p2),
        spec_dot_split(s, q1, q2),
    ensures
        p1 == q1,
        p2 == q2,
{
}

/// The encoded claims section of a bearer token: the text between the only
/// two dots of the raw token.
pub struct EncodedTokenMeta<'a>(&'a str);

impl<'a> View for EncodedTokenMeta<'a> {
    type V = Seq<char>;

    closed spec fn view(&self) -> Seq<char> {
        self.0@
    }
}

impl<'a> EncodedTokenMeta<'a> {
    /// Splits the raw token on its dots; only a token of exactly three
    /// sections has an encoded claims section.
    pub fn try_from_token(token: &'a str) -> (r: Result<EncodedTokenMeta<'a>, TokenError>)
        ensures
            match r {
                Result::Ok(m) => spec_payload(token@) == Option::Some(m@),
                Result::Err(e) => e == TokenError::Malformed && spec_payload(token@) is None,
            },
    {
        let n = token.unicode_len();
        let mut d1: usize = 0;
        let mut have1 = false;
        let mut d2: usize = 0;
        let mut have2 = false;
        let mut extra = false;
        let mut i: usize = 0;
        while i < n
            invariant
                n == token@.len(),
                0 <= i <= n,
                !have1 ==> !have2 && !extra && forall|k: int| 0 <= k < i ==> token@[k] != '.',
                have1 ==> d1 < i && token@[d1 as int] == '.',
                have1 && !have2 ==> !extra && forall|k: int|
                    0 <= k < i && k != d1 ==> token@[k] != '.',
                have2 ==> have1 && d1 < d2 < i && token@[d2 as int] == '.',
                have2 && !extra ==> forall|k: int|
                    0 <= k < i && k != d1 && k != d2 ==> token@[k] != '.',
                extra ==> have2 && exists|k: int| d2 < k < i && token@[k] == '.',
            decreases n - i,
        {
            let c = token.get_char(i);
            if c == '.' {
                if !have1 {
                    d1 = i;
                    have1 = true;
                } else if !have2 {
                    d2 = i;
                    have2 = true;
                } else {
                    extra = true;
                }
            }
            i += 1;
        }
        if have1 && have2 && !extra {
            proof {
                assert(spec_dot_split(token@, d1 as int, d2 as int));
                let (q1, q2) = choose|q1: int, q2: int| spec_dot_split(token@, q1, q2);
                lemma_dot_split_unique(token@, d1 as int, d2 as int, q1, q2);
            }
            let payload = token.substring_char(d1 + 1, d2);
            Result::Ok(EncodedTokenMeta(payload))
        } else {
            proof {
                if exists|q1: int, q2: int| spec_dot_split(token@, q1, q2) {
                    let (q1, q2) = choose|q1: int, q2: int| spec_dot_split(token@, q1, q2);
                    assert(token@[q1] == '.');
                    assert(token@[q2] == '.');
                    if extra {
                        let w = choose|k: int| d2 < k < n && token@[k] == '.';
                        assert(d1 == q1 || d1 == q2);
                        assert(d2 == q1 || d2 == q2);
                        assert(w == q1 || w == q2);
                    }
                }
            }
            Result::Err(TokenError::Malformed)
        }
    }

    /// The encoded claims section as owned text.
    pub fn expiration(&self) -> (r: String)
        ensures
            r@ == self@,
    {
        self.0.to_owned()
    }
}

/// The integer `exp` claim of the JSON document in `bytes`, where the bytes
/// parse as a JSON object with such a member. The expiry is all this library
/// consumes of the claims, so the other members the issuer embeds (issuer,
/// audience, and the rest) are deliberately not validated here.
pub uninterp spec fn json_exp_of(bytes: Seq<u8>) -> Option<i64>;

/// Relies on `serde_json` (re-exported by ureq): `from_slice` parses bytes
/// into a JSON value, `Value::get` looks the `exp` member up, and
/// `Value::as_i64` reads it as a 64-bit integer. What is read depends on the
/// bytes alone.
#[verifier::external_body]
fn json_exp_claim(bytes: &Vec<u8>) -> (r: Option<i64>)
    ensures
        r == json_exp_of(bytes@),
{
    match ureq::serde_json::from_slice::<ureq::serde_json::Value>(bytes.as_slice()) {
        Ok(value) => match value.get("exp") {
            Some(member) => member.as_i64(),
            None => None,
        },
        Err(_) => None,
    }
}

/// What decoding a raw token comes to: the middle section must exist, it
/// must be URL-safe base64, and its bytes must hold an integer `exp` claim.
pub open spec fn spec_expiration(token: Seq<char>) -> Result<i64, TokenError> {
    match spec_payload(token) {
        Option::None => Result::Err(TokenError::Malformed),
        Option::Some(payload) => match spec_b64_decoded(payload) {
            Option::None => Result::Err(TokenError::Base64),
            Option::Some(bytes) => match json_exp_of(bytes) {
                Option::None => Result::Err(TokenError::Claims),
                Option::Some(exp) => Result::Ok(exp),
            },
        },
    }
}

/// Reads the expiry timestamp out of a raw bearer token: the token's middle
/// section, base64-decoded, must hold a JSON object with an integer `exp`.
/// Only that member is read; a token whose other claim members are absent or
/// malformed is still accepted, since the expiry is all that is consumed.
pub fn token_expiration_timestamp(token: &str) -> (r: Result<i64, TokenError>)
    ensures
        r == spec_expiration(token@),
{
    let meta = match EncodedTokenMeta::try_from_token(token) {
        Result::Ok(m) => m,
        Result::Err(e) => {
            return Result::Err(e);
        },
    };
    let payload = meta.expiration();
    let bytes = match base64url_decode(payload.as_str()) {
        Option::Some(b) => b,
        Option::None => {
            return Result::Err(TokenError::Base64);
        },
    };
    match json_exp_claim(&bytes) {
        Option::Some(exp) => Result::Ok(exp),
        Option::None => Result::Err(TokenError::Claims),
    }
}

/// Whether a credential can still be presented.
pub trait TokenExpired {
    /// The expiry timestamp the credential carries, or `None` where there is
    /// no credential at all.
    spec fn spec_expiry(&self) -> Option<i64>;

    /// Whether the credential is expired. A missing credential always is;
    /// one carrying the largest possible expiry never is, whatever the
    /// clock reads.
    fn token_expired(&self) -> (r: bool)
        ensures
            self.spec_expiry() is None ==> r,
            (self.spec_expiry() matches Some(e) && e == i64::MAX) ==> !r,
    ;
}

/// Whether a token expiring at `expired` is unusable at clock time `now`:
/// expired once less than two seconds of validity remain.
pub open spec fn spec_expired_at(expired: i64, now: i64) -> bool {
    expired < now + 2
}

/// Compares an expiry timestamp against a clock reading.
pub fn expired_at(expired: i64, now: i64) -> (r: bool)
    ensures
        r == spec_expired_at(expired, now),
{
    (expired as i128) < (now as i128) + 2
}

/// Relies on `chrono::Utc::now`: the current time, as whole seconds since
/// the Unix epoch. Which moment it returns depends on the clock; only the
/// range is promised: chrono dates span the years -262144 to 262142, so the
/// timestamp of any `DateTime` stays far inside ten trillion seconds of the
/// epoch.
#[verifier::external_body]
fn current_unix_timestamp() -> (r: i64)
    ensures
        -10_000_000_000_000 < r < 10_000_000_000_000,
{
    chrono::Utc::now().timestamp()
}

/// The raw text of the demonstration token.
pub open spec fn spec_demo_token() -> Seq<char> {
    "eyJhbGciOiJub25lIiwidHlwIjoiSldUIn0.eyJleHAiOjkyMjMzNzIwMzY4NTQ3NzU4MDd9.demo"@
}

/// A bearer token as the API issues it: the raw text together with the
/// expiry timestamp embedded in its claims.
pub struct Token {
    raw: String,
    expired: i64,
}

impl Token {
    /// The raw token text.
    pub closed spec fn spec_raw(&self) -> Seq<char> {
        self.raw@
    }

    /// The expiry timestamp the token carries.
    pub closed spec fn spec_expired(&self) -> i64 {
        self.expired
    }

    /// A demonstration token that never expires.
    pub fn demo() -> (t: Token)
        ensures
            t.spec_raw() == spec_demo_token(),
            t.spec_expired() == i64::MAX,
    {
        Token {
            raw: String::from_str(
                "eyJhbGciOiJub25lIiwidHlwIjoiSldUIn0.eyJleHAiOjkyMjMzNzIwMzY4NTQ3NzU4MDd9.demo",
            ),
            expired: i64::MAX,
        }
    }

    /// A token from its parts, for callers that already know the expiry.
    pub fn from_parts(raw: String, expired: i64) -> (t: Token)
        ensures
            t.spec_raw() == raw@,
            t.spec_expired() == expired,
    {
        Token { raw, expired }
    }

    /// Decodes a raw token, keeping the text and its embedded expiry.
    pub fn try_from_raw(raw: String) -> (r: Result<Token, TokenError>)
        ensures
            match r {
                Result::Ok(t) => t.spec_raw() == raw@ && spec_expiration(raw@) == Result::<
                    i64,
                    TokenError,
                >::Ok(t.spec_expired()),
                Result::Err(e) => spec_expiration(raw@) == Result::<i64, TokenError>::Err(e),
            },
    {
        match token_expiration_timestamp(raw.as_str()) {
            Result::Ok(expired) => Result::Ok(Token { raw, expired }),
            Result::Err(e) => Result::Err(e),
        }
    }

    /// Reads a raw token to the end of the source and decodes it.
    pub fn try_from_reader<R: std::io::Read>(reader: R) -> (r: Result<Token, TokenError>)
        ensures
            r matches Result::Ok(t) ==> spec_expiration(t.spec_raw()) == Result::<
                i64,
                TokenError,
            >::Ok(t.spec_expired()),
    {
        match read_to_string(reader) {
            Result::Ok(s) => Token::try_from_raw(s),
            Result::Err(e) => Result::Err(e),
        }
    }

    /// Writes the raw token text to the given sink; whether that succeeds is
    /// up to the sink.
    pub fn try_to_write<W: std::io::Write>(&self, writer: W) -> (r: Result<(), TokenError>)
        ensures
            r matches Result::Err(e) ==> e == TokenError::Io,
    {
        write_all_text(writer, self.raw.as_str())
    }

    /// The raw token text.
    pub fn raw(&self) -> (r: &str)
        ensures
            r@ == self.spec_raw(),
    {
        self.raw.as_str()
    }
}

/// Relies on `std::io::Read::read_to_string`: reads the whole source as
/// UTF-8 text. What is read is up to the source; a failure is always
/// reported as `Io`.
#[verifier::external_body]
fn read_to_string<R: std::io::Read>(mut reader: R) -> (r: Result<String, TokenError>)
    ensures
        r matches Result::Err(e) ==> e == TokenError::Io,
{
    let mut s = String::new();
    match reader.read_to_string(&mut s) {
        Ok(_) => Ok(s),
        Err(_) => Err(TokenError::Io),
    }
}

/// Relies on `std::io::Write::write_all`: writes the whole buffer or reports
/// the first error. Whether the sink accepts it is up to the sink; a failure
/// is always reported as `Io`.
#[verifier::external_body]
fn write_all_text<W: std::io::Write>(mut writer: W, text: &str) -> (r: Result<(), TokenError>)
    ensures
        r matches Result::Err(e) ==> e == TokenError::Io,
{
    match writer.write_all(text.as_bytes()) {
        Ok(()) => Ok(()),
        Err(_) => Err(TokenError::Io),
    }
}

impl TokenExpired for Token {
    open spec fn spec_expiry(&self) -> Option<i64> {
        Option::Some(self.spec_expired())
    }

    /// Expired once the embedded expiry is less than two seconds from now.
    fn token_expired(&self) -> (r: bool) {
        expired_at(self.expired, current_unix_timestamp())
    }
}

impl TokenExpired for Option<Token> {
    open spec fn spec_expiry(&self) -> Option<i64> {
        match self {
            Option::Some(token) => Option::Some(token.spec_expired()),
            Option::None => Option::None,
        }
    }

    /// A missing token counts as expired; a present one answers for itself.
    fn token_expired(&self) -> (r: bool) {
        match self {
            Option::Some(token) => token.token_expired(),
            Option::None => true,
        }
    }
}

/// The body of the API's authentication response, carrying the raw token.
pub struct TokenResponse {
    pub token: String,
}

} // verus!
