//! Merchant backend authentication tokens with secret redaction.

use crate::text::{self, strip_prefix_str};
use vstd::prelude::*;

verus! {

/// Prefix of the `Authorization` header scheme for merchant tokens.
pub open spec fn secret_token_prefix() -> Seq<char> {
    "secret-token:"@
}

/// Token material kept for a raw env/CLI value: the value without a leading
/// `secret-token:`.
pub open spec fn normalized_token(raw: Seq<char>) -> Seq<char> {
    if text::starts_with(raw, secret_token_prefix()) {
        raw.skip(secret_token_prefix().len() as int)
    } else {
        raw
    }
}

/// Law: the `secret-token:` prefix is optional — a value with the prefix
/// gives the same token as the same value without it, whenever that value
/// does not itself start with the prefix.
pub proof fn law_prefix_is_optional(x: Seq<char>)
    requires
        !text::starts_with(x, secret_token_prefix()),
    ensures
        normalized_token(secret_token_prefix() + x) == normalized_token(x),
{
    reveal_strlit("secret-token:");
    let p = secret_token_prefix();
    assert((p + x).take(p.len() as int) =~= p);
    assert((p + x).skip(p.len() as int) =~= x);
}

/// Text that stands for a secret wherever it would be shown.
pub open spec fn redacted_text() -> Seq<char> {
    "[REDACTED]"@
}

/// Empties a string through the `zeroize` crate, overwriting its bytes.
///
/// Calls `<String as zeroize::Zeroize>::zeroize`; the contract claims that the
/// string is empty afterwards (the crate zeroes the buffer, then clears it).
#[verifier::external_body]
fn wipe_string(s: &mut String)
    ensures
        final(s)@ == Seq::<char>::empty(),
{
    zeroize::Zeroize::zeroize(s);
}

/// Access token for private Merchant Backend endpoints.
///
/// The secret never appears in its displayed or debug forms; it can be
/// wiped with [`SecretToken::zeroize`]. Dropping a token does not wipe its
/// memory: call `zeroize` when it is no longer needed.
pub struct SecretToken {
    /// Raw token material after optional `secret-token:` normalization.
    inner: String,
}

impl View for SecretToken {
    type V = Seq<char>;

    /// The token material.
    closed spec fn view(&self) -> Seq<char> {
        self.inner@
    }
}

impl SecretToken {
    /// Build from an env/CLI value.
    ///
    /// Accepts either `sandbox` or the full `secret-token:sandbox` form.
    pub fn new(raw: &str) -> (r: Self)
        ensures
            r@ == normalized_token(raw@),
    {
        proof {
            reveal_strlit("secret-token:");
        }
        let inner = match strip_prefix_str(raw, "secret-token:") {
            Some(rest) => String::from_str(rest),
            None => String::from_str(raw),
        };
        SecretToken { inner }
    }

    /// Value for the `Authorization` header (`Bearer secret-token:…`).
    pub fn authorization_header_value(&self) -> (r: String)
        ensures
            r@ == "Bearer "@ + secret_token_prefix() + self@,
    {
        let mut out = String::from_str("Bearer secret-token:");
        out.append(self.inner.as_str());
        proof {
            reveal_strlit("Bearer secret-token:");
            reveal_strlit("Bearer ");
            reveal_strlit("secret-token:");
            assert("Bearer secret-token:"@ =~= "Bearer "@ + secret_token_prefix());
        }
        out
    }

    /// Returns true if no token material was provided.
    pub fn is_empty(&self) -> (b: bool)
        ensures
            b == (self@.len() == 0),
    {
        self.inner.as_str().unicode_len() == 0
    }

    /// Displayed form: always `[REDACTED]`.
    pub fn to_string(&self) -> (r: String)
        ensures
            r@ == redacted_text(),
    {
        String::from_str("[REDACTED]")
    }

    /// Debug form: always `SecretToken([REDACTED])`.
    pub fn to_debug_string(&self) -> (r: String)
        ensures
            r@ == "SecretToken([REDACTED])"@,
    {
        String::from_str("SecretToken([REDACTED])")
    }

    /// Overwrite the token material; the token is empty afterwards.
    pub fn zeroize(&mut self)
        ensures
            final(self)@ == Seq::<char>::empty(),
    {
        wipe_string(&mut self.inner);
    }
}

impl Clone for SecretToken {
    fn clone(&self) -> (r: Self)
        ensures
            r@ == self@,
    {
        SecretToken { inner: self.inner.clone() }
    }
}

impl PartialEq for SecretToken {
    fn eq(&self, other: &Self) -> (r: bool) {
        // Equality helper for tests/config — not a cryptographic compare API.
        self.inner == other.inner
    }
}

impl vstd::std_specs::cmp::PartialEqSpecImpl for SecretToken {
    open spec fn obeys_eq_spec() -> bool {
        true
    }

    open spec fn eq_spec(&self, other: &Self) -> bool {
        self@ == other@
    }
}

impl Eq for SecretToken {
}

/// Optional claim token returned when creating an order with `create_token: true`.
///
/// Its displayed and debug forms always redact the secret; use
/// [`ClaimToken::as_str`] to intentionally read it (pay URI, durable store).
/// Dropping a claim token does not wipe its memory: call
/// [`ClaimToken::zeroize`] when it is no longer needed.
#[derive(PartialEq, Eq)]
pub struct ClaimToken(String);

impl View for ClaimToken {
    type V = Seq<char>;

    /// The claim token text.
    closed spec fn view(&self) -> Seq<char> {
        self.0@
    }
}

impl ClaimToken {
    /// Wrap a claim token string from the API.
    pub fn new(value: &str) -> (r: Self)
        ensures
            r@ == value@,
    {
        ClaimToken(String::from_str(value))
    }

    /// Borrow the raw claim token for intentional use (pay URI / durable store).
    ///
    /// **Do not** log this value.
    pub fn as_str(&self) -> (r: &str)
        ensures
            r@ == self@,
    {
        self.0.as_str()
    }

    /// Displayed form: always `[REDACTED]`.
    pub fn to_string(&self) -> (r: String)
        ensures
            r@ == redacted_text(),
    {
        String::from_str("[REDACTED]")
    }

    /// Debug form: always `ClaimToken([REDACTED])`.
    pub fn to_debug_string(&self) -> (r: String)
        ensures
            r@ == "ClaimToken([REDACTED])"@,
    {
        String::from_str("ClaimToken([REDACTED])")
    }

    /// Text a claim token is serialized as: `[REDACTED]`, never the secret.
    pub fn serialized_text(&self) -> (r: String)
        ensures
            r@ == redacted_text(),
    {
        String::from_str("[REDACTED]")
    }

    /// Overwrite the claim token; it is empty afterwards.
    pub fn zeroize(&mut self)
        ensures
            final(self)@ == Seq::<char>::empty(),
    {
        wipe_string(&mut self.0);
    }
}

impl Clone for ClaimToken {
    fn clone(&self) -> (r: Self)
        ensures
            r@ == self@,
    {
        ClaimToken(self.0.clone())
    }
}

} // verus!
