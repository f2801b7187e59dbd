//! Unguessable order ID helpers (privacy default).

use crate::error::MerchantError;
use crate::text::{self, push_char, trim_str, all_ascii_digits, utf8_len_below};
use vstd::prelude::*;

verus! {

/// Minimum encoded length accepted when `create_token` is false.
///
/// Shorter IDs are treated as enumerable unless a claim token is used.
pub const MIN_UNGUESSABLE_ORDER_ID_LEN: usize = 22;

/// Number of random bytes in a generated order id (128 bits).
pub const ORDER_ID_ENTROPY_BYTES: usize = 16;

/// `0-9`, `a-f` or `A-F`.
pub open spec fn is_hex_char(c: char) -> bool {
    ('0' <= c && c <= '9') || ('a' <= c && c <= 'f') || ('A' <= c && c <= 'F')
}

/// Characters allowed in a custom unguessable id: `A-Za-z0-9._-`.
pub open spec fn is_id_char(c: char) -> bool {
    text::is_ascii_alpha(c) || text::is_ascii_digit(c) || c == '.' || c == '_' || c == '-'
}

/// Canonical generator output: `o-` followed by 32 hex digits.
pub open spec fn is_canonical_id(id: Seq<char>) -> bool {
    &&& text::starts_with(id, "o-"@)
    &&& id.len() == 34
    &&& forall|i: int| 2 <= i < id.len() ==> is_hex_char(#[trigger] id[i])
}

/// Lowercase hex digit of a nibble.
pub open spec fn hex_digit(n: u8) -> char {
    "0123456789abcdef"@[n as int]
}

/// Two lowercase hex digits per byte.
pub open spec fn hex_text(bytes: Seq<u8>) -> Seq<char>
    decreases bytes.len(),
{
    if bytes.len() == 0 {
        Seq::empty()
    } else {
        hex_text(bytes.drop_last()) + seq![hex_digit(bytes.last() / 16), hex_digit(bytes.last() % 16)]
    }
}

/// Order id made from random bytes: `o-` followed by their hex digits.
pub open spec fn generated_id_text(bytes: Seq<u8>) -> Seq<char> {
    "o-"@ + hex_text(bytes)
}

/// Reason for an empty id.
pub open spec fn reason_empty() -> Seq<char> {
    "order_id must not be empty"@
}

/// Reason for a short id.
pub open spec fn reason_short() -> Seq<char> {
    "order_id too short for create_token=false (need ≥22 chars or o-+32 hex)"@
}

/// Reason for an all-digit id.
pub open spec fn reason_numeric() -> Seq<char> {
    "purely numeric order_id is enumerable"@
}

/// Reason for an id with other characters.
pub open spec fn reason_charset() -> Seq<char> {
    "order_id contains characters outside [A-Za-z0-9._-]"@
}

/// Why an order id is refused with `create_token: false` (rules checked in
/// order on the trimmed id), or `None` when it is accepted.
pub open spec fn weak_order_id_reason(raw: Seq<char>) -> Option<Seq<char>> {
    let id = text::trim(raw);
    if id.len() == 0 {
        Some(reason_empty())
    } else if is_canonical_id(id) {
        None
    } else if text::utf8_len(id) < MIN_UNGUESSABLE_ORDER_ID_LEN {
        Some(reason_short())
    } else if text::all_digits(id) {
        Some(reason_numeric())
    } else if !(forall|i: int| 0 <= i < id.len() ==> is_id_char(#[trigger] id[i])) {
        Some(reason_charset())
    } else {
        None
    }
}

/// The id reported in a refusal: the input itself when it is blank, else the
/// trimmed id.
pub open spec fn weak_order_id_report(raw: Seq<char>) -> Seq<char> {
    if text::trim(raw).len() == 0 {
        raw
    } else {
        text::trim(raw)
    }
}

/// Fills a fresh buffer of `len` bytes from the operating system's random
/// source (`getrandom::getrandom`).
///
/// The contract claims only the length of the buffer on success; the bytes and
/// the failure text (the error's display form) are whatever the OS gave.
#[verifier::external_body]
fn random_bytes(len: usize) -> (r: Result<Vec<u8>, String>)
    ensures
        r matches Ok(v) ==> v@.len() == len,
{
    let mut v = vec![0u8; len];
    getrandom::getrandom(&mut v).map(|()| v).map_err(|e| e.to_string())
}

fn hex_digit_of(n: u8) -> (c: char)
    requires
        n < 16,
    ensures
        c == hex_digit(n),
{
    proof {
        reveal_strlit("0123456789abcdef");
    }
    "0123456789abcdef".get_char(n as usize)
}

/// The order id for the given random bytes: `o-` followed by their lowercase
/// hex digits. For 16 bytes it is always accepted with `create_token: false`.
pub fn order_id_from_bytes(bytes: &[u8]) -> (r: String)
    ensures
        r@ == generated_id_text(bytes@),
        bytes@.len() == ORDER_ID_ENTROPY_BYTES ==> weak_order_id_reason(r@) is None,
{
    let mut out = String::from_str("o-");
    let n = bytes.len();
    let mut i: usize = 0;
    while i < n
        invariant
            n == bytes@.len(),
            i <= n,
            out@ == "o-"@ + hex_text(bytes@.take(i as int)),
        decreases n - i,
    {
        let b = bytes[i];
        push_char(&mut out, hex_digit_of(b / 16));
        push_char(&mut out, hex_digit_of(b % 16));
        proof {
            assert(bytes@.take(i + 1).drop_last() =~= bytes@.take(i as int));
            assert(out@ =~= "o-"@ + hex_text(bytes@.take(i + 1)));
        }
        i = i + 1;
    }
    assert(bytes@.take(n as int) =~= bytes@);
    proof {
        if bytes@.len() == ORDER_ID_ENTROPY_BYTES {
            law_generated_ids_are_unguessable(bytes@);
        }
    }
    out
}

/// Start of the message of the configuration error for a failed random source.
pub open spec fn entropy_failure_prefix() -> Seq<char> {
    "failed to generate order id entropy: "@
}

/// A configuration error whose message is [`entropy_failure_prefix`]
/// followed by the random source's error text.
pub open spec fn is_entropy_failure(e: MerchantError) -> bool {
    exists|t: Seq<char>| #[trigger] (entropy_failure_prefix() + t) == e->Config_0@ && e is Config
}

/// Generate a high-entropy order ID suitable for public-ish references.
///
/// Format: `o-` + 32 hex chars (128 bits of randomness). Fails only when the
/// operating system's random source fails.
pub fn generate_order_id() -> (r: Result<String, MerchantError>)
    ensures
        match r {
            Ok(id) => exists|bytes: Seq<u8>|
                bytes.len() == ORDER_ID_ENTROPY_BYTES && id@ == generated_id_text(bytes),
            Err(e) => is_entropy_failure(e),
        },
        r matches Ok(id) ==> weak_order_id_reason(id@) is None,
{
    match random_bytes(ORDER_ID_ENTROPY_BYTES) {
        Ok(bytes) => {
            let id = order_id_from_bytes(bytes.as_slice());
            Ok(id)
        },
        Err(msg) => {
            let mut text = String::from_str("failed to generate order id entropy: ");
            text.append(msg.as_str());
            let e = MerchantError::Config(text);
            assert(entropy_failure_prefix() + msg@ == e->Config_0@);
            Err(e)
        },
    }
}

/// Returns true if `order_id` is acceptable when claim tokens are disabled.
///
/// Accepted forms:
/// - Canonical generator output: `o-` + 32 lowercase/uppercase hex digits
/// - Any id with length ≥ [`MIN_UNGUESSABLE_ORDER_ID_LEN`] using only
///   `A-Za-z0-9._-`, and not purely numeric
pub fn is_unguessable_order_id(order_id: &str) -> (b: bool)
    ensures
        b == (weak_order_id_reason(order_id@) is None),
{
    validate_unguessable_order_id(order_id).is_ok()
}

/// Validate an order id for use with `create_token: false`.
pub fn validate_unguessable_order_id(order_id: &str) -> (r: Result<(), MerchantError>)
    ensures
        r is Ok <==> weak_order_id_reason(order_id@) is None,
        r matches Err(e) ==> (e matches MerchantError::WeakOrderId { order_id: id, reason }
            && Some(reason@) == weak_order_id_reason(order_id@)
            && id@ == weak_order_id_report(order_id@)),
{
    let id = trim_str(order_id);
    if id.unicode_len() == 0 {
        return Err(
            MerchantError::WeakOrderId {
                order_id: String::from_str(order_id),
                reason: "order_id must not be empty",
            },
        );
    }
    if is_canonical_generated_id(id) {
        return Ok(());
    }
    if utf8_len_below(id, MIN_UNGUESSABLE_ORDER_ID_LEN) {
        return Err(
            MerchantError::WeakOrderId {
                order_id: String::from_str(id),
                reason: "order_id too short for create_token=false (need ≥22 chars or o-+32 hex)",
            },
        );
    }
    if all_ascii_digits(id) {
        return Err(
            MerchantError::WeakOrderId {
                order_id: String::from_str(id),
                reason: "purely numeric order_id is enumerable",
            },
        );
    }
    if !all_id_chars(id) {
        return Err(
            MerchantError::WeakOrderId {
                order_id: String::from_str(id),
                reason: "order_id contains characters outside [A-Za-z0-9._-]",
            },
        );
    }
    Ok(())
}

fn all_id_chars(s: &str) -> (b: bool)
    ensures
        b == forall|i: int| 0 <= i < s@.len() ==> is_id_char(#[trigger] s@[i]),
{
    let n = s.unicode_len();
    let mut i: usize = 0;
    while i < n
        invariant
            n == s@.len(),
            i <= n,
            forall|k: int| 0 <= k < i ==> is_id_char(#[trigger] s@[k]),
        decreases n - i,
    {
        let c = s.get_char(i);
        if !(('a' <= c && c <= 'z') || ('A' <= c && c <= 'Z') || ('0' <= c && c <= '9') || c == '.'
            || c == '_' || c == '-') {
            return false;
        }
        i = i + 1;
    }
    true
}

fn is_canonical_generated_id(id: &str) -> (b: bool)
    ensures
        b == is_canonical_id(id@),
{
    proof {
        reveal_strlit("o-");
    }
    match text::strip_prefix_str(id, "o-") {
        None => false,
        Some(rest) => {
            if rest.unicode_len() != 32 {
                return false;
            }
            let n: usize = 32;
            let mut i: usize = 0;
            while i < n
                invariant
                    n == rest@.len(),
                    rest@ == id@.skip(2),
                    id@.len() == 34,
                    i <= n,
                    forall|k: int| 2 <= k < 2 + i ==> is_hex_char(#[trigger] id@[k]),
                decreases n - i,
            {
                let c = rest.get_char(i);
                assert(c == id@[i + 2]);
                if !(('0' <= c && c <= '9') || ('a' <= c && c <= 'f') || ('A' <= c && c <= 'F')) {
                    return false;
                }
                i = i + 1;
            }
            true
        },
    }
}

proof fn lemma_hex_text(bytes: Seq<u8>)
    ensures
        hex_text(bytes).len() == 2 * bytes.len(),
        forall|i: int| 0 <= i < hex_text(bytes).len() ==> is_hex_char(#[trigger] hex_text(bytes)[i]),
    decreases bytes.len(),
{
    reveal_strlit("0123456789abcdef");
    if bytes.len() > 0 {
        lemma_hex_text(bytes.drop_last());
        let h = hex_text(bytes.drop_last());
        let t = hex_text(bytes);
        assert(t == h + seq![hex_digit(bytes.last() / 16), hex_digit(bytes.last() % 16)]);
        assert forall|i: int| 0 <= i < t.len() implies is_hex_char(#[trigger] t[i]) by {
            if i < h.len() {
                assert(t[i] == h[i]);
            }
        }
    }
}

/// Law: every id built from 16 random bytes is accepted as unguessable
/// (auto-generated ids always pass validation).
pub proof fn law_generated_ids_are_unguessable(bytes: Seq<u8>)
    requires
        bytes.len() == ORDER_ID_ENTROPY_BYTES,
    ensures
        is_canonical_id(generated_id_text(bytes)),
        weak_order_id_reason(generated_id_text(bytes)) is None,
{
    reveal_strlit("o-");
    let id = generated_id_text(bytes);
    lemma_hex_text(bytes);
    assert(id.take(2) =~= "o-"@);
    assert forall|i: int| 2 <= i < id.len() implies is_hex_char(#[trigger] id[i]) by {
        assert(id[i] == hex_text(bytes)[i - 2]);
    }
    assert forall|i: int| 0 <= i < id.len() implies !text::is_ws(#[trigger] id[i]) by {
        if i >= 2 {
            assert(id[i] == hex_text(bytes)[i - 2]);
            assert(is_hex_char(id[i]));
        }
    }
    text::lemma_trim_no_ws(id);
}

proof fn lemma_ascii_utf8_len(s: Seq<char>)
    requires
        forall|k: int| 0 <= k < s.len() ==> (#[trigger] s[k] as u32) < 0x80,
    ensures
        text::utf8_len(s) == s.len(),
    decreases s.len(),
{
    if s.len() > 0 {
        assert((s.last() as u32) < 0x80);
        assert forall|k: int| 0 <= k < s.drop_last().len() implies (#[trigger] s.drop_last()[k] as u32) < 0x80 by {
            assert(s.drop_last()[k] == s[k]);
        }
        lemma_ascii_utf8_len(s.drop_last());
    }
}

/// Law: a custom order id is accepted with `create_token: false` when, after
/// trimming, it has at least 22 characters, every one of them in
/// `A-Z a-z 0-9 . _ -`, and at least one of them is not a digit.
pub proof fn law_custom_ids_accepted(raw: Seq<char>)
    requires
        text::trim(raw).len() >= 22,
        forall|k: int| 0 <= k < text::trim(raw).len() ==> {
            let c = #[trigger] text::trim(raw)[k];
            ||| 'A' <= c && c <= 'Z'
            ||| 'a' <= c && c <= 'z'
            ||| '0' <= c && c <= '9'
            ||| c == '.' || c == '_' || c == '-'
        },
        exists|k: int| 0 <= k < text::trim(raw).len() && !('0' <= #[trigger] text::trim(raw)[k] && text::trim(raw)[k] <= '9'),
    ensures
        weak_order_id_reason(raw) is None,
{
    let id = text::trim(raw);
    assert forall|k: int| 0 <= k < id.len() implies (#[trigger] id[k] as u32) < 0x80 by {
        let c = id[k];
        assert(('A' <= c && c <= 'Z') || ('a' <= c && c <= 'z') || ('0' <= c && c <= '9') || c == '.'
            || c == '_' || c == '-');
    }
    lemma_ascii_utf8_len(id);
    let w = choose|k: int| 0 <= k < id.len() && !('0' <= #[trigger] id[k] && id[k] <= '9');
    assert(!text::is_ascii_digit(id[w]));
    assert forall|k: int| 0 <= k < id.len() implies is_id_char(#[trigger] id[k]) by {
        let c = id[k];
        assert(('A' <= c && c <= 'Z') || ('a' <= c && c <= 'z') || ('0' <= c && c <= '9') || c == '.'
            || c == '_' || c == '-');
    }
}

} // verus!
