//! The logic of the Merchant Backend client that does not touch the network:
//! configuration checks, URL building and percent-encoding, preparation of
//! order bodies, classification of HTTP answers and the `create_order`
//! outcome.

use crate::auth::{self, SecretToken};
use crate::error::{self, MerchantError};
use crate::order_id::{self, generate_order_id, validate_unguessable_order_id};
use crate::text::{self, debug_quote, push_char, str_eq, trim_str, u64_text};
use crate::types::{
    self, CreateOrderRequest, CreateOrderResponse, MerchantOrderStatus, PostOrderRequest,
    PostOrderResponse, StatusQuery,
};
use std::time::Duration;
use vstd::prelude::*;

verus! {

/// Default HTTP timeout of a client, in seconds.
pub const DEFAULT_TIMEOUT_SECS: u64 = 30;

/// The parts of a parsed URL that the checks read.
pub struct UrlParts {
    /// URL scheme, lowercase (`https`, `http`, …).
    pub scheme: String,
    /// Host as text, if the URL has one (an IPv6 address in brackets, `[::1]`).
    pub host: Option<String>,
    /// Whether the URL cannot be a base (`mailto:`, `javascript:` …).
    pub cannot_be_a_base: bool,
}

/// What `url::Url::parse` makes of a text: scheme, host and
/// cannot-be-a-base flag on success, the error's message on failure.
pub uninterp spec fn url_parse_outcome(raw: Seq<char>) -> Result<
    (Seq<char>, Option<Seq<char>>, bool),
    Seq<char>,
>;

/// Parses a URL with `url::Url::parse` and reads `scheme()`, `host_str()` and
/// `cannot_be_a_base()` of the result; a failure gives the error's message.
///
/// The contract claims that the outcome is a function of `raw` alone, named
/// [`url_parse_outcome`]; URL syntax itself is not stated.
#[verifier::external_body]
fn parse_url(raw: &str) -> (r: Result<UrlParts, String>)
    ensures
        match r {
            Ok(p) => url_parse_outcome(raw@) == Ok::<_, Seq<char>>(
                (p.scheme@, text::opt_view(p.host), p.cannot_be_a_base),
            ),
            Err(m) => url_parse_outcome(raw@) == Err::<(Seq<char>, Option<Seq<char>>, bool), _>(
                m@,
            ),
        },
{
    match url::Url::parse(raw) {
        Ok(u) => Ok(
            UrlParts {
                scheme: u.scheme().to_string(),
                host: u.host_str().map(|h| h.to_string()),
                cannot_be_a_base: u.cannot_be_a_base(),
            },
        ),
        Err(e) => Err(e.to_string()),
    }
}

/// The duration `std::time::Duration::from_secs(secs)` gives.
pub uninterp spec fn duration_of_secs(secs: u64) -> Duration;

/// `std::time::Duration::from_secs`; the contract names its result
/// [`duration_of_secs`].
#[verifier::external_body]
fn duration_from_secs(secs: u64) -> (d: Duration)
    ensures
        d == duration_of_secs(secs),
{
    Duration::from_secs(secs)
}

/// No host, or an empty one.
pub open spec fn host_missing(host: Option<Seq<char>>) -> bool {
    match host {
        Some(h) => h.len() == 0,
        None => true,
    }
}

/// Why a parsed base URL is refused, or `None` when it is accepted: it must
/// have a host and be `https` — or `http` with a loopback host.
pub open spec fn base_url_parts_problem(
    scheme: Seq<char>,
    host: Option<Seq<char>>,
    cannot_be_a_base: bool,
) -> Option<Seq<char>> {
    if cannot_be_a_base || host_missing(host) {
        Some("base_url must include a host (e.g. https://backend.example/instances/sandbox/)"@)
    } else if scheme == "https"@ {
        None
    } else if scheme == "http"@ {
        let h = host.unwrap();
        if h == "127.0.0.1"@ || h == "localhost"@ || h == "[::1]"@ {
            None
        } else {
            Some(
                "http:// base_url only allowed for loopback (127.0.0.1/localhost/::1), got host "@
                    + text::debug_quoted(h),
            )
        }
    } else {
        Some(
            "base_url scheme must be https (or http for loopback tests), got "@
                + text::debug_quoted(scheme),
        )
    }
}

/// Why a base URL is refused, or `None` when it is accepted: after trimming
/// it must parse, and its parts must pass [`base_url_parts_problem`].
pub open spec fn base_url_problem(raw: Seq<char>) -> Option<Seq<char>> {
    let t = text::trim(raw);
    if t.len() == 0 {
        Some("base_url must not be empty"@)
    } else {
        match url_parse_outcome(t) {
            Err(e) => Some("base_url is not a valid URL: "@ + e),
            Ok((scheme, host, cannot_be_a_base)) => base_url_parts_problem(
                scheme,
                host,
                cannot_be_a_base,
            ),
        }
    }
}

/// Law: an accepted base URL parses (after trimming) to an `https` URL with a
/// host, or to an `http` URL whose host is `127.0.0.1`, `localhost` or the
/// IPv6 loopback `::1` (which the URL parser gives in brackets, `[::1]`).
pub proof fn law_accepted_base_urls_are_https_or_loopback(raw: Seq<char>)
    ensures
        base_url_problem(raw) is None ==> {
            &&& url_parse_outcome(text::trim(raw)) is Ok
            &&& !url_parse_outcome(text::trim(raw))->Ok_0.2
            &&& url_parse_outcome(text::trim(raw))->Ok_0.1 matches Some(h)
            &&& h.len() > 0
            &&& {
                let scheme = url_parse_outcome(text::trim(raw))->Ok_0.0;
                ||| scheme == "https"@
                ||| scheme == "http"@ && (h == "127.0.0.1"@ || h == "localhost"@ || h == "[::1]"@)
            }
        },
{
}

/// Why a parsed fulfillment URL is refused, or `None` when it is accepted:
/// it must have a host and an `http`/`https` scheme.
pub open spec fn fulfillment_url_parts_problem(
    scheme: Seq<char>,
    host: Option<Seq<char>>,
    cannot_be_a_base: bool,
) -> Option<Seq<char>> {
    if cannot_be_a_base || host_missing(host) {
        Some("fulfillment_url must be an absolute URL with a host"@)
    } else if scheme == "https"@ || scheme == "http"@ {
        None
    } else {
        Some("fulfillment_url scheme must be http or https, got "@ + text::debug_quoted(scheme))
    }
}

/// Law: a base URL is accepted exactly when, after trimming, it is not empty
/// and parses to a URL that can be a base, with a non-empty host, whose
/// scheme is `https`, or `http` with host `127.0.0.1`, `localhost` or `[::1]`.
/// Nothing else (a path, a trailing slash, a port) is asked of it.
pub proof fn law_base_url_accepted_exactly(raw: Seq<char>)
    ensures
        base_url_problem(raw) is None <==> {
            &&& text::trim(raw).len() > 0
            &&& url_parse_outcome(text::trim(raw)) matches Ok((scheme, Some(h), false))
            &&& h.len() > 0
            &&& (scheme == "https"@ || (scheme == "http"@ && (h == "127.0.0.1"@ || h
                == "localhost"@ || h == "[::1]"@)))
        },
{
}

/// Why a fulfillment URL is refused, or `None` when it is accepted: after
/// trimming it must parse, and its parts must pass
/// [`fulfillment_url_parts_problem`].
pub open spec fn fulfillment_url_problem(raw: Seq<char>) -> Option<Seq<char>> {
    let t = text::trim(raw);
    if t.len() == 0 {
        Some("fulfillment_url must not be empty"@)
    } else {
        match url_parse_outcome(t) {
            Err(e) => Some("fulfillment_url is not a valid URL: "@ + e),
            Ok((scheme, host, cannot_be_a_base)) => fulfillment_url_parts_problem(
                scheme,
                host,
                cannot_be_a_base,
            ),
        }
    }
}

/// Law: a fulfillment URL is accepted exactly when, after trimming, it is not
/// empty and parses to a URL that can be a base, with a non-empty host, whose
/// scheme is `https` or `http`.
pub proof fn law_fulfillment_url_accepted_exactly(raw: Seq<char>)
    ensures
        fulfillment_url_problem(raw) is None <==> {
            &&& text::trim(raw).len() > 0
            &&& url_parse_outcome(text::trim(raw)) matches Ok((scheme, Some(h), false))
            &&& h.len() > 0
            &&& (scheme == "https"@ || scheme == "http"@)
        },
{
}

/// A result that is `Ok` exactly when `problem` is `None`, and otherwise a
/// configuration error with that message.
pub open spec fn config_outcome(r: Result<(), MerchantError>, problem: Option<Seq<char>>) -> bool {
    match problem {
        None => r is Ok,
        Some(m) => r matches Err(MerchantError::Config(msg)) && msg@ == m,
    }
}

fn config_error(msg: &str) -> (r: MerchantError)
    ensures
        r matches MerchantError::Config(m) && m@ == msg@,
{
    MerchantError::Config(String::from_str(msg))
}

fn config_error_with(head: &str, tail: &str) -> (r: MerchantError)
    ensures
        r matches MerchantError::Config(m) && m@ == head@ + tail@,
{
    let mut out = String::from_str(head);
    out.append(tail);
    MerchantError::Config(out)
}

/// Check a base URL: `https://…`, or `http://` only for the loopback hosts
/// `127.0.0.1`, `localhost` and `::1` (written `http://[::1]/…`).
pub fn validate_base_url(raw: &str) -> (r: Result<(), MerchantError>)
    ensures
        config_outcome(r, base_url_problem(raw@)),
{
    let raw = trim_str(raw);
    if raw.unicode_len() == 0 {
        return Err(config_error("base_url must not be empty"));
    }
    let parsed = match parse_url(raw) {
        Ok(p) => p,
        Err(e) => {
            return Err(config_error_with("base_url is not a valid URL: ", e.as_str()));
        },
    };
    check_base_url_parts(&parsed)
}

/// Check the parts of a parsed base URL: a host, and `https` — or `http`
/// with one of the loopback hosts `127.0.0.1`, `localhost`, `[::1]`.
pub fn check_base_url_parts(parts: &UrlParts) -> (r: Result<(), MerchantError>)
    ensures
        config_outcome(
            r,
            base_url_parts_problem(parts.scheme@, text::opt_view(parts.host), parts.cannot_be_a_base),
        ),
{
    let host = match &parts.host {
        Some(h) => {
            if parts.cannot_be_a_base || h.as_str().unicode_len() == 0 {
                return Err(
                    config_error("base_url must include a host (e.g. https://backend.example/instances/sandbox/)"),
                );
            }
            h.as_str()
        },
        None => {
            return Err(
                config_error("base_url must include a host (e.g. https://backend.example/instances/sandbox/)"),
            );
        },
    };
    let scheme = parts.scheme.as_str();
    if str_eq(scheme, "https") {
        Ok(())
    } else if str_eq(scheme, "http") {
        if str_eq(host, "127.0.0.1") || str_eq(host, "localhost") || str_eq(host, "[::1]") {
            Ok(())
        } else {
            let q = debug_quote(host);
            Err(
                config_error_with("http:// base_url only allowed for loopback (127.0.0.1/localhost/::1), got host ", q.as_str()),
            )
        }
    } else {
        let q = debug_quote(scheme);
        Err(
            config_error_with("base_url scheme must be https (or http for loopback tests), got ", q.as_str()),
        )
    }
}

/// Fulfillment URL shown after payment — must be an absolute http(s) URL.
pub fn validate_fulfillment_url(raw: &str) -> (r: Result<(), MerchantError>)
    ensures
        config_outcome(r, fulfillment_url_problem(raw@)),
{
    let raw = trim_str(raw);
    if raw.unicode_len() == 0 {
        return Err(config_error("fulfillment_url must not be empty"));
    }
    let parsed = match parse_url(raw) {
        Ok(p) => p,
        Err(e) => {
            return Err(config_error_with("fulfillment_url is not a valid URL: ", e.as_str()));
        },
    };
    check_fulfillment_url_parts(&parsed)
}

/// Check the parts of a parsed fulfillment URL: a host, and `http` or `https`.
pub fn check_fulfillment_url_parts(parts: &UrlParts) -> (r: Result<(), MerchantError>)
    ensures
        config_outcome(
            r,
            fulfillment_url_parts_problem(parts.scheme@, text::opt_view(parts.host), parts.cannot_be_a_base),
        ),
{
    let host_ok = match &parts.host {
        Some(h) => h.as_str().unicode_len() > 0,
        None => false,
    };
    if parts.cannot_be_a_base || !host_ok {
        return Err(config_error("fulfillment_url must be an absolute URL with a host"));
    }
    let scheme = parts.scheme.as_str();
    if str_eq(scheme, "https") || str_eq(scheme, "http") {
        Ok(())
    } else {
        let q = debug_quote(scheme);
        Err(config_error_with("fulfillment_url scheme must be http or https, got ", q.as_str()))
    }
}

/// `base` without trailing `/`, a single `/`, then `path` without leading `/`.
pub open spec fn joined_url(base: Seq<char>, path: Seq<char>) -> Seq<char> {
    text::trim_end_char(base, '/') + seq!['/'] + text::trim_start_char(path, '/')
}

/// Join a base URL and a path with exactly one `/` between them.
pub fn join_url(base: &str, path: &str) -> (r: String)
    ensures
        r@ == joined_url(base@, path@),
{
    let b = text::trim_end_char_str(base, '/');
    let p = text::trim_start_char_str(path, '/');
    let mut out = String::from_str(b);
    push_char(&mut out, '/');
    out.append(p);
    out
}

/// Bytes kept as they are by percent-encoding: `A-Z a-z 0-9 - _ . ~`.
pub open spec fn is_unreserved_byte(b: u8) -> bool {
    (65 <= b && b <= 90) || (97 <= b && b <= 122) || (48 <= b && b <= 57) || b == 45 || b == 95
        || b == 46 || b == 126
}

/// Uppercase hex digit of a nibble.
pub open spec fn upper_hex(n: u8) -> char {
    "0123456789ABCDEF"@[n as int]
}

/// `%XX` for a byte.
pub open spec fn percent_byte(b: u8) -> Seq<char> {
    seq!['%', upper_hex(b / 16), upper_hex(b % 16)]
}

/// Percent-encoding of bytes for a URL path segment: unreserved bytes stay,
/// all others become `%XX`.
pub open spec fn path_encoded(bytes: Seq<u8>) -> Seq<char>
    decreases bytes.len(),
{
    if bytes.len() == 0 {
        Seq::empty()
    } else {
        path_encoded(bytes.drop_last()) + if is_unreserved_byte(bytes.last()) {
            seq![bytes.last() as char]
        } else {
            percent_byte(bytes.last())
        }
    }
}

/// Law: an encoded path segment holds only unreserved characters, `%` and
/// uppercase hex digits, so it never carries `/`, `?` or `#` into the URL.
pub proof fn law_path_segment_has_no_separators(bytes: Seq<u8>)
    ensures
        forall|i: int|
            0 <= i < path_encoded(bytes).len() ==> {
                let c = #[trigger] path_encoded(bytes)[i];
                c != '/' && c != '?' && c != '#'
            },
    decreases bytes.len(),
{
    reveal_strlit("0123456789ABCDEF");
    if bytes.len() > 0 {
        law_path_segment_has_no_separators(bytes.drop_last());
        let h = path_encoded(bytes.drop_last());
        let e = path_encoded(bytes);
        let b = bytes.last();
        assert forall|i: int| 0 <= i < e.len() implies {
            let c = #[trigger] e[i];
            c != '/' && c != '?' && c != '#'
        } by {
            if i < h.len() {
                assert(e[i] == h[i]);
            } else if is_unreserved_byte(b) {
                assert(e[i] == b as char);
            } else {
                assert(e[i] == percent_byte(b)[i - h.len()]);
            }
        }
    }
}

/// `application/x-www-form-urlencoded` encoding of bytes: unreserved bytes
/// stay, space becomes `+`, all others become `%XX`.
pub open spec fn query_encoded(bytes: Seq<u8>) -> Seq<char>
    decreases bytes.len(),
{
    if bytes.len() == 0 {
        Seq::empty()
    } else {
        query_encoded(bytes.drop_last()) + if is_unreserved_byte(bytes.last()) {
            seq![bytes.last() as char]
        } else if bytes.last() == 32 {
            seq!['+']
        } else {
            percent_byte(bytes.last())
        }
    }
}

/// The UTF-8 bytes of a text.
pub open spec fn utf8(s: Seq<char>) -> Seq<u8> {
    vstd::utf8::encode_utf8(s)
}

fn upper_hex_of(n: u8) -> (c: char)
    requires
        n < 16,
    ensures
        c == upper_hex(n),
{
    proof {
        reveal_strlit("0123456789ABCDEF");
    }
    "0123456789ABCDEF".get_char(n as usize)
}

fn push_percent_byte(out: &mut String, b: u8)
    ensures
        final(out)@ == old(out)@ + percent_byte(b),
{
    push_char(out, '%');
    push_char(out, upper_hex_of(b / 16));
    push_char(out, upper_hex_of(b % 16));
    assert(final(out)@ =~= old(out)@ + percent_byte(b));
}

/// Percent-encode the UTF-8 bytes of `s` for use as one URL path segment.
pub fn percent_encode_path_segment(s: &str) -> (r: String)
    ensures
        r@ == path_encoded(utf8(s@)),
{
    let bytes = s.as_bytes();
    let mut out = String::new();
    let mut i: usize = 0;
    while i < bytes.len()
        invariant
            bytes@ == utf8(s@),
            i <= bytes@.len(),
            out@ == path_encoded(bytes@.take(i as int)),
        decreases bytes@.len() - i,
    {
        let b = bytes[i];
        assert(bytes@.take(i + 1).drop_last() =~= bytes@.take(i as int));
        if (65 <= b && b <= 90) || (97 <= b && b <= 122) || (48 <= b && b <= 57) || b == 45 || b
            == 95 || b == 46 || b == 126 {
            push_char(&mut out, b as char);
        } else {
            push_percent_byte(&mut out, b);
        }
        assert(out@ =~= path_encoded(bytes@.take(i + 1)));
        i = i + 1;
    }
    assert(bytes@.take(bytes@.len() as int) =~= bytes@);
    out
}

/// `application/x-www-form-urlencoded` component (query values).
pub fn percent_encode_query_component(s: &str) -> (r: String)
    ensures
        r@ == query_encoded(utf8(s@)),
{
    let bytes = s.as_bytes();
    let mut out = String::new();
    let mut i: usize = 0;
    while i < bytes.len()
        invariant
            bytes@ == utf8(s@),
            i <= bytes@.len(),
            out@ == query_encoded(bytes@.take(i as int)),
        decreases bytes@.len() - i,
    {
        let b = bytes[i];
        assert(bytes@.take(i + 1).drop_last() =~= bytes@.take(i as int));
        if (65 <= b && b <= 90) || (97 <= b && b <= 122) || (48 <= b && b <= 57) || b == 45 || b
            == 95 || b == 46 || b == 126 {
            push_char(&mut out, b as char);
        } else if b == 32 {
            push_char(&mut out, '+');
        } else {
            push_percent_byte(&mut out, b);
        }
        assert(out@ =~= query_encoded(bytes@.take(i + 1)));
        i = i + 1;
    }
    assert(bytes@.take(bytes@.len() as int) =~= bytes@);
    out
}

/// A text with every `%20`, read from the left, replaced by `+`.
pub open spec fn plus_for_encoded_space(s: Seq<char>) -> Seq<char>
    decreases s.len(),
{
    if s.len() == 0 {
        Seq::empty()
    } else if s.len() >= 3 && s[0] == '%' && s[1] == '2' && s[2] == '0' {
        seq!['+'] + plus_for_encoded_space(s.skip(3))
    } else {
        seq![s[0]] + plus_for_encoded_space(s.skip(1))
    }
}

spec fn path_token(b: u8) -> Seq<char> {
    if is_unreserved_byte(b) {
        seq![b as char]
    } else {
        percent_byte(b)
    }
}

spec fn query_token(b: u8) -> Seq<char> {
    if is_unreserved_byte(b) {
        seq![b as char]
    } else if b == 32 {
        seq!['+']
    } else {
        percent_byte(b)
    }
}

proof fn lemma_encoded_front(b: u8, rest: Seq<u8>)
    ensures
        path_encoded(seq![b] + rest) == path_token(b) + path_encoded(rest),
        query_encoded(seq![b] + rest) == query_token(b) + query_encoded(rest),
    decreases rest.len(),
{
    let whole = seq![b] + rest;
    if rest.len() == 0 {
        assert(whole.drop_last() =~= Seq::<u8>::empty());
        assert(rest =~= Seq::<u8>::empty());
        assert(whole.last() == b);
        assert(path_encoded(whole.drop_last()) =~= Seq::<char>::empty());
        assert(query_encoded(whole.drop_last()) =~= Seq::<char>::empty());
        assert(path_encoded(whole) =~= path_token(b));
        assert(query_encoded(whole) =~= query_token(b));
    } else {
        lemma_encoded_front(b, rest.drop_last());
        assert(whole.drop_last() =~= seq![b] + rest.drop_last());
        assert(whole.last() == rest.last());
        assert(path_encoded(whole) =~= path_token(b) + path_encoded(rest));
        assert(query_encoded(whole) =~= query_token(b) + query_encoded(rest));
    }
}

proof fn lemma_hex_digit(n: u8)
    requires
        n < 16,
    ensures
        upper_hex(n) != '%',
        upper_hex(n) == '2' ==> n == 2,
        upper_hex(n) == '0' ==> n == 0,
{
    reveal_strlit("0123456789ABCDEF");
    assert(n == 0 || n == 1 || n == 2 || n == 3 || n == 4 || n == 5 || n == 6 || n == 7 || n == 8
        || n == 9 || n == 10 || n == 11 || n == 12 || n == 13 || n == 14 || n == 15);
}

proof fn lemma_plus_after_token(b: u8, x: Seq<char>)
    ensures
        plus_for_encoded_space(path_token(b) + x) == query_token(b) + plus_for_encoded_space(x),
{
    let s = path_token(b) + x;
    if is_unreserved_byte(b) {
        assert(s[0] == b as char);
        assert(s.skip(1) =~= x);
    } else {
        let h1 = upper_hex(b / 16);
        let h2 = upper_hex(b % 16);
        lemma_hex_digit(b / 16);
        lemma_hex_digit(b % 16);
        assert(s[0] == '%' && s[1] == h1 && s[2] == h2);
        if b == 32 {
            reveal_strlit("0123456789ABCDEF");
            assert(s.skip(3) =~= x);
        } else {
            let s1 = s.skip(1);
            let s2 = s1.skip(1);
            assert(s1[0] == h1 && s1[1] == h2);
            assert(s2 =~= seq![h2] + x);
            assert(s2.skip(1) =~= x);
            assert(plus_for_encoded_space(s2) == seq![h2] + plus_for_encoded_space(x));
            assert(plus_for_encoded_space(s1) == seq![h1] + plus_for_encoded_space(s2));
            assert(query_token(b) =~= seq!['%', h1, h2]);
            assert(plus_for_encoded_space(s) =~= query_token(b) + plus_for_encoded_space(x));
        }
    }
}

proof fn lemma_query_is_path_with_plus(bytes: Seq<u8>)
    ensures
        query_encoded(bytes) == plus_for_encoded_space(path_encoded(bytes)),
    decreases bytes.len(),
{
    if bytes.len() == 0 {
        assert(path_encoded(bytes) =~= Seq::<char>::empty());
    } else {
        let b = bytes[0];
        let rest = bytes.skip(1);
        assert(bytes =~= seq![b] + rest);
        lemma_encoded_front(b, rest);
        lemma_query_is_path_with_plus(rest);
        lemma_plus_after_token(b, path_encoded(rest));
    }
}

/// Law: the query-component encoding of a text is its path-segment encoding
/// with every `%20` read as `+`; every other byte, `+` among them, is encoded
/// the same way by both.
pub proof fn law_query_component_is_path_segment_with_plus(s: Seq<char>)
    ensures
        query_encoded(utf8(s)) == plus_for_encoded_space(path_encoded(utf8(s))),
{
    lemma_query_is_path_with_plus(utf8(s));
}


/// Configuration for a merchant client.
pub struct MerchantConfig {
    /// Base URL including instance path when used, e.g.
    /// `https://backend.demo.taler.net/instances/sandbox/`.
    ///
    /// Must be `https://`, or `http://` only for loopback hosts (`127.0.0.1`,
    /// `localhost`, `::1`) used by local tests.
    pub base_url: String,
    /// Bearer token material (with or without `secret-token:` prefix).
    pub token: SecretToken,
    /// HTTP timeout for each request.
    pub timeout: Duration,
}

/// Message of the configuration error for an empty token.
pub open spec fn empty_token_message() -> Seq<char> {
    "token must not be empty"@
}

/// Why a configuration is refused, or `None`: the base URL first, then the
/// token, which must not be empty.
pub open spec fn config_problem(base_url: Seq<char>, token: Seq<char>) -> Option<Seq<char>> {
    match base_url_problem(base_url) {
        Some(m) => Some(m),
        None => if token.len() == 0 {
            Some(empty_token_message())
        } else {
            None
        },
    }
}

impl MerchantConfig {
    /// Build config from base URL and token string, with the default timeout
    /// of 30 seconds.
    pub fn new(base_url: &str, token: &str) -> (r: Self)
        ensures
            r.base_url@ == base_url@,
            r.token@ == auth::normalized_token(token@),
            r.timeout == duration_of_secs(DEFAULT_TIMEOUT_SECS),
    {
        MerchantConfig {
            base_url: String::from_str(base_url),
            token: SecretToken::new(token),
            timeout: duration_from_secs(DEFAULT_TIMEOUT_SECS),
        }
    }

    /// Override the HTTP timeout.
    pub fn with_timeout(self, timeout: Duration) -> (r: Self)
        ensures
            r.base_url == self.base_url,
            r.token@ == self.token@,
            r.timeout == timeout,
    {
        MerchantConfig { base_url: self.base_url, token: self.token, timeout }
    }

    /// Check the configuration: a usable base URL and a non-empty token.
    pub fn validate(&self) -> (r: Result<(), MerchantError>)
        ensures
            config_outcome(r, config_problem(self.base_url@, self.token@)),
    {
        validate_base_url(self.base_url.as_str())?;
        if self.token.is_empty() {
            return Err(config_error("token must not be empty"));
        }
        Ok(())
    }
}

impl Clone for MerchantConfig {
    fn clone(&self) -> (r: Self)
        ensures
            r.base_url == self.base_url,
            r.token@ == self.token@,
            r.timeout == self.timeout,
    {
        MerchantConfig { base_url: self.base_url.clone(), token: self.token.clone(), timeout: self.timeout }
    }
}

/// Why the fields of an order request are refused, or `None`: the summary
/// must not be blank and the fulfillment URL must be an absolute http(s) URL.
pub open spec fn order_fields_problem(request: CreateOrderRequest) -> Option<Seq<char>> {
    if text::trim(request.summary@).len() == 0 {
        Some("summary must not be empty"@)
    } else {
        fulfillment_url_problem(request.fulfillment_url@)
    }
}

/// Check the summary and fulfillment URL of an order request.
pub fn check_order_fields(request: &CreateOrderRequest) -> (r: Result<(), MerchantError>)
    ensures
        config_outcome(r, order_fields_problem(*request)),
{
    if trim_str(request.summary.as_str()).unicode_len() == 0 {
        return Err(config_error("summary must not be empty"));
    }
    validate_fulfillment_url(request.fulfillment_url.as_str())
}

/// `body` is the POST body of `request` under the order id `order_id`.
pub open spec fn is_post_body(body: PostOrderRequest, request: CreateOrderRequest, order_id: Seq<char>) -> bool {
    &&& body.order.amount@ == request.amount@
    &&& body.order.summary == request.summary
    &&& body.order.fulfillment_url == request.fulfillment_url
    &&& text::opt_view(body.order.order_id) == Some(order_id)
    &&& body.create_token == Some(request.create_token)
}

/// The outcome of using `order_id` for `request`: without a claim token a
/// weak id is refused as `validate_unguessable_order_id` refuses it; a blank
/// id is a configuration error; otherwise the POST body.
pub open spec fn order_id_outcome(
    r: Result<PostOrderRequest, MerchantError>,
    request: CreateOrderRequest,
    order_id: Seq<char>,
) -> bool {
    if !request.create_token && order_id::weak_order_id_reason(order_id) is Some {
        r matches Err(MerchantError::WeakOrderId { order_id: id, reason }) && Some(reason@)
            == order_id::weak_order_id_reason(order_id) && id@ == order_id::weak_order_id_report(
            order_id,
        )
    } else if text::trim(order_id).len() == 0 {
        r matches Err(MerchantError::Config(m)) && m@ == "order_id must not be empty"@
    } else {
        r matches Ok(body) && is_post_body(body, request, order_id)
    }
}

/// Build the POST body of `request` with the chosen order id, refusing weak
/// ids when no claim token is requested.
pub fn finish_post_order(request: CreateOrderRequest, order_id: String) -> (r: Result<
    PostOrderRequest,
    MerchantError,
>)
    ensures
        order_id_outcome(r, request, order_id@),
{
    if !request.create_token {
        validate_unguessable_order_id(order_id.as_str())?;
    }
    if trim_str(order_id.as_str()).unicode_len() == 0 {
        return Err(config_error("order_id must not be empty"));
    }
    let body = request.into_post(order_id);
    Ok(body)
}

/// The body for `POST /private/orders`: checks the summary and fulfillment
/// URL, takes the request's order id or generates an unguessable one, and
/// refuses weak ids when no claim token is requested.
///
/// A generated id has the form `o-` + 32 hex digits and always passes the
/// weak-id check; generation fails only if the random source fails.
pub fn prepare_post_order(request: CreateOrderRequest) -> (r: Result<PostOrderRequest, MerchantError>)
    ensures
        match order_fields_problem(request) {
            Some(m) => r matches Err(MerchantError::Config(msg)) && msg@ == m,
            None => match request.order_id {
                Some(id) => order_id_outcome(r, request, id@),
                None => match r {
                    Ok(body) => exists|bytes: Seq<u8>|
                        bytes.len() == order_id::ORDER_ID_ENTROPY_BYTES && is_post_body(
                            body,
                            request,
                            order_id::generated_id_text(bytes),
                        ),
                    Err(e) => order_id::is_entropy_failure(e),
                },
            },
        },
{
    check_order_fields(&request)?;
    let order_id = match &request.order_id {
        Some(id) => id.clone(),
        None => {
            let id = generate_order_id()?;
            proof {
                let bytes = choose|bytes: Seq<u8>|
                    bytes.len() == order_id::ORDER_ID_ENTROPY_BYTES && id@
                        == order_id::generated_id_text(bytes);
                order_id::law_generated_ids_are_unguessable(bytes);
                reveal_strlit("o-");
                assert(id@[0] == 'o');
                assert(text::trim(id@).len() > 0) by {
                    assert forall|i: int| 0 <= i < id@.len() implies !text::is_ws(#[trigger] id@[i]) by {
                        if i >= 2 {
                            assert(order_id::is_hex_char(id@[i]));
                        }
                    }
                    text::lemma_trim_no_ws(id@);
                }
            }
            id
        },
    };
    finish_post_order(request, order_id)
}

/// Message of the error for a blank order id in a status query.
pub open spec fn empty_order_id_message() -> Seq<char> {
    "order_id must not be empty"@
}

/// Query string of a status request: `timeout_ms` when set, then a non-empty
/// `session_id` form-encoded, joined with `&` behind a `?`; empty when neither
/// is present.
pub open spec fn status_query_text(q: StatusQuery) -> Seq<char> {
    let t = match q.timeout_ms {
        Some(ms) => Some("timeout_ms="@ + text::nat_text(ms as nat)),
        None => None,
    };
    let s = match q.session_id {
        Some(sid) => if sid@.len() > 0 {
            Some("session_id="@ + query_encoded(utf8(sid@)))
        } else {
            None
        },
        None => None,
    };
    match (t, s) {
        (None, None) => Seq::empty(),
        (Some(a), None) => "?"@ + a,
        (None, Some(b)) => "?"@ + b,
        (Some(a), Some(b)) => "?"@ + a + "&"@ + b,
    }
}

/// URL of `GET /private/orders/{order_id}` under `base_url`, with the order id
/// percent-encoded as a path segment and the query of `query`.
pub open spec fn status_request_url(base_url: Seq<char>, order_id: Seq<char>, query: StatusQuery) -> Seq<char> {
    joined_url(base_url, "private/orders/"@ + path_encoded(utf8(order_id))) + status_query_text(query)
}

/// Extra read time, in milliseconds, that a status request allows beyond the
/// client's timeout: a long-poll of `timeout_ms` gets that wait plus one
/// second of slack (saturating at `u64::MAX`); a plain request gets none.
pub fn long_poll_read_extra_ms(query: &StatusQuery) -> (r: Option<u64>)
    ensures
        r == match query.timeout_ms {
            Some(ms) => Some(if ms + 1000 <= u64::MAX { (ms + 1000) as u64 } else { u64::MAX }),
            None => None::<u64>,
        },
{
    match query.timeout_ms {
        Some(ms) => Some(ms.saturating_add(1000)),
        None => None,
    }
}

/// The URL for a status request; a blank order id is a configuration error.
pub fn order_status_request_url(base_url: &str, order_id: &str, query: &StatusQuery) -> (r: Result<
    String,
    MerchantError,
>)
    ensures
        if text::trim(order_id@).len() == 0 {
            r matches Err(MerchantError::Config(m)) && m@ == empty_order_id_message()
        } else {
            r matches Ok(url) && url@ == status_request_url(base_url@, order_id@, *query)
        },
{
    if trim_str(order_id).unicode_len() == 0 {
        return Err(config_error("order_id must not be empty"));
    }
    let encoded_id = percent_encode_path_segment(order_id);
    let mut path = String::from_str("private/orders/");
    path.append(encoded_id.as_str());
    let mut url = join_url(base_url, path.as_str());
    let ghost base = url@;
    let timeout_part: Option<String> = match query.timeout_ms {
        Some(ms) => {
            let mut p = String::from_str("timeout_ms=");
            let digits = u64_text(ms);
            p.append(digits.as_str());
            Some(p)
        },
        None => None,
    };
    let session_part: Option<String> = match &query.session_id {
        Some(sid) => {
            if sid.as_str().unicode_len() > 0 {
                let mut p = String::from_str("session_id=");
                let enc = percent_encode_query_component(sid.as_str());
                p.append(enc.as_str());
                Some(p)
            } else {
                None
            }
        },
        None => None,
    };
    match (&timeout_part, &session_part) {
        (None, None) => {},
        (Some(a), None) => {
            url.append("?");
            url.append(a.as_str());
        },
        (None, Some(b)) => {
            url.append("?");
            url.append(b.as_str());
        },
        (Some(a), Some(b)) => {
            url.append("?");
            url.append(a.as_str());
            url.append("&");
            url.append(b.as_str());
        },
    }
    assert(url@ =~= base + status_query_text(*query));
    Ok(url)
}

/// Detail of the error when `create_order` finds a status it cannot use.
pub open spec fn create_status_detail() -> Seq<char> {
    "create_order requires unpaid status with non-empty taler_pay_uri and order_status_url"@
}

/// A status `create_order` accepts: unpaid, with a pay URI and a status URL
/// that are not blank.
pub open spec fn is_payable_status(s: MerchantOrderStatus) -> bool {
    s matches MerchantOrderStatus::Unpaid(u) && text::trim(u.taler_pay_uri@).len() > 0
        && text::trim(u.order_status_url@).len() > 0
}

/// Law: the statuses `create_order` accepts are exactly the unpaid ones whose
/// pay URI and status URL are not blank; a paid or claimed order is never
/// accepted.
pub proof fn law_payable_status_is_unpaid_with_uris(s: MerchantOrderStatus)
    ensures
        is_payable_status(s) <==> (s matches MerchantOrderStatus::Unpaid(u)
            && text::trim(u.taler_pay_uri@).len() > 0 && text::trim(u.order_status_url@).len() > 0),
        s is Paid ==> !is_payable_status(s),
        s is Claimed ==> !is_payable_status(s),
{
}

/// Outcome of `create_order` once the POST succeeded and the status GET gave
/// `status`: a failed GET becomes `CreatedButStatusFailed` (the order exists),
/// a payable unpaid status the response, any other status
/// `UnexpectedOrderStatus`.
pub fn finish_create_order(
    created: PostOrderResponse,
    status: Result<MerchantOrderStatus, MerchantError>,
) -> (r: Result<CreateOrderResponse, MerchantError>)
    ensures
        match status {
            Err(cause) => r matches Err(MerchantError::CreatedButStatusFailed { order_id, cause: c })
                && order_id == created.order_id && *c == cause,
            Ok(s) => if is_payable_status(s) {
                r matches Ok(resp) && resp.order_id == created.order_id && resp.token
                    == created.token && resp.status == s
            } else {
                r matches Err(MerchantError::UnexpectedOrderStatus { order_id, got, detail })
                    && order_id == created.order_id && got@ == types::status_name(s) && detail@
                    == create_status_detail()
            },
        },
        r matches Ok(resp) ==> is_payable_status(resp.status),
        r matches Ok(resp) ==> (resp.status matches MerchantOrderStatus::Unpaid(u)
            && text::trim(u.taler_pay_uri@).len() > 0 && text::trim(u.order_status_url@).len() > 0),
        status matches Ok(s) && !(s is Unpaid) ==> r matches Err(
            MerchantError::UnexpectedOrderStatus { .. },
        ),
{
    let status = match status {
        Ok(s) => s,
        Err(cause) => {
            return Err(
                MerchantError::CreatedButStatusFailed {
                    order_id: created.order_id,
                    cause: Box::new(cause),
                },
            );
        },
    };
    let payable = match &status {
        MerchantOrderStatus::Unpaid(u) => trim_str(u.taler_pay_uri.as_str()).unicode_len() > 0
            && trim_str(u.order_status_url.as_str()).unicode_len() > 0,
        _ => false,
    };
    if payable {
        Ok(CreateOrderResponse { order_id: created.order_id, token: created.token, status })
    } else {
        Err(
            MerchantError::UnexpectedOrderStatus {
                order_id: created.order_id,
                got: String::from_str(status.as_str()),
                detail: String::from_str(
                    "create_order requires unpaid status with non-empty taler_pay_uri and order_status_url",
                ),
            },
        )
    }
}

/// What an HTTP status means for a request: 3xx is a refused redirect
/// (carrying the `Location`), 2xx success, anything else the error that
/// `MerchantError::from_http` makes of status and body.
pub fn check_http_status(status: u16, location: Option<String>, body: &str) -> (r: Result<
    (),
    MerchantError,
>)
    ensures
        300 <= status < 400 ==> (r matches Err(MerchantError::RedirectDisallowed { status: s, location: l })
            && s == status && l == location),
        200 <= status < 300 ==> r is Ok,
        !(200 <= status < 400) ==> (r matches Err(e) && error::is_http_error(status, body@, e)),
{
    if 300 <= status && status < 400 {
        Err(MerchantError::RedirectDisallowed { status, location })
    } else if 200 <= status && status < 300 {
        Ok(())
    } else {
        Err(MerchantError::from_http(status, body))
    }
}

/// The error for a 2xx body that does not decode: `Protocol`, naming the
/// decoder's complaint and the body cut to 256 characters.
pub fn decode_error(detail: &str, body: &str) -> (r: MerchantError)
    ensures
        r matches MerchantError::Protocol(m) && m@ == "failed to decode JSON response: "@ + detail@
            + "; body="@ + text::truncated(body@, 256),
{
    let mut out = String::from_str("failed to decode JSON response: ");
    out.append(detail);
    out.append("; body=");
    let cut = text::truncate_text(body, 256);
    out.append(cut.as_str());
    MerchantError::Protocol(out)
}

} // verus!
