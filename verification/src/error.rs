//! Typed errors for the merchant client.

use crate::json::{self, lookup_json_i64, lookup_json_str};
use crate::text::{self, debug_quote, i64_text, truncate_text, u64_text};
use vstd::prelude::*;

verus! {

/// Errors produced by the merchant client and related helpers.
#[derive(Debug, PartialEq, Eq)]
pub enum MerchantError {
    /// Amount string failed validation.
    InvalidAmount(String),
    /// Caller supplied a guessable `order_id` while `create_token` is false.
    ///
    /// With `create_token: false`, Taler relies on order-id entropy instead of a
    /// claim token. Short or enumerable IDs create a scrapeable payment surface.
    WeakOrderId {
        /// The rejected order id (safe to log — not a secret).
        order_id: String,
        /// Why it was rejected.
        reason: &'static str,
    },
    /// HTTP transport failure (DNS, TLS, connection reset, …).
    Transport(String),
    /// HTTP 401 / 403 from the merchant backend.
    Unauthorized {
        /// HTTP status code.
        status: u16,
        /// Optional Taler error hint from the body.
        hint: Option<String>,
    },
    /// HTTP 404 — instance or order unknown.
    NotFound {
        /// HTTP status code.
        status: u16,
        /// Optional Taler error hint from the body.
        hint: Option<String>,
    },
    /// HTTP 409 — order id already exists (or similar conflict).
    Conflict {
        /// HTTP status code.
        status: u16,
        /// Optional Taler error hint from the body.
        hint: Option<String>,
    },
    /// Other non-success HTTP response from the backend.
    Http {
        /// HTTP status code.
        status: u16,
        /// Response body (truncated); never contains injected client secrets.
        body: String,
        /// Optional Taler `hint` field if the body was JSON.
        hint: Option<String>,
        /// Optional Taler numeric `code` if present.
        code: Option<i32>,
    },
    /// Response JSON did not match expected shapes.
    Protocol(String),
    /// The backend answered with a 3xx redirect, which the client never follows.
    RedirectDisallowed {
        /// HTTP status code.
        status: u16,
        /// `Location` header of the refused redirect, if any.
        location: Option<String>,
    },
    /// Order was created, but the follow-up status GET failed.
    ///
    /// The backend already has `order_id`. Callers must not blindly retry
    /// `create_order` with a new id (duplicate offers). Fetch status or reuse
    /// the same id intentionally.
    CreatedButStatusFailed {
        /// Order id assigned by the successful POST.
        order_id: String,
        /// The error of the status fetch.
        cause: Box<MerchantError>,
    },
    /// `create_order` expected unpaid + non-empty `taler_pay_uri`.
    UnexpectedOrderStatus {
        /// Order id from the successful POST.
        order_id: String,
        /// Status discriminator received (`claimed`, `paid`, …).
        got: String,
        /// Human-readable detail.
        detail: String,
    },
    /// Caller misconfigured the client (empty URL/token, etc.).
    Config(String),
}

/// `": " + hint` when a hint is present, else nothing.
pub open spec fn hint_suffix(hint: Option<String>) -> Seq<char> {
    match hint {
        Some(h) => ": "@ + h@,
        None => Seq::empty(),
    }
}

/// Text after the status of an `Http` error: the code, then the hint or else a
/// non-empty body.
pub open spec fn http_detail(body: String, hint: Option<String>, code: Option<i32>) -> Seq<char> {
    let code_part = match code {
        Some(c) => " (code "@ + text::int_text(c as int) + ")"@,
        None => Seq::empty(),
    };
    let tail = match hint {
        Some(h) => ": "@ + h@,
        None => if body@.len() > 0 {
            ": "@ + body@
        } else {
            Seq::empty()
        },
    };
    code_part + tail
}

/// Human-readable message of an error (its displayed form).
pub open spec fn error_text(e: MerchantError) -> Seq<char>
    decreases e,
{
    match e {
        MerchantError::InvalidAmount(s) => "invalid Taler amount: "@ + text::debug_quoted(s@),
        MerchantError::WeakOrderId { order_id, reason } => "weak order_id "@ + text::debug_quoted(
            order_id@,
        ) + " with create_token=false: "@ + reason@,
        MerchantError::Transport(m) => "transport error: "@ + m@,
        MerchantError::Unauthorized { status, hint } => "unauthorized (HTTP "@ + text::nat_text(
            status as nat,
        ) + ")"@ + hint_suffix(hint),
        MerchantError::NotFound { status, hint } => "not found (HTTP "@ + text::nat_text(
            status as nat,
        ) + ")"@ + hint_suffix(hint),
        MerchantError::Conflict { status, hint } => "conflict (HTTP "@ + text::nat_text(
            status as nat,
        ) + ")"@ + hint_suffix(hint),
        MerchantError::Http { status, body, hint, code } => "merchant backend HTTP "@
            + text::nat_text(status as nat) + http_detail(body, hint, code),
        MerchantError::Protocol(m) => "protocol error: "@ + m@,
        MerchantError::RedirectDisallowed { status, location } => "refusing to follow redirect (HTTP "@
            + text::nat_text(status as nat) + ")"@ + match location {
            Some(l) => " to "@ + l@,
            None => Seq::empty(),
        },
        MerchantError::CreatedButStatusFailed { order_id, cause } => "order "@ + order_id@
            + " was created but status fetch failed: "@ + error_text(*cause),
        MerchantError::UnexpectedOrderStatus { order_id, got, detail } => "order "@ + order_id@
            + " has unexpected status "@ + text::debug_quoted(got@) + ": "@ + detail@,
        MerchantError::Config(m) => "configuration error: "@ + m@,
    }
}

/// `e` is the error for a non-success HTTP answer with this status and body:
/// 401/403 `Unauthorized`, 404 `NotFound`, 409 `Conflict`, each with the
/// Taler `hint`; any other status `Http` with the body cut to 512 characters,
/// the hint and the numeric `code` narrowed to `i32`.
pub open spec fn is_http_error(status: u16, body: Seq<char>, e: MerchantError) -> bool {
    match e {
        MerchantError::Unauthorized { status: s, hint } => (status == 401 || status == 403) && s
            == status && text::opt_view(hint) == json::json_str_member(body, "hint"@),
        MerchantError::NotFound { status: s, hint } => status == 404 && s == status
            && text::opt_view(hint) == json::json_str_member(body, "hint"@),
        MerchantError::Conflict { status: s, hint } => status == 409 && s == status
            && text::opt_view(hint) == json::json_str_member(body, "hint"@),
        MerchantError::Http { status: s, body: b, hint, code } => status != 401 && status != 403
            && status != 404 && status != 409 && s == status && b@ == text::truncated(body, 512)
            && text::opt_view(hint) == json::json_str_member(body, "hint"@) && code == narrow_code(
            json::json_i64_member(body, "code"@),
        ),
        _ => false,
    }
}

/// `i64` narrowed to `i32` the way `as` does (keeping the low 32 bits).
pub open spec fn narrow_code(c: Option<i64>) -> Option<i32> {
    match c {
        Some(n) => Some(n as i32),
        None => None,
    }
}

fn append_hint(out: &mut String, hint: &Option<String>)
    ensures
        final(out)@ == old(out)@ + hint_suffix(*hint),
{
    match hint {
        Some(h) => {
            out.append(": ");
            out.append(h.as_str());
            proof {
                reveal_strlit(": ");
            }
        },
        None => {
            assert(final(out)@ =~= old(out)@ + hint_suffix(*hint));
        },
    }
}

fn status_text(prefix: &str, status: u16) -> (r: String)
    ensures
        r@ == prefix@ + text::nat_text(status as nat),
{
    let mut out = String::from_str(prefix);
    let digits = u64_text(status as u64);
    out.append(digits.as_str());
    out
}

impl MerchantError {
    /// Error for a non-success HTTP answer with the given status and body.
    ///
    /// 401/403 become `Unauthorized`, 404 `NotFound`, 409 `Conflict`, with the
    /// Taler `hint` of a JSON body; any other status becomes `Http` with the
    /// body cut to 512 characters, the hint and the numeric `code`.
    pub fn from_http(status: u16, body: &str) -> (r: MerchantError)
        ensures
            is_http_error(status, body@, r),
    {
        let hint = lookup_json_str(body, "hint");
        if status == 401 || status == 403 {
            MerchantError::Unauthorized { status, hint }
        } else if status == 404 {
            MerchantError::NotFound { status, hint }
        } else if status == 409 {
            MerchantError::Conflict { status, hint }
        } else {
            let code = match lookup_json_i64(body, "code") {
                Some(n) => Some(n as i32),
                None => None,
            };
            MerchantError::Http { status, body: truncate_text(body, 512), hint, code }
        }
    }

    /// The error this one was caused by: the failed status fetch of a
    /// `CreatedButStatusFailed`, none for the others.
    pub fn source(&self) -> (r: Option<&MerchantError>)
        ensures
            match self {
                MerchantError::CreatedButStatusFailed { cause, .. } => r == Some(&**cause),
                _ => r is None,
            },
    {
        match self {
            MerchantError::CreatedButStatusFailed { cause, .. } => {
                let inner: &MerchantError = cause;
                Some(inner)
            },
            _ => None,
        }
    }

    /// Human-readable message of the error (its displayed form).
    pub fn to_string(&self) -> (r: String)
        ensures
            r@ == error_text(*self),
        decreases self,
    {
        proof {
            reveal_strlit(": ");
            reveal_strlit(")");
        }
        match self {
            MerchantError::InvalidAmount(s) => {
                let mut out = String::from_str("invalid Taler amount: ");
                let q = debug_quote(s.as_str());
                out.append(q.as_str());
                out
            },
            MerchantError::WeakOrderId { order_id, reason } => {
                let mut out = String::from_str("weak order_id ");
                let q = debug_quote(order_id.as_str());
                out.append(q.as_str());
                out.append(" with create_token=false: ");
                out.append(reason);
                out
            },
            MerchantError::Transport(m) => {
                let mut out = String::from_str("transport error: ");
                out.append(m.as_str());
                out
            },
            MerchantError::Unauthorized { status, hint } => {
                let mut out = status_text("unauthorized (HTTP ", *status);
                out.append(")");
                append_hint(&mut out, hint);
                out
            },
            MerchantError::NotFound { status, hint } => {
                let mut out = status_text("not found (HTTP ", *status);
                out.append(")");
                append_hint(&mut out, hint);
                out
            },
            MerchantError::Conflict { status, hint } => {
                let mut out = status_text("conflict (HTTP ", *status);
                out.append(")");
                append_hint(&mut out, hint);
                out
            },
            MerchantError::Http { status, body, hint, code } => {
                let mut out = status_text("merchant backend HTTP ", *status);
                let ghost head = out@;
                match code {
                    Some(c) => {
                        out.append(" (code ");
                        let digits = i64_text(*c as i64);
                        out.append(digits.as_str());
                        out.append(")");
                    },
                    None => {},
                }
                match hint {
                    Some(h) => {
                        out.append(": ");
                        out.append(h.as_str());
                    },
                    None => {
                        if body.as_str().unicode_len() > 0 {
                            out.append(": ");
                            out.append(body.as_str());
                        }
                    },
                }
                assert(out@ =~= head + http_detail(*body, *hint, *code));
                out
            },
            MerchantError::Protocol(m) => {
                let mut out = String::from_str("protocol error: ");
                out.append(m.as_str());
                out
            },
            MerchantError::RedirectDisallowed { status, location } => {
                let mut out = status_text("refusing to follow redirect (HTTP ", *status);
                out.append(")");
                match location {
                    Some(l) => {
                        out.append(" to ");
                        out.append(l.as_str());
                    },
                    None => {},
                }
                assert(out@ =~= error_text(*self));
                out
            },
            MerchantError::CreatedButStatusFailed { order_id, cause } => {
                let mut out = String::from_str("order ");
                out.append(order_id.as_str());
                out.append(" was created but status fetch failed: ");
                let inner: &MerchantError = cause;
                let rest = inner.to_string();
                out.append(rest.as_str());
                out
            },
            MerchantError::UnexpectedOrderStatus { order_id, got, detail } => {
                let mut out = String::from_str("order ");
                out.append(order_id.as_str());
                out.append(" has unexpected status ");
                let q = debug_quote(got.as_str());
                out.append(q.as_str());
                out.append(": ");
                out.append(detail.as_str());
                out
            },
            MerchantError::Config(m) => {
                let mut out = String::from_str("configuration error: ");
                out.append(m.as_str());
                out
            },
        }
    }
}

impl Clone for MerchantError {
    fn clone(&self) -> (r: Self)
        ensures
            r == *self,
        decreases self,
    {
        match self {
            MerchantError::InvalidAmount(s) => MerchantError::InvalidAmount(s.clone()),
            MerchantError::WeakOrderId { order_id, reason } => MerchantError::WeakOrderId {
                order_id: order_id.clone(),
                reason: *reason,
            },
            MerchantError::Transport(s) => MerchantError::Transport(s.clone()),
            MerchantError::Unauthorized { status, hint } => MerchantError::Unauthorized {
                status: *status,
                hint: clone_opt(hint),
            },
            MerchantError::NotFound { status, hint } => MerchantError::NotFound {
                status: *status,
                hint: clone_opt(hint),
            },
            MerchantError::Conflict { status, hint } => MerchantError::Conflict {
                status: *status,
                hint: clone_opt(hint),
            },
            MerchantError::Http { status, body, hint, code } => MerchantError::Http {
                status: *status,
                body: body.clone(),
                hint: clone_opt(hint),
                code: *code,
            },
            MerchantError::Protocol(s) => MerchantError::Protocol(s.clone()),
            MerchantError::RedirectDisallowed { status, location } =>
                MerchantError::RedirectDisallowed { status: *status, location: clone_opt(location) },
            MerchantError::CreatedButStatusFailed { order_id, cause } => {
                let inner: &MerchantError = cause;
                MerchantError::CreatedButStatusFailed {
                    order_id: order_id.clone(),
                    cause: Box::new(inner.clone()),
                }
            },
            MerchantError::UnexpectedOrderStatus { order_id, got, detail } =>
                MerchantError::UnexpectedOrderStatus {
                order_id: order_id.clone(),
                got: got.clone(),
                detail: detail.clone(),
            },
            MerchantError::Config(s) => MerchantError::Config(s.clone()),
        }
    }
}

/// Copy of an optional string.
pub fn clone_opt(s: &Option<String>) -> (r: Option<String>)
    ensures
        r == *s,
{
    match s {
        Some(v) => Some(v.clone()),
        None => None,
    }
}

} // verus!
