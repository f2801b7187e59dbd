//! Request/response types for the Merchant Backend REST API.
//!
//! Status responses follow the official tagged union on `order_status`
//! (`unpaid` | `claimed` | `paid`). Fields this library does not interpret
//! (timestamps, forward-compatible extras) are carried as JSON values.

use crate::amount::Amount;
use crate::auth::ClaimToken;
use crate::text;
use serde_json::Value;
use vstd::prelude::*;

verus! {

/// Configuration returned by `GET /config`.
///
/// Required fields are typed; additional backend fields are retained in
/// [`MerchantVersionResponse::extra`] for forward compatibility.
#[derive(Debug, Clone, PartialEq)]
pub struct MerchantVersionResponse {
    /// Libtool-style protocol version (`current:revision:age`).
    pub version: String,
    /// Protocol name; expected `"taler-merchant"`.
    pub name: String,
    /// Default currency suggested by the backend.
    pub currency: String,
    /// Optional implementation URN.
    pub implementation: Option<String>,
    /// Optional source build version (`@since` protocol v33).
    pub build_version: Option<String>,
    /// Additional `/config` fields (currencies, exchanges, delays, …).
    pub extra: serde_json::Map<String, Value>,
}

/// Body for `POST /private/orders`.
#[derive(Debug, Clone)]
pub struct PostOrderRequest {
    /// Minimal order / contract terms fields.
    pub order: OrderDraft,
    /// When `false` and `order_id` is high-entropy, claim tokens are unnecessary.
    pub create_token: Option<bool>,
}

/// Fields required to create a simple order.
#[derive(Debug, Clone)]
pub struct OrderDraft {
    /// Amount to charge.
    pub amount: Amount,
    /// Short human-readable summary.
    pub summary: String,
    /// URL shown / opened after successful payment.
    pub fulfillment_url: String,
    /// Optional caller-chosen order id (prefer [`crate::order_id::generate_order_id`]).
    pub order_id: Option<String>,
}

/// Convenience builder used by the library API and CLI.
#[derive(Debug, Clone)]
pub struct CreateOrderRequest {
    /// Short human-readable summary.
    pub summary: String,
    /// Amount to charge.
    pub amount: Amount,
    /// Fulfillment URL after payment.
    pub fulfillment_url: String,
    /// Optional order id; if `None`, an unguessable id is generated.
    pub order_id: Option<String>,
    /// Whether the backend should create a claim token (default `false`).
    pub create_token: bool,
}

impl CreateOrderRequest {
    /// Build a minimal create-order request (no order id, no claim token).
    pub fn new(summary: &str, amount: Amount, fulfillment_url: &str) -> (r: Self)
        ensures
            r.summary@ == summary@,
            r.amount@ == amount@,
            r.fulfillment_url@ == fulfillment_url@,
            r.order_id is None,
            !r.create_token,
    {
        CreateOrderRequest {
            summary: String::from_str(summary),
            amount,
            fulfillment_url: String::from_str(fulfillment_url),
            order_id: None,
            create_token: false,
        }
    }

    /// Set an explicit order id (should be unguessable if `create_token` is false).
    pub fn with_order_id(self, order_id: &str) -> (r: Self)
        ensures
            r.summary == self.summary,
            r.amount == self.amount,
            r.fulfillment_url == self.fulfillment_url,
            text::opt_view(r.order_id) == Some(order_id@),
            r.create_token == self.create_token,
    {
        let mut r = self;
        r.order_id = Some(String::from_str(order_id));
        r
    }

    /// Request a claim token from the backend (defaults to off).
    pub fn with_create_token(self, create_token: bool) -> (r: Self)
        ensures
            r.summary == self.summary,
            r.amount == self.amount,
            r.fulfillment_url == self.fulfillment_url,
            r.order_id == self.order_id,
            r.create_token == create_token,
    {
        let mut r = self;
        r.create_token = create_token;
        r
    }

    /// The POST body for this request under the chosen order id.
    pub(crate) fn into_post(self, order_id: String) -> (r: PostOrderRequest)
        ensures
            r.order.amount == self.amount,
            r.order.summary == self.summary,
            r.order.fulfillment_url == self.fulfillment_url,
            r.order.order_id == Some(order_id),
            r.create_token == Some(self.create_token),
    {
        PostOrderRequest {
            order: OrderDraft {
                amount: self.amount,
                summary: self.summary,
                fulfillment_url: self.fulfillment_url,
                order_id: Some(order_id),
            },
            create_token: Some(self.create_token),
        }
    }
}

/// Response from `POST /private/orders`.
#[derive(Clone, PartialEq)]
pub struct PostOrderResponse {
    /// Order identifier.
    pub order_id: String,
    /// Optional claim token when `create_token` was true.
    pub token: Option<ClaimToken>,
    /// Payment deadline (`@since` v21). Required by current Merchant protocol.
    pub pay_deadline: Timestamp,
    /// Forward-compatible extra fields.
    pub extra: serde_json::Map<String, Value>,
}

/// High-level create result including pay URI when status was fetched.
#[derive(Clone)]
pub struct CreateOrderResponse {
    /// Order identifier.
    pub order_id: String,
    /// Claim token if the backend issued one.
    pub token: Option<ClaimToken>,
    /// Full typed status after the follow-up GET (expected: unpaid).
    pub status: MerchantOrderStatus,
}

impl CreateOrderResponse {
    /// `taler://pay/…` — present whenever the status is unpaid, which a
    /// successful `create_order` guarantees.
    pub fn taler_pay_uri(&self) -> (r: &str)
        requires
            self.status is Unpaid,
        ensures
            self.status matches MerchantOrderStatus::Unpaid(u) && r@ == u.taler_pay_uri@,
    {
        match &self.status {
            MerchantOrderStatus::Unpaid(u) => u.taler_pay_uri.as_str(),
            _ => {
                assert(false);
                ""
            },
        }
    }

    /// Browser status URL of the status payload.
    pub fn order_status_url(&self) -> (r: &str)
        ensures
            r@ == status_page_url(self.status),
    {
        self.status.status_url()
    }

    /// Discriminator string: `"unpaid"` after a successful `create_order`.
    pub fn order_status_str(&self) -> (r: &'static str)
        ensures
            r@ == status_name(self.status),
    {
        self.status.as_str()
    }
}

/// Optional long-poll parameters for status queries.
#[derive(Debug, Clone)]
pub struct StatusQuery {
    /// Long-poll timeout in milliseconds.
    pub timeout_ms: Option<u64>,
    /// Optional session binding.
    pub session_id: Option<String>,
}

impl Default for StatusQuery {
    fn default() -> (r: Self)
        ensures
            r.timeout_ms is None,
            r.session_id is None,
    {
        StatusQuery { timeout_ms: None, session_id: None }
    }
}

/// Absolute timestamp as used across Taler JSON APIs.
#[derive(Debug, Clone, PartialEq)]
pub struct Timestamp {
    /// Seconds since Unix epoch, or the string `"never"` in some contexts.
    pub t_s: Option<Value>,
}

/// Contract terms subset used by order status responses.
///
/// Required commercial fields are typed; the remainder of the contract is
/// preserved in [`ContractTerms::extra`].
#[derive(Debug, Clone, PartialEq)]
pub struct ContractTerms {
    /// Human-readable summary.
    pub summary: String,
    /// Total amount for the contract (v0 orders).
    pub amount: Option<Amount>,
    /// Additional contract-term fields.
    pub extra: serde_json::Map<String, Value>,
}

/// Proto contract terms on unpaid orders (`@since` v25) — same shape as
/// contract terms without a wallet nonce.
pub type ProtoContractTerms = ContractTerms;

/// Private order status: official tagged union on `order_status`.
#[derive(Debug, Clone, PartialEq)]
pub enum MerchantOrderStatus {
    /// Not yet claimed by a wallet.
    Unpaid(CheckPaymentUnpaid),
    /// Claimed by a wallet, payment not completed.
    Claimed(CheckPaymentClaimed),
    /// Fully paid.
    Paid(CheckPaymentPaid),
}

/// Wire discriminator of a status.
pub open spec fn status_name(s: MerchantOrderStatus) -> Seq<char> {
    match s {
        MerchantOrderStatus::Unpaid(_) => "unpaid"@,
        MerchantOrderStatus::Claimed(_) => "claimed"@,
        MerchantOrderStatus::Paid(_) => "paid"@,
    }
}

/// Status / QR page URL of a status (every variant carries one).
pub open spec fn status_page_url(s: MerchantOrderStatus) -> Seq<char> {
    match s {
        MerchantOrderStatus::Unpaid(u) => u.order_status_url@,
        MerchantOrderStatus::Claimed(c) => c.order_status_url@,
        MerchantOrderStatus::Paid(p) => p.order_status_url@,
    }
}

/// Wallet pay URI of a status: present for unpaid orders only.
pub open spec fn status_pay_uri(s: MerchantOrderStatus) -> Option<Seq<char>> {
    match s {
        MerchantOrderStatus::Unpaid(u) => Some(u.taler_pay_uri@),
        _ => None,
    }
}

/// Contract summary of a status: for unpaid orders the deprecated `summary`
/// field, else the proto contract terms' summary; for the others the contract
/// terms' summary.
pub open spec fn status_summary(s: MerchantOrderStatus) -> Option<Seq<char>> {
    match s {
        MerchantOrderStatus::Unpaid(u) => match u.summary {
            Some(x) => Some(x@),
            None => match u.proto_contract_terms {
                Some(c) => Some(c.summary@),
                None => None,
            },
        },
        MerchantOrderStatus::Claimed(c) => Some(c.contract_terms.summary@),
        MerchantOrderStatus::Paid(p) => Some(p.contract_terms.summary@),
    }
}

/// View of an optional borrowed string.
pub open spec fn opt_str_view(o: Option<&str>) -> Option<Seq<char>> {
    match o {
        Some(s) => Some(s@),
        None => None,
    }
}

impl MerchantOrderStatus {
    /// Wire discriminator.
    pub fn as_str(&self) -> (r: &'static str)
        ensures
            r@ == status_name(*self),
    {
        match self {
            MerchantOrderStatus::Unpaid(_) => "unpaid",
            MerchantOrderStatus::Claimed(_) => "claimed",
            MerchantOrderStatus::Paid(_) => "paid",
        }
    }

    /// Whether the order is paid.
    pub fn is_paid(&self) -> (b: bool)
        ensures
            b == (*self is Paid),
    {
        match self {
            MerchantOrderStatus::Paid(_) => true,
            _ => false,
        }
    }

    /// Wallet pay URI (unpaid only).
    pub fn taler_pay_uri(&self) -> (r: Option<&str>)
        ensures
            opt_str_view(r) == status_pay_uri(*self),
    {
        match self {
            MerchantOrderStatus::Unpaid(u) => Some(u.taler_pay_uri.as_str()),
            _ => None,
        }
    }

    /// Status / QR page URL; every status carries one.
    pub fn order_status_url(&self) -> (r: Option<&str>)
        ensures
            opt_str_view(r) == Some(status_page_url(*self)),
    {
        Some(self.status_url())
    }

    /// Status / QR page URL of any status.
    fn status_url(&self) -> (r: &str)
        ensures
            r@ == status_page_url(*self),
    {
        match self {
            MerchantOrderStatus::Unpaid(u) => u.order_status_url.as_str(),
            MerchantOrderStatus::Claimed(c) => c.order_status_url.as_str(),
            MerchantOrderStatus::Paid(p) => p.order_status_url.as_str(),
        }
    }

    /// Contract summary when available.
    pub fn summary(&self) -> (r: Option<&str>)
        ensures
            opt_str_view(r) == status_summary(*self),
    {
        match self {
            MerchantOrderStatus::Unpaid(u) => match &u.summary {
                Some(s) => Some(s.as_str()),
                None => match &u.proto_contract_terms {
                    Some(c) => Some(c.summary.as_str()),
                    None => None,
                },
            },
            MerchantOrderStatus::Claimed(c) => Some(c.contract_terms.summary.as_str()),
            MerchantOrderStatus::Paid(p) => Some(p.contract_terms.summary.as_str()),
        }
    }
}

/// Unpaid private order status (`CheckPaymentUnpaidResponse`).
///
/// Deprecated-but-still-sent fields (`summary`, `pay_deadline`,
/// `total_amount`) remain optional, as does `proto_contract_terms`.
#[derive(Debug, Clone, PartialEq)]
pub struct CheckPaymentUnpaid {
    /// URI that the wallet must process.
    pub taler_pay_uri: String,
    /// Browser status / QR page.
    pub order_status_url: String,
    /// Order creation time.
    pub creation_time: Timestamp,
    /// Pay deadline (deprecated in v25 in favor of proto_contract_terms).
    pub pay_deadline: Option<Timestamp>,
    /// Summary (deprecated in v25).
    pub summary: Option<String>,
    /// Proto contract terms (`@since` v25).
    pub proto_contract_terms: Option<ProtoContractTerms>,
    /// Total amount (deprecated in v25).
    pub total_amount: Option<Amount>,
    /// Already-paid order in the same session.
    pub already_paid_order_id: Option<String>,
    /// Fulfillment URL of an already-paid order in-session.
    pub already_paid_fulfillment_url: Option<String>,
    /// Forward-compatible fields.
    pub extra: serde_json::Map<String, Value>,
}

/// Claimed but unpaid private order status.
#[derive(Debug, Clone, PartialEq)]
pub struct CheckPaymentClaimed {
    /// Contract terms after claim.
    pub contract_terms: ContractTerms,
    /// Browser status / QR page.
    pub order_status_url: String,
    /// Forward-compatible fields.
    pub extra: serde_json::Map<String, Value>,
}

/// Paid private order status (`CheckPaymentPaidResponse`).
#[derive(Debug, Clone, PartialEq)]
pub struct CheckPaymentPaid {
    /// Whether any refund was granted.
    pub refunded: bool,
    /// Approved refunds not yet obtained by the wallet.
    pub refund_pending: bool,
    /// Whether the exchange wired funds to the merchant.
    pub wired: bool,
    /// Total deposited (excluding fees).
    pub deposit_total: Amount,
    /// Exchange tracking error code (0 = none).
    pub exchange_code: i64,
    /// HTTP status from exchange tracking (0 = none).
    pub exchange_http_status: u16,
    /// Total refunded amount (zero if not refunded).
    pub refund_amount: Amount,
    /// Full contract terms.
    pub contract_terms: ContractTerms,
    /// Last payment timestamp (`@since` v14).
    pub last_payment: Timestamp,
    /// Wire transfer details.
    pub wire_details: Vec<Value>,
    /// Per-coin refund details.
    pub refund_details: Vec<Value>,
    /// External refund bookkeeping (`@since` vMixedPayments).
    pub refunds_external: Vec<Value>,
    /// Browser status URL.
    pub order_status_url: String,
    /// Selected choice index (`@since` v21).
    pub choice_index: Option<i32>,
    /// Forward-compatible fields.
    pub extra: serde_json::Map<String, Value>,
}

/// Alias kept for earlier naming in docs/tests.
pub type MerchantOrderStatusResponse = MerchantOrderStatus;

/// Normalized view used by simple callers (CLI). Prefer [`MerchantOrderStatus`].
#[derive(Debug, Clone, PartialEq)]
pub struct OrderStatus {
    /// Order identifier requested.
    pub order_id: String,
    /// Typed backend status.
    pub status: MerchantOrderStatus,
}

impl OrderStatus {
    /// Discriminator string.
    pub fn order_status(&self) -> (r: &'static str)
        ensures
            r@ == status_name(self.status),
    {
        self.status.as_str()
    }

    /// Pay URI when unpaid.
    pub fn taler_pay_uri(&self) -> (r: Option<&str>)
        ensures
            opt_str_view(r) == status_pay_uri(self.status),
    {
        self.status.taler_pay_uri()
    }

    /// Status URL when present.
    pub fn order_status_url(&self) -> (r: Option<&str>)
        ensures
            opt_str_view(r) == Some(status_page_url(self.status)),
    {
        self.status.order_status_url()
    }

    /// Summary when available.
    pub fn summary(&self) -> (r: Option<&str>)
        ensures
            opt_str_view(r) == status_summary(self.status),
    {
        self.status.summary()
    }
}

} // verus!
