//! `taler_merchant` — client logic for the GNU Taler Merchant Backend API:
//! `GET /config`, `POST /private/orders`, `GET /private/orders/{id}`.
//!
//! This crate holds everything that does not touch the network, with
//! machine-checked contracts: the amount grammar, token normalization and
//! redaction, unguessable order ids, URL rules and building, preparation of
//! order bodies, classification of HTTP answers, and the typed order-status
//! model.
//!
//! # Privacy defaults
//!
//! - Prefer [`generate_order_id`] and `create_token: false` so order references
//!   are unguessable without claim tokens. Weak custom IDs are rejected when
//!   claim tokens are disabled.
//! - [`SecretToken`] and [`ClaimToken`] never show their secret in their
//!   displayed or debug forms, and both can be wiped.

pub mod amount;
pub mod auth;
pub mod client;
pub mod error;
pub mod json;
pub mod order_id;
pub mod text;
pub mod types;

pub use amount::{Amount, MAX_AMOUNT_VALUE, MAX_CURRENCY_LEN, MAX_FRACTIONAL_DIGITS};
pub use auth::{ClaimToken, SecretToken};
pub use client::MerchantConfig;
pub use error::MerchantError;
pub use order_id::{
    generate_order_id, is_unguessable_order_id, validate_unguessable_order_id,
    MIN_UNGUESSABLE_ORDER_ID_LEN,
};
pub use types::{
    CheckPaymentClaimed, CheckPaymentPaid, CheckPaymentUnpaid, ContractTerms, CreateOrderRequest,
    CreateOrderResponse, MerchantOrderStatus, MerchantOrderStatusResponse, MerchantVersionResponse,
    OrderDraft, OrderStatus, PostOrderRequest, PostOrderResponse, ProtoContractTerms, StatusQuery,
    Timestamp,
};
