//! Client-side core for a payment-processing HTTP API.
//!
//! The crate models the plumbing that every resource operation shares:
//! prefix-typed identifiers, request parameter encoding (query strings and
//! form bodies with bracket notation), JSON response decoding, the paginated
//! `List` envelope, the error taxonomy, and webhook signature verification.
//! Network transport is left to the caller: each operation builds a
//! `Request` value and decodes the textual response it is handed back.
//! The crate is synchronous throughout; a caller that wants non-blocking
//! requests runs the transport exchange on its own executor and hands the
//! response text back when it arrives.

pub mod client;
pub mod currency;
pub mod encoding;
pub mod error;
pub mod ids;
pub mod invoiceitem;
pub mod json;
pub mod params;
pub mod strutil;
pub mod webhook;

pub use crate::client::{Client, Method, Request};
pub use crate::currency::Currency;
pub use crate::error::{Error, ErrorCode, ErrorType, RequestError, WebhookError};
pub use crate::ids::{CustomerId, InvoiceId, InvoiceItemId, SubscriptionId};
pub use crate::invoiceitem::{CreateInvoiceItem, Customer, Invoice, InvoiceItem, ListInvoiceItems, Period, Plan, Subscription, TaxRate, UpdateInvoiceItem};
pub use crate::webhook::verify_signature;
pub use crate::params::{Deleted, Expand, Expandable, List, Metadata, RangeBounds, RangeQuery, Timestamp};
