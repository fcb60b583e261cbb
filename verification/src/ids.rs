//! Prefix-typed identifiers for remote objects.
//!
//! Each kind of remote object has its own identifier type, so an invoice
//! identifier cannot be passed where an invoice-item identifier is expected.
//! An identifier is an opaque string that begins with the prefix of its kind.

use crate::strutil::{spec_has_prefix, str_has_prefix};
use vstd::prelude::*;

verus! {

/// Identifier of an invoice item; its string form begins with `ii_`.
pub struct InvoiceItemId {
    value: String,
}

impl View for InvoiceItemId {
    type V = Seq<char>;

    closed spec fn view(&self) -> Seq<char> {
        self.value@
    }
}

impl InvoiceItemId {
    pub open spec fn wf(&self) -> bool {
        spec_has_prefix(self@, "ii_"@)
    }

    /// Parses a plain string into an identifier; accepts exactly the strings
    /// that carry this kind's prefix.
    pub fn from_string(s: String) -> (r: Result<InvoiceItemId, String>)
        ensures
            r is Ok <==> spec_has_prefix(s@, "ii_"@),
            r matches Ok(id) ==> id@ == s@ && id.wf(),
    {
        if str_has_prefix(s.as_str(), "ii_") {
            Ok(InvoiceItemId { value: s })
        } else {
            Err(s)
        }
    }

    pub fn as_str(&self) -> (r: &str)
        ensures
            r@ == self@,
    {
        self.value.as_str()
    }
}

impl Clone for InvoiceItemId {
    fn clone(&self) -> (r: Self)
        ensures
            r@ == self@,
    {
        InvoiceItemId { value: self.value.clone() }
    }
}

/// Identifier of a customer; its string form begins with `cus_`.
pub struct CustomerId {
    value: String,
}

impl View for CustomerId {
    type V = Seq<char>;

    closed spec fn view(&self) -> Seq<char> {
        self.value@
    }
}

impl CustomerId {
    pub open spec fn wf(&self) -> bool {
        spec_has_prefix(self@, "cus_"@)
    }

    /// Parses a plain string into an identifier; accepts exactly the strings
    /// that carry this kind's prefix.
    pub fn from_string(s: String) -> (r: Result<CustomerId, String>)
        ensures
            r is Ok <==> spec_has_prefix(s@, "cus_"@),
            r matches Ok(id) ==> id@ == s@ && id.wf(),
    {
        if str_has_prefix(s.as_str(), "cus_") {
            Ok(CustomerId { value: s })
        } else {
            Err(s)
        }
    }

    pub fn as_str(&self) -> (r: &str)
        ensures
            r@ == self@,
    {
        self.value.as_str()
    }
}

impl Clone for CustomerId {
    fn clone(&self) -> (r: Self)
        ensures
            r@ == self@,
    {
        CustomerId { value: self.value.clone() }
    }
}

/// Identifier of an invoice; its string form begins with `in_`.
pub struct InvoiceId {
    value: String,
}

impl View for InvoiceId {
    type V = Seq<char>;

    closed spec fn view(&self) -> Seq<char> {
        self.value@
    }
}

impl InvoiceId {
    pub open spec fn wf(&self) -> bool {
        spec_has_prefix(self@, "in_"@)
    }

    /// Parses a plain string into an identifier; accepts exactly the strings
    /// that carry this kind's prefix.
    pub fn from_string(s: String) -> (r: Result<InvoiceId, String>)
        ensures
            r is Ok <==> spec_has_prefix(s@, "in_"@),
            r matches Ok(id) ==> id@ == s@ && id.wf(),
    {
        if str_has_prefix(s.as_str(), "in_") {
            Ok(InvoiceId { value: s })
        } else {
            Err(s)
        }
    }

    pub fn as_str(&self) -> (r: &str)
        ensures
            r@ == self@,
    {
        self.value.as_str()
    }
}

impl Clone for InvoiceId {
    fn clone(&self) -> (r: Self)
        ensures
            r@ == self@,
    {
        InvoiceId { value: self.value.clone() }
    }
}

/// Identifier of a subscription; its string form begins with `sub_`.
pub struct SubscriptionId {
    value: String,
}

impl View for SubscriptionId {
    type V = Seq<char>;

    closed spec fn view(&self) -> Seq<char> {
        self.value@
    }
}

impl SubscriptionId {
    pub open spec fn wf(&self) -> bool {
        spec_has_prefix(self@, "sub_"@)
    }

    /// Parses a plain string into an identifier; accepts exactly the strings
    /// that carry this kind's prefix.
    pub fn from_string(s: String) -> (r: Result<SubscriptionId, String>)
        ensures
            r is Ok <==> spec_has_prefix(s@, "sub_"@),
            r matches Ok(id) ==> id@ == s@ && id.wf(),
    {
        if str_has_prefix(s.as_str(), "sub_") {
            Ok(SubscriptionId { value: s })
        } else {
            Err(s)
        }
    }

    pub fn as_str(&self) -> (r: &str)
        ensures
            r@ == self@,
    {
        self.value.as_str()
    }
}

impl Clone for SubscriptionId {
    fn clone(&self) -> (r: Self)
        ensures
            r@ == self@,
    {
        SubscriptionId { value: self.value.clone() }
    }
}

} // verus!
