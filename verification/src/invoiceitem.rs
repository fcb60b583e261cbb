//! The invoice-item resource: its record, its request parameter structs,
//! and the request builders and response decoders of its five operations.

use crate::client::{
    error_outcome, query_suffix, spec_status_ok, Client, Method, Request, interpret_response,
};
use crate::currency::Currency;
use crate::encoding::{
    bracket_pairs, indexed_pairs, one_pair, opt_bool_pairs, opt_i64_pairs, opt_str_pairs,
    opt_u64_pairs, opt_view, pair_views, push_bracketed, push_indexed, push_opt_bool,
    push_opt_i64, push_opt_str, push_opt_u64, push_pair,
};
use crate::error::Error;
use crate::ids::{CustomerId, InvoiceId, InvoiceItemId, SubscriptionId};
use crate::json::{
    json_get, get_opt_bool, get_opt_i64, get_opt_string, get_opt_u64, get_req_bool, get_req_str,
    obj_get, opt_bool_ok, opt_bool_val, opt_i64_ok, opt_i64_val, opt_str_matches, opt_str_ok,
    opt_u64_ok, opt_u64_val, req_bool_ok, req_bool_val, req_str_ok, req_str_val, JsonValue,
    json_doc_of,
};
use crate::params::{
    Deleted, Expand, Expandable, List, Metadata, RangeQuery, Timestamp,
};
use crate::strutil::spec_has_prefix;
use vstd::prelude::*;

verus! {

/// The period an invoice item covers.
pub struct Period {
    pub start: Option<Timestamp>,
    pub end: Option<Timestamp>,
}

/// A customer, as far as this resource needs it: its identifier.
pub struct Customer {
    pub id: CustomerId,
}

/// An invoice, as far as this resource needs it: its identifier.
pub struct Invoice {
    pub id: InvoiceId,
}

/// A subscription, as far as this resource needs it: its identifier.
pub struct Subscription {
    pub id: SubscriptionId,
}

/// A billing plan, as far as this resource needs it: its identifier.
pub struct Plan {
    pub id: String,
}

/// A tax rate, as far as this resource needs it: its identifier.
pub struct TaxRate {
    pub id: String,
}

/// The invoice-item record as the API returns it.
pub struct InvoiceItem {
    pub id: InvoiceItemId,
    pub amount: Option<i64>,
    pub currency: Option<Currency>,
    pub customer: Option<Expandable<CustomerId, Customer>>,
    pub date: Option<Timestamp>,
    pub deleted: bool,
    pub description: Option<String>,
    pub discountable: Option<bool>,
    pub invoice: Option<Expandable<InvoiceId, Invoice>>,
    pub livemode: Option<bool>,
    pub metadata: Metadata,
    pub period: Option<Period>,
    pub plan: Option<Plan>,
    pub proration: Option<bool>,
    pub quantity: Option<u64>,
    pub subscription: Option<Expandable<SubscriptionId, Subscription>>,
    pub subscription_item: Option<String>,
    pub tax_rates: Option<Vec<TaxRate>>,
    pub unit_amount: Option<i64>,
}

/// The view of an optional identifier.
pub open spec fn opt_id_view<T: View<V = Seq<char>>>(v: Option<T>) -> Option<Seq<char>> {
    match v {
        Some(x) => Some(x@),
        None => None,
    }
}

/// What an optional period contributes to a pair list.
pub open spec fn period_pairs(p: Option<Period>) -> Seq<(Seq<char>, Seq<char>)> {
    match p {
        None => Seq::empty(),
        Some(pp) => opt_i64_pairs("period[start]"@, pp.start) + opt_i64_pairs(
            "period[end]"@,
            pp.end,
        ),
    }
}

fn push_period(out: &mut Vec<(String, String)>, p: &Option<Period>)
    ensures
        pair_views(final(out)@) == pair_views(old(out)@) + period_pairs(*p),
{
    match p {
        Some(pp) => {
            push_opt_i64(out, "period[start]", &pp.start);
            push_opt_i64(out, "period[end]", &pp.end);
            proof {
                assert(pair_views(out@) =~= pair_views(old(out)@) + period_pairs(*p));
            }
        },
        None => proof {
            assert(pair_views(out@) =~= pair_views(out@) + period_pairs(*p));
        },
    }
}

/// What an optional timestamp range filter contributes under key `created`.
pub open spec fn created_pairs(rq: Option<RangeQuery>) -> Seq<(Seq<char>, Seq<char>)> {
    match rq {
        None => Seq::empty(),
        Some(RangeQuery::Exact(t)) => one_pair("created"@, crate::encoding::dec_str_i64(t as int)),
        Some(RangeQuery::Bounds(b)) => opt_i64_pairs("created[gt]"@, b.gt) + opt_i64_pairs(
            "created[gte]"@,
            b.gte,
        ) + opt_i64_pairs("created[lt]"@, b.lt) + opt_i64_pairs("created[lte]"@, b.lte),
    }
}

fn push_created(out: &mut Vec<(String, String)>, rq: &Option<RangeQuery>)
    ensures
        pair_views(final(out)@) == pair_views(old(out)@) + created_pairs(*rq),
{
    match rq {
        Some(RangeQuery::Exact(t)) => {
            push_pair(out, "created".to_owned(), crate::encoding::i64_string(*t));
        },
        Some(RangeQuery::Bounds(b)) => {
            push_opt_i64(out, "created[gt]", &b.gt);
            push_opt_i64(out, "created[gte]", &b.gte);
            push_opt_i64(out, "created[lt]", &b.lt);
            push_opt_i64(out, "created[lte]", &b.lte);
            proof {
                assert(pair_views(out@) =~= pair_views(old(out)@) + created_pairs(*rq));
            }
        },
        None => proof {
            assert(pair_views(out@) =~= pair_views(out@) + created_pairs(*rq));
        },
    }
}

/// What an optional metadata map contributes: one `metadata[key]` pair per
/// entry, or nothing when unset.
pub open spec fn metadata_pairs(m: Option<Metadata>) -> Seq<(Seq<char>, Seq<char>)> {
    match m {
        None => Seq::empty(),
        Some(md) => bracket_pairs("metadata"@, md@),
    }
}

fn push_metadata(out: &mut Vec<(String, String)>, m: &Option<Metadata>)
    ensures
        pair_views(final(out)@) == pair_views(old(out)@) + metadata_pairs(*m),
{
    match m {
        Some(md) => push_bracketed(out, "metadata", md.entries()),
        None => proof {
            assert(pair_views(out@) =~= pair_views(out@) + metadata_pairs(*m));
        },
    }
}

/// What an optional identifier contributes.
pub open spec fn opt_id_pairs(k: Seq<char>, v: Option<Seq<char>>) -> Seq<(Seq<char>, Seq<char>)> {
    opt_str_pairs(k, v)
}

/// The string views of a string vector.
pub open spec fn string_views(v: Seq<String>) -> Seq<Seq<char>> {
    v.map_values(|s: String| s@)
}

/// What an optional list of tax rate identifiers contributes.
pub open spec fn tax_rates_pairs(v: Option<Vec<String>>) -> Seq<(Seq<char>, Seq<char>)> {
    match v {
        None => Seq::empty(),
        Some(ts) => indexed_pairs("tax_rates"@, string_views(ts@)),
    }
}

fn push_tax_rates(out: &mut Vec<(String, String)>, v: &Option<Vec<String>>)
    ensures
        pair_views(final(out)@) == pair_views(old(out)@) + tax_rates_pairs(*v),
{
    match v {
        Some(ts) => push_indexed(out, "tax_rates", ts),
        None => proof {
            assert(pair_views(out@) =~= pair_views(out@) + tax_rates_pairs(*v));
        },
    }
}

/// The parameters for `InvoiceItem::create`.
pub struct CreateInvoiceItem {
    pub amount: Option<i64>,
    pub currency: Currency,
    pub customer: CustomerId,
    pub description: Option<String>,
    pub discountable: Option<bool>,
    pub expand: Expand,
    pub invoice: Option<InvoiceId>,
    pub metadata: Option<Metadata>,
    pub period: Option<Period>,
    pub quantity: Option<u64>,
    pub subscription: Option<SubscriptionId>,
    pub tax_rates: Option<Vec<String>>,
    pub unit_amount: Option<i64>,
}

impl CreateInvoiceItem {
    /// A creation request for the given currency and customer, every other
    /// field unset.
    pub fn new(currency: Currency, customer: CustomerId) -> (r: CreateInvoiceItem)
        ensures
            r.amount is None,
            r.currency.code_view() == currency.code_view(),
            r.customer@ == customer@,
            r.description is None,
            r.discountable is None,
            r.expand.expand@.len() == 0,
            r.invoice is None,
            r.metadata is None,
            r.period is None,
            r.quantity is None,
            r.subscription is None,
            r.tax_rates is None,
            r.unit_amount is None,
    {
        CreateInvoiceItem {
            amount: None,
            currency,
            customer,
            description: None,
            discountable: None,
            expand: Expand::new(),
            invoice: None,
            metadata: None,
            period: None,
            quantity: None,
            subscription: None,
            tax_rates: None,
            unit_amount: None,
        }
    }

    /// The wire form of these parameters: each set field in declaration
    /// order, unset fields omitted, the expand list indexed, metadata and
    /// period flattened with bracket notation.
    pub open spec fn pairs_view(&self) -> Seq<(Seq<char>, Seq<char>)> {
        opt_i64_pairs("amount"@, self.amount) + one_pair("currency"@, self.currency.code_view())
            + one_pair("customer"@, self.customer@) + opt_str_pairs(
            "description"@,
            opt_view(self.description),
        ) + opt_bool_pairs("discountable"@, self.discountable) + indexed_pairs(
            "expand"@,
            string_views(self.expand.expand@),
        ) + opt_id_pairs("invoice"@, opt_id_view(self.invoice)) + metadata_pairs(self.metadata)
            + period_pairs(self.period) + opt_u64_pairs("quantity"@, self.quantity) + opt_id_pairs(
            "subscription"@,
            opt_id_view(self.subscription),
        ) + tax_rates_pairs(self.tax_rates) + opt_i64_pairs("unit_amount"@, self.unit_amount)
    }

    /// Encodes these parameters as wire pairs.
    pub fn to_pairs(&self) -> (r: Vec<(String, String)>)
        ensures
            pair_views(r@) == self.pairs_view(),
    {
        let mut out: Vec<(String, String)> = Vec::new();
        push_opt_i64(&mut out, "amount", &self.amount);
        push_pair(&mut out, "currency".to_owned(), self.currency.code());
        push_pair(&mut out, "customer".to_owned(), self.customer.as_str().to_owned());
        push_opt_str(&mut out, "description", &self.description);
        push_opt_bool(&mut out, "discountable", &self.discountable);
        push_indexed(&mut out, "expand", &self.expand.expand);
        match &self.invoice {
            Some(id) => push_pair(&mut out, "invoice".to_owned(), id.as_str().to_owned()),
            None => (),
        }
        push_metadata(&mut out, &self.metadata);
        push_period(&mut out, &self.period);
        push_opt_u64(&mut out, "quantity", &self.quantity);
        match &self.subscription {
            Some(id) => push_pair(&mut out, "subscription".to_owned(), id.as_str().to_owned()),
            None => (),
        }
        push_tax_rates(&mut out, &self.tax_rates);
        push_opt_i64(&mut out, "unit_amount", &self.unit_amount);
        proof {
            assert(pair_views(out@) =~= self.pairs_view());
        }
        out
    }
}

/// Every field left unset by the caller is omitted from the encoded
/// request: a creation request with nothing set beyond the two required
/// fields encodes exactly its currency and customer, in that order.
pub proof fn lemma_unset_create_fields_omitted(p: CreateInvoiceItem)
    requires
        p.amount is None,
        p.description is None,
        p.discountable is None,
        p.expand.expand@.len() == 0,
        p.invoice is None,
        p.metadata is None,
        p.period is None,
        p.quantity is None,
        p.subscription is None,
        p.tax_rates is None,
        p.unit_amount is None,
    ensures
        p.pairs_view() =~= seq![
            ("currency"@, p.currency.code_view()),
            ("customer"@, p.customer@),
        ],
{
    crate::encoding::lemma_indexed_pairs("expand"@, string_views(p.expand.expand@));
}

/// The parameters for `InvoiceItem::list`.
pub struct ListInvoiceItems {
    pub created: Option<RangeQuery>,
    pub customer: Option<CustomerId>,
    pub ending_before: Option<InvoiceItemId>,
    pub expand: Expand,
    pub invoice: Option<InvoiceId>,
    pub limit: Option<u64>,
    pub pending: Option<bool>,
    pub starting_after: Option<InvoiceItemId>,
}

impl ListInvoiceItems {
    /// A listing request with no filter, cursor, limit or expansion set.
    pub fn new() -> (r: ListInvoiceItems)
        ensures
            r.created is None,
            r.customer is None,
            r.ending_before is None,
            r.expand.expand@.len() == 0,
            r.invoice is None,
            r.limit is None,
            r.pending is None,
            r.starting_after is None,
    {
        ListInvoiceItems {
            created: None,
            customer: None,
            ending_before: None,
            expand: Expand::new(),
            invoice: None,
            limit: None,
            pending: None,
            starting_after: None,
        }
    }

    /// The wire form of these parameters: each set field in declaration
    /// order, unset fields omitted.
    pub open spec fn pairs_view(&self) -> Seq<(Seq<char>, Seq<char>)> {
        created_pairs(self.created) + opt_id_pairs("customer"@, opt_id_view(self.customer))
            + opt_id_pairs("ending_before"@, opt_id_view(self.ending_before)) + indexed_pairs(
            "expand"@,
            string_views(self.expand.expand@),
        ) + opt_id_pairs("invoice"@, opt_id_view(self.invoice)) + opt_u64_pairs(
            "limit"@,
            self.limit,
        ) + opt_bool_pairs("pending"@, self.pending) + opt_id_pairs(
            "starting_after"@,
            opt_id_view(self.starting_after),
        )
    }

    /// Encodes these parameters as wire pairs.
    pub fn to_pairs(&self) -> (r: Vec<(String, String)>)
        ensures
            pair_views(r@) == self.pairs_view(),
    {
        let mut out: Vec<(String, String)> = Vec::new();
        push_created(&mut out, &self.created);
        match &self.customer {
            Some(id) => push_pair(&mut out, "customer".to_owned(), id.as_str().to_owned()),
            None => (),
        }
        match &self.ending_before {
            Some(id) => push_pair(&mut out, "ending_before".to_owned(), id.as_str().to_owned()),
            None => (),
        }
        push_indexed(&mut out, "expand", &self.expand.expand);
        match &self.invoice {
            Some(id) => push_pair(&mut out, "invoice".to_owned(), id.as_str().to_owned()),
            None => (),
        }
        push_opt_u64(&mut out, "limit", &self.limit);
        push_opt_bool(&mut out, "pending", &self.pending);
        match &self.starting_after {
            Some(id) => push_pair(&mut out, "starting_after".to_owned(), id.as_str().to_owned()),
            None => (),
        }
        proof {
            assert(pair_views(out@) =~= self.pairs_view());
        }
        out
    }
}

/// The parameters for `InvoiceItem::update`.
pub struct UpdateInvoiceItem {
    pub amount: Option<i64>,
    pub description: Option<String>,
    pub discountable: Option<bool>,
    pub expand: Expand,
    pub metadata: Option<Metadata>,
    pub period: Option<Period>,
    pub quantity: Option<u64>,
    pub tax_rates: Option<Vec<String>>,
    pub unit_amount: Option<i64>,
}

impl UpdateInvoiceItem {
    /// An update request with every field unset: sending it changes nothing.
    pub fn new() -> (r: UpdateInvoiceItem)
        ensures
            r.amount is None,
            r.description is None,
            r.discountable is None,
            r.expand.expand@.len() == 0,
            r.metadata is None,
            r.period is None,
            r.quantity is None,
            r.tax_rates is None,
            r.unit_amount is None,
    {
        UpdateInvoiceItem {
            amount: None,
            description: None,
            discountable: None,
            expand: Expand::new(),
            metadata: None,
            period: None,
            quantity: None,
            tax_rates: None,
            unit_amount: None,
        }
    }

    /// The wire form of these parameters: each set field in declaration
    /// order, unset fields omitted.
    pub open spec fn pairs_view(&self) -> Seq<(Seq<char>, Seq<char>)> {
        opt_i64_pairs("amount"@, self.amount) + opt_str_pairs(
            "description"@,
            opt_view(self.description),
        ) + opt_bool_pairs("discountable"@, self.discountable) + indexed_pairs(
            "expand"@,
            string_views(self.expand.expand@),
        ) + metadata_pairs(self.metadata) + period_pairs(self.period) + opt_u64_pairs(
            "quantity"@,
            self.quantity,
        ) + tax_rates_pairs(self.tax_rates) + opt_i64_pairs("unit_amount"@, self.unit_amount)
    }

    /// Encodes these parameters as wire pairs.
    pub fn to_pairs(&self) -> (r: Vec<(String, String)>)
        ensures
            pair_views(r@) == self.pairs_view(),
    {
        let mut out: Vec<(String, String)> = Vec::new();
        push_opt_i64(&mut out, "amount", &self.amount);
        push_opt_str(&mut out, "description", &self.description);
        push_opt_bool(&mut out, "discountable", &self.discountable);
        push_indexed(&mut out, "expand", &self.expand.expand);
        push_metadata(&mut out, &self.metadata);
        push_period(&mut out, &self.period);
        push_opt_u64(&mut out, "quantity", &self.quantity);
        push_tax_rates(&mut out, &self.tax_rates);
        push_opt_i64(&mut out, "unit_amount", &self.unit_amount);
        proof {
            assert(pair_views(out@) =~= self.pairs_view());
        }
        out
    }
}

/// An update with every field unset encodes no pairs at all: sending it
/// asks the server to change nothing.
pub proof fn lemma_unset_update_fields_omitted(p: UpdateInvoiceItem)
    requires
        p.amount is None,
        p.description is None,
        p.discountable is None,
        p.expand.expand@.len() == 0,
        p.metadata is None,
        p.period is None,
        p.quantity is None,
        p.tax_rates is None,
        p.unit_amount is None,
    ensures
        p.pairs_view() =~= Seq::<(Seq<char>, Seq<char>)>::empty(),
{
    crate::encoding::lemma_indexed_pairs("expand"@, string_views(p.expand.expand@));
}

/// A well-shaped optional currency field: absent, null, or a string.
pub open spec fn opt_currency_matches(f: Option<Currency>, g: Option<JsonValue>) -> bool {
    match g {
        Some(JsonValue::Str(s)) => f matches Some(c) && c.code_view() == s@,
        _ => f is None,
    }
}

fn decode_currency_field(entries: &Vec<(String, JsonValue)>) -> (r: Result<Option<Currency>, ()>)
    ensures
        r is Ok <==> opt_str_ok(json_get(entries@, "currency"@)),
        r matches Ok(f) ==> opt_currency_matches(f, json_get(entries@, "currency"@)),
{
    match obj_get(entries, "currency") {
        None => Ok(None),
        Some(JsonValue::Null) => Ok(None),
        Some(JsonValue::Str(s)) => Ok(Some(Currency::from_code(s.as_str()))),
        Some(_) => Err(()),
    }
}

/// A well-shaped expandable reference: absent, null, an identifier string
/// with the right prefix, or an object whose `id` member is such a string.
pub open spec fn exp_ok(g: Option<JsonValue>, prefix: Seq<char>) -> bool {
    match g {
        None => true,
        Some(JsonValue::Null) => true,
        Some(JsonValue::Str(s)) => spec_has_prefix(s@, prefix),
        Some(JsonValue::Obj(fs)) => req_str_ok(json_get(fs@, "id"@)) && spec_has_prefix(
            req_str_val(json_get(fs@, "id"@)),
            prefix,
        ),
        _ => false,
    }
}

/// Whether a decoded customer reference reflects its member: a string
/// becomes the bare identifier, an object the expanded form.
pub open spec fn exp_customer_matches(
    f: Option<Expandable<CustomerId, Customer>>,
    g: Option<JsonValue>,
) -> bool {
    match g {
        Some(JsonValue::Str(s)) => f matches Some(e) && e matches Expandable::Id(id) && id@ == s@,
        Some(JsonValue::Obj(fs)) => f matches Some(e) && e matches Expandable::Object(c) && c.id@
            == req_str_val(json_get(fs@, "id"@)),
        _ => f is None,
    }
}

fn decode_customer_field(entries: &Vec<(String, JsonValue)>) -> (r: Result<
    Option<Expandable<CustomerId, Customer>>,
    (),
>)
    ensures
        r is Ok <==> exp_ok(json_get(entries@, "customer"@), "cus_"@),
        r matches Ok(f) ==> exp_customer_matches(f, json_get(entries@, "customer"@)),
{
    match obj_get(entries, "customer") {
        None => Ok(None),
        Some(JsonValue::Null) => Ok(None),
        Some(JsonValue::Str(s)) => match CustomerId::from_string(s.clone()) {
            Ok(id) => Ok(Some(Expandable::Id(id))),
            Err(_) => Err(()),
        },
        Some(JsonValue::Obj(fs)) => match get_req_str(fs, "id") {
            Ok(s) => match CustomerId::from_string(s.clone()) {
                Ok(id) => Ok(Some(Expandable::Object(Box::new(Customer { id })))),
                Err(_) => Err(()),
            },
            Err(_) => Err(()),
        },
        Some(_) => Err(()),
    }
}

/// Whether a decoded invoice reference reflects its member.
pub open spec fn exp_invoice_matches(
    f: Option<Expandable<InvoiceId, Invoice>>,
    g: Option<JsonValue>,
) -> bool {
    match g {
        Some(JsonValue::Str(s)) => f matches Some(e) && e matches Expandable::Id(id) && id@ == s@,
        Some(JsonValue::Obj(fs)) => f matches Some(e) && e matches Expandable::Object(v) && v.id@
            == req_str_val(json_get(fs@, "id"@)),
        _ => f is None,
    }
}

fn decode_invoice_field(entries: &Vec<(String, JsonValue)>) -> (r: Result<
    Option<Expandable<InvoiceId, Invoice>>,
    (),
>)
    ensures
        r is Ok <==> exp_ok(json_get(entries@, "invoice"@), "in_"@),
        r matches Ok(f) ==> exp_invoice_matches(f, json_get(entries@, "invoice"@)),
{
    match obj_get(entries, "invoice") {
        None => Ok(None),
        Some(JsonValue::Null) => Ok(None),
        Some(JsonValue::Str(s)) => match InvoiceId::from_string(s.clone()) {
            Ok(id) => Ok(Some(Expandable::Id(id))),
            Err(_) => Err(()),
        },
        Some(JsonValue::Obj(fs)) => match get_req_str(fs, "id") {
            Ok(s) => match InvoiceId::from_string(s.clone()) {
                Ok(id) => Ok(Some(Expandable::Object(Box::new(Invoice { id })))),
                Err(_) => Err(()),
            },
            Err(_) => Err(()),
        },
        Some(_) => Err(()),
    }
}

/// Whether a decoded subscription reference reflects its member.
pub open spec fn exp_subscription_matches(
    f: Option<Expandable<SubscriptionId, Subscription>>,
    g: Option<JsonValue>,
) -> bool {
    match g {
        Some(JsonValue::Str(s)) => f matches Some(e) && e matches Expandable::Id(id) && id@ == s@,
        Some(JsonValue::Obj(fs)) => f matches Some(e) && e matches Expandable::Object(v) && v.id@
            == req_str_val(json_get(fs@, "id"@)),
        _ => f is None,
    }
}

fn decode_subscription_field(entries: &Vec<(String, JsonValue)>) -> (r: Result<
    Option<Expandable<SubscriptionId, Subscription>>,
    (),
>)
    ensures
        r is Ok <==> exp_ok(json_get(entries@, "subscription"@), "sub_"@),
        r matches Ok(f) ==> exp_subscription_matches(f, json_get(entries@, "subscription"@)),
{
    match obj_get(entries, "subscription") {
        None => Ok(None),
        Some(JsonValue::Null) => Ok(None),
        Some(JsonValue::Str(s)) => match SubscriptionId::from_string(s.clone()) {
            Ok(id) => Ok(Some(Expandable::Id(id))),
            Err(_) => Err(()),
        },
        Some(JsonValue::Obj(fs)) => match get_req_str(fs, "id") {
            Ok(s) => match SubscriptionId::from_string(s.clone()) {
                Ok(id) => Ok(Some(Expandable::Object(Box::new(Subscription { id })))),
                Err(_) => Err(()),
            },
            Err(_) => Err(()),
        },
        Some(_) => Err(()),
    }
}

/// A well-shaped metadata member: absent, null, or an object whose values
/// are strings and whose keys are pairwise distinct.
pub open spec fn metadata_obj_ok(g: Option<JsonValue>) -> bool {
    match g {
        None => true,
        Some(JsonValue::Null) => true,
        Some(JsonValue::Obj(fs)) => (forall|i: int|
            0 <= i < fs@.len() ==> (#[trigger] fs@[i].1) matches JsonValue::Str(_)) && (forall|
            i: int,
            j: int,
        |
            0 <= i < j < fs@.len() ==> (#[trigger] fs@[i].0@) != (#[trigger] fs@[j].0@)),
        _ => false,
    }
}

/// The entries of a string-valued JSON object, as character pairs.
pub open spec fn json_str_entries(fs: Seq<(String, JsonValue)>) -> Seq<(Seq<char>, Seq<char>)> {
    fs.map_values(
        |p: (String, JsonValue)|
            (
                p.0@,
                match p.1 {
                    JsonValue::Str(s) => s@,
                    _ => Seq::<char>::empty(),
                },
            ),
    )
}

/// Whether decoded metadata reflects its member entry for entry; an absent
/// or null member decodes to the empty map.
pub open spec fn metadata_matches(m: Metadata, g: Option<JsonValue>) -> bool {
    match g {
        Some(JsonValue::Obj(fs)) => m@ == json_str_entries(fs@),
        _ => m@ == Seq::<(Seq<char>, Seq<char>)>::empty(),
    }
}

fn decode_metadata_field(entries: &Vec<(String, JsonValue)>) -> (r: Result<Metadata, ()>)
    ensures
        r is Ok <==> metadata_obj_ok(json_get(entries@, "metadata"@)),
        r matches Ok(m) ==> metadata_matches(m, json_get(entries@, "metadata"@)) && m.wf(),
{
    match obj_get(entries, "metadata") {
        None => Ok(Metadata::new()),
        Some(JsonValue::Null) => Ok(Metadata::new()),
        Some(JsonValue::Obj(fs)) => {
            let mut m = Metadata::new();
            let n = fs.len();
            let mut i: usize = 0;
            while i < n
                invariant
                    i <= n,
                    n == fs@.len(),
                    json_get(entries@, "metadata"@) == Some(JsonValue::Obj(*fs)),
                    m.wf(),
                    m@ == json_str_entries(fs@).take(i as int),
                    forall|j: int|
                        0 <= j < i ==> (#[trigger] fs@[j].1) matches JsonValue::Str(_),
                decreases n - i,
            {
                match &fs[i].1 {
                    JsonValue::Str(s) => {
                        if m.contains_key(fs[i].0.as_str()) {
                            proof {
                                crate::params::lemma_lookup_some_means_present(m@, fs@[i as int].0@);
                                let j = choose|j: int|
                                    0 <= j < m@.len() && (#[trigger] m@[j].0) == fs@[i as int].0@;
                                assert(m@[j] == json_str_entries(fs@).take(i as int)[j]);
                                assert(json_str_entries(fs@)[j].0 == fs@[j].0@);
                                assert(fs@[j].0@ == fs@[i as int].0@);
                            }
                            return Err(());
                        }
                        m.insert(fs[i].0.clone(), s.clone());
                        proof {
                            assert(json_str_entries(fs@)[i as int] == (
                                fs@[i as int].0@,
                                match fs@[i as int].1 {
                                    JsonValue::Str(s) => s@,
                                    _ => Seq::<char>::empty(),
                                },
                            ));
                            assert(json_str_entries(fs@).take(i + 1) =~= json_str_entries(
                                fs@,
                            ).take(i as int).push(json_str_entries(fs@)[i as int]));
                        }
                    },
                    _ => {
                        proof {
                            assert(!(fs@[i as int].1 matches JsonValue::Str(_)));
                        }
                        return Err(());
                    },
                }
                i += 1;
            }
            proof {
                assert(json_str_entries(fs@).take(n as int) =~= json_str_entries(fs@));
                assert forall|i0: int, j0: int| 0 <= i0 < j0 < fs@.len() implies (
                #[trigger] fs@[i0].0@) != (#[trigger] fs@[j0].0@) by {
                    assert(m@[i0].0 == fs@[i0].0@);
                    assert(m@[j0].0 == fs@[j0].0@);
                }
            }
            Ok(m)
        },
        Some(_) => Err(()),
    }
}

/// A well-shaped period member: absent, null, or an object with optional
/// integer `start` and `end`.
pub open spec fn period_obj_ok(g: Option<JsonValue>) -> bool {
    match g {
        None => true,
        Some(JsonValue::Null) => true,
        Some(JsonValue::Obj(fs)) => opt_i64_ok(json_get(fs@, "start"@)) && opt_i64_ok(
            json_get(fs@, "end"@),
        ),
        _ => false,
    }
}

/// Whether a decoded period reflects its member.
pub open spec fn period_matches(f: Option<Period>, g: Option<JsonValue>) -> bool {
    match g {
        Some(JsonValue::Obj(fs)) => f matches Some(p) && p.start == opt_i64_val(
            json_get(fs@, "start"@),
        ) && p.end == opt_i64_val(json_get(fs@, "end"@)),
        _ => f is None,
    }
}

fn decode_period_field(entries: &Vec<(String, JsonValue)>) -> (r: Result<Option<Period>, ()>)
    ensures
        r is Ok <==> period_obj_ok(json_get(entries@, "period"@)),
        r matches Ok(f) ==> period_matches(f, json_get(entries@, "period"@)),
{
    match obj_get(entries, "period") {
        None => Ok(None),
        Some(JsonValue::Null) => Ok(None),
        Some(JsonValue::Obj(fs)) => {
            let start = match get_opt_i64(fs, "start") {
                Ok(v) => v,
                Err(_) => {
                    return Err(());
                },
            };
            let end = match get_opt_i64(fs, "end") {
                Ok(v) => v,
                Err(_) => {
                    return Err(());
                },
            };
            Ok(Some(Period { start, end }))
        },
        Some(_) => Err(()),
    }
}

/// A well-shaped plan member: absent, null, or an object with a string `id`.
pub open spec fn plan_obj_ok(g: Option<JsonValue>) -> bool {
    match g {
        None => true,
        Some(JsonValue::Null) => true,
        Some(JsonValue::Obj(fs)) => req_str_ok(json_get(fs@, "id"@)),
        _ => false,
    }
}

/// Whether a decoded plan reflects its member.
pub open spec fn plan_matches(f: Option<Plan>, g: Option<JsonValue>) -> bool {
    match g {
        Some(JsonValue::Obj(fs)) => f matches Some(p) && p.id@ == req_str_val(
            json_get(fs@, "id"@),
        ),
        _ => f is None,
    }
}

fn decode_plan_field(entries: &Vec<(String, JsonValue)>) -> (r: Result<Option<Plan>, ()>)
    ensures
        r is Ok <==> plan_obj_ok(json_get(entries@, "plan"@)),
        r matches Ok(f) ==> plan_matches(f, json_get(entries@, "plan"@)),
{
    match obj_get(entries, "plan") {
        None => Ok(None),
        Some(JsonValue::Null) => Ok(None),
        Some(JsonValue::Obj(fs)) => match get_req_str(fs, "id") {
            Ok(s) => Ok(Some(Plan { id: s.clone() })),
            Err(_) => Err(()),
        },
        Some(_) => Err(()),
    }
}

/// A well-shaped tax rate element: an object with a string `id`.
pub open spec fn tr_item_ok(v: JsonValue) -> bool {
    v matches JsonValue::Obj(fs) && req_str_ok(json_get(fs@, "id"@))
}

/// The identifier of a tax rate element.
pub open spec fn tr_item_id(v: JsonValue) -> Seq<char> {
    match v {
        JsonValue::Obj(fs) => req_str_val(json_get(fs@, "id"@)),
        _ => Seq::empty(),
    }
}

/// Every element of a tax rate array is well-shaped.
pub open spec fn tr_items_ok(elems: Seq<JsonValue>) -> bool {
    forall|i: int| 0 <= i < elems.len() ==> tr_item_ok(#[trigger] elems[i])
}

/// A well-shaped tax rates member: absent, null, or an array of tax rate
/// objects.
pub open spec fn tax_rates_obj_ok(g: Option<JsonValue>) -> bool {
    match g {
        None => true,
        Some(JsonValue::Null) => true,
        Some(JsonValue::Arr(items)) => tr_items_ok(items@),
        _ => false,
    }
}

/// Whether decoded tax rates reflect their member element for element.
pub open spec fn tax_rates_matches(f: Option<Vec<TaxRate>>, g: Option<JsonValue>) -> bool {
    match g {
        Some(JsonValue::Arr(items)) => f matches Some(v) && v@.len() == items@.len() && (forall|
            i: int,
        |
            0 <= i < v@.len() ==> (#[trigger] v@[i].id@) == tr_item_id(items@[i])),
        _ => f is None,
    }
}

fn decode_tax_rates_field(entries: &Vec<(String, JsonValue)>) -> (r: Result<
    Option<Vec<TaxRate>>,
    (),
>)
    ensures
        r is Ok <==> tax_rates_obj_ok(json_get(entries@, "tax_rates"@)),
        r matches Ok(f) ==> tax_rates_matches(f, json_get(entries@, "tax_rates"@)),
{
    match obj_get(entries, "tax_rates") {
        None => Ok(None),
        Some(JsonValue::Null) => Ok(None),
        Some(JsonValue::Arr(items)) => {
            let mut out: Vec<TaxRate> = Vec::new();
            let n = items.len();
            let mut i: usize = 0;
            while i < n
                invariant
                    i <= n,
                    n == items@.len(),
                    json_get(entries@, "tax_rates"@) == Some(JsonValue::Arr(*items)),
                    out@.len() == i,
                    forall|j: int| 0 <= j < i ==> tr_item_ok(#[trigger] items@[j]),
                    forall|j: int|
                        0 <= j < i ==> (#[trigger] out@[j].id@) == tr_item_id(items@[j]),
                decreases n - i,
            {
                match &items[i] {
                    JsonValue::Obj(fs) => match get_req_str(fs, "id") {
                        Ok(s) => out.push(TaxRate { id: s.clone() }),
                        Err(_) => {
                            proof {
                                assert(!tr_item_ok(items@[i as int]));
                                assert(!tr_items_ok(items@));
                            }
                            return Err(());
                        },
                    },
                    _ => {
                        proof {
                            assert(!tr_item_ok(items@[i as int]));
                            assert(!tr_items_ok(items@));
                        }
                        return Err(());
                    },
                }
                i += 1;
            }
            Ok(Some(out))
        },
        Some(_) => Err(()),
    }
}

/// A well-shaped invoice-item object: a string `id` carrying this kind's
/// prefix, and every member this crate knows carrying its expected shape.
/// Members this crate does not know are ignored.
pub open spec fn ii_obj_ok(es: Seq<(String, JsonValue)>) -> bool {
    &&& req_str_ok(json_get(es, "id"@))
    &&& spec_has_prefix(req_str_val(json_get(es, "id"@)), "ii_"@)
    &&& opt_i64_ok(json_get(es, "amount"@))
    &&& opt_str_ok(json_get(es, "currency"@))
    &&& exp_ok(json_get(es, "customer"@), "cus_"@)
    &&& opt_i64_ok(json_get(es, "date"@))
    &&& opt_bool_ok(json_get(es, "deleted"@))
    &&& opt_str_ok(json_get(es, "description"@))
    &&& opt_bool_ok(json_get(es, "discountable"@))
    &&& exp_ok(json_get(es, "invoice"@), "in_"@)
    &&& opt_bool_ok(json_get(es, "livemode"@))
    &&& metadata_obj_ok(json_get(es, "metadata"@))
    &&& period_obj_ok(json_get(es, "period"@))
    &&& plan_obj_ok(json_get(es, "plan"@))
    &&& opt_bool_ok(json_get(es, "proration"@))
    &&& opt_u64_ok(json_get(es, "quantity"@))
    &&& exp_ok(json_get(es, "subscription"@), "sub_"@)
    &&& opt_str_ok(json_get(es, "subscription_item"@))
    &&& tax_rates_obj_ok(json_get(es, "tax_rates"@))
    &&& opt_i64_ok(json_get(es, "unit_amount"@))
}

/// Whether a decoded record reflects an invoice-item object member for
/// member. The `deleted` flag defaults to false when absent.
pub open spec fn ii_matches(it: InvoiceItem, es: Seq<(String, JsonValue)>) -> bool {
    &&& it.id@ == req_str_val(json_get(es, "id"@))
    &&& it.amount == opt_i64_val(json_get(es, "amount"@))
    &&& opt_currency_matches(it.currency, json_get(es, "currency"@))
    &&& exp_customer_matches(it.customer, json_get(es, "customer"@))
    &&& it.date == opt_i64_val(json_get(es, "date"@))
    &&& it.deleted == (match json_get(es, "deleted"@) {
        Some(JsonValue::Bool(b)) => b,
        _ => false,
    })
    &&& opt_str_matches(it.description, json_get(es, "description"@))
    &&& it.discountable == opt_bool_val(json_get(es, "discountable"@))
    &&& exp_invoice_matches(it.invoice, json_get(es, "invoice"@))
    &&& it.livemode == opt_bool_val(json_get(es, "livemode"@))
    &&& metadata_matches(it.metadata, json_get(es, "metadata"@))
    &&& period_matches(it.period, json_get(es, "period"@))
    &&& plan_matches(it.plan, json_get(es, "plan"@))
    &&& it.proration == opt_bool_val(json_get(es, "proration"@))
    &&& it.quantity == opt_u64_val(json_get(es, "quantity"@))
    &&& exp_subscription_matches(it.subscription, json_get(es, "subscription"@))
    &&& opt_str_matches(it.subscription_item, json_get(es, "subscription_item"@))
    &&& tax_rates_matches(it.tax_rates, json_get(es, "tax_rates"@))
    &&& it.unit_amount == opt_i64_val(json_get(es, "unit_amount"@))
}

impl InvoiceItem {
    /// Decodes one invoice-item record from a JSON document. Succeeds
    /// exactly on a well-shaped object; members this crate does not know
    /// are ignored for forward compatibility.
    pub fn from_json(v: &JsonValue) -> (r: Result<InvoiceItem, Error>)
        ensures
            r is Ok <==> (*v matches JsonValue::Obj(es) && ii_obj_ok(es@)),
            r matches Ok(it) ==> (*v matches JsonValue::Obj(es) && ii_matches(it, es@)),
            r matches Err(e) ==> e matches Error::Decode(_),
    {
        let es = match v {
            JsonValue::Obj(es) => es,
            _ => {
                return Err(Error::Decode("an invoice item must be a JSON object".to_owned()));
            },
        };
        let id_s = match get_req_str(es, "id") {
            Ok(s) => s,
            Err(_) => {
                return Err(Error::Decode("invoice item: missing string id".to_owned()));
            },
        };
        let id = match InvoiceItemId::from_string(id_s.clone()) {
            Ok(id) => id,
            Err(_) => {
                return Err(Error::Decode("invoice item: id lacks its prefix".to_owned()));
            },
        };
        let amount = match get_opt_i64(es, "amount") {
            Ok(f) => f,
            Err(_) => {
                return Err(Error::Decode("invoice item: malformed amount".to_owned()));
            },
        };
        let currency = match decode_currency_field(es) {
            Ok(f) => f,
            Err(_) => {
                return Err(Error::Decode("invoice item: malformed currency".to_owned()));
            },
        };
        let customer = match decode_customer_field(es) {
            Ok(f) => f,
            Err(_) => {
                return Err(Error::Decode("invoice item: malformed customer".to_owned()));
            },
        };
        let date = match get_opt_i64(es, "date") {
            Ok(f) => f,
            Err(_) => {
                return Err(Error::Decode("invoice item: malformed date".to_owned()));
            },
        };
        let deleted = match get_opt_bool(es, "deleted") {
            Ok(f) => match f {
                Some(b) => b,
                None => false,
            },
            Err(_) => {
                return Err(Error::Decode("invoice item: malformed deleted flag".to_owned()));
            },
        };
        let description = match get_opt_string(es, "description") {
            Ok(f) => f,
            Err(_) => {
                return Err(Error::Decode("invoice item: malformed description".to_owned()));
            },
        };
        let discountable = match get_opt_bool(es, "discountable") {
            Ok(f) => f,
            Err(_) => {
                return Err(Error::Decode("invoice item: malformed discountable".to_owned()));
            },
        };
        let invoice = match decode_invoice_field(es) {
            Ok(f) => f,
            Err(_) => {
                return Err(Error::Decode("invoice item: malformed invoice".to_owned()));
            },
        };
        let livemode = match get_opt_bool(es, "livemode") {
            Ok(f) => f,
            Err(_) => {
                return Err(Error::Decode("invoice item: malformed livemode".to_owned()));
            },
        };
        let metadata = match decode_metadata_field(es) {
            Ok(f) => f,
            Err(_) => {
                return Err(Error::Decode("invoice item: malformed metadata".to_owned()));
            },
        };
        let period = match decode_period_field(es) {
            Ok(f) => f,
            Err(_) => {
                return Err(Error::Decode("invoice item: malformed period".to_owned()));
            },
        };
        let plan = match decode_plan_field(es) {
            Ok(f) => f,
            Err(_) => {
                return Err(Error::Decode("invoice item: malformed plan".to_owned()));
            },
        };
        let proration = match get_opt_bool(es, "proration") {
            Ok(f) => f,
            Err(_) => {
                return Err(Error::Decode("invoice item: malformed proration".to_owned()));
            },
        };
        let quantity = match get_opt_u64(es, "quantity") {
            Ok(f) => f,
            Err(_) => {
                return Err(Error::Decode("invoice item: malformed quantity".to_owned()));
            },
        };
        let subscription = match decode_subscription_field(es) {
            Ok(f) => f,
            Err(_) => {
                return Err(Error::Decode("invoice item: malformed subscription".to_owned()));
            },
        };
        let subscription_item = match get_opt_string(es, "subscription_item") {
            Ok(f) => f,
            Err(_) => {
                return Err(Error::Decode("invoice item: malformed subscription_item".to_owned()));
            },
        };
        let tax_rates = match decode_tax_rates_field(es) {
            Ok(f) => f,
            Err(_) => {
                return Err(Error::Decode("invoice item: malformed tax_rates".to_owned()));
            },
        };
        let unit_amount = match get_opt_i64(es, "unit_amount") {
            Ok(f) => f,
            Err(_) => {
                return Err(Error::Decode("invoice item: malformed unit_amount".to_owned()));
            },
        };
        Ok(
            InvoiceItem {
                id,
                amount,
                currency,
                customer,
                date,
                deleted,
                description,
                discountable,
                invoice,
                livemode,
                metadata,
                period,
                plan,
                proration,
                quantity,
                subscription,
                subscription_item,
                tax_rates,
                unit_amount,
            },
        )
    }
}

/// A well-shaped list element: an invoice-item object.
pub open spec fn ii_item_ok(v: JsonValue) -> bool {
    v matches JsonValue::Obj(fs) && ii_obj_ok(fs@)
}

/// Every element of a list's data array is well-shaped.
pub open spec fn ii_items_ok(elems: Seq<JsonValue>) -> bool {
    forall|i: int| 0 <= i < elems.len() ==> ii_item_ok(#[trigger] elems[i])
}

/// Whether a decoded record reflects a list element.
pub open spec fn ii_item_matches(it: InvoiceItem, v: JsonValue) -> bool {
    match v {
        JsonValue::Obj(fs) => ii_matches(it, fs@),
        _ => false,
    }
}

/// Whether decoded records reflect a data array element for element, in
/// order.
pub open spec fn ii_items_match(its: Seq<InvoiceItem>, elems: Seq<JsonValue>) -> bool {
    its.len() == elems.len() && (forall|i: int|
        0 <= i < its.len() ==> ii_item_matches(#[trigger] its[i], elems[i]))
}

/// A well-shaped data member: an array of well-shaped invoice-item objects.
pub open spec fn data_ok(g: Option<JsonValue>) -> bool {
    match g {
        Some(JsonValue::Arr(items)) => ii_items_ok(items@),
        _ => false,
    }
}

/// Whether decoded records reflect a data member.
pub open spec fn data_matches(its: Seq<InvoiceItem>, g: Option<JsonValue>) -> bool {
    match g {
        Some(JsonValue::Arr(items)) => ii_items_match(its, items@),
        _ => false,
    }
}

/// A well-shaped list envelope: a data array of invoice-item objects, a
/// boolean `has_more`, an optional integer `total_count`, and a string
/// `url`.
pub open spec fn list_obj_ok(es: Seq<(String, JsonValue)>) -> bool {
    &&& data_ok(json_get(es, "data"@))
    &&& req_bool_ok(json_get(es, "has_more"@))
    &&& opt_u64_ok(json_get(es, "total_count"@))
    &&& req_str_ok(json_get(es, "url"@))
}

/// Whether a decoded envelope reflects a list object member for member.
pub open spec fn list_matches(l: List<InvoiceItem>, es: Seq<(String, JsonValue)>) -> bool {
    &&& l.has_more == req_bool_val(json_get(es, "has_more"@))
    &&& l.total_count == opt_u64_val(json_get(es, "total_count"@))
    &&& l.url@ == req_str_val(json_get(es, "url"@))
    &&& data_matches(l.data@, json_get(es, "data"@))
}

/// A well-shaped deletion confirmation: a prefixed string `id` and a
/// boolean `deleted`.
pub open spec fn deleted_obj_ok(es: Seq<(String, JsonValue)>) -> bool {
    &&& req_str_ok(json_get(es, "id"@))
    &&& spec_has_prefix(req_str_val(json_get(es, "id"@)), "ii_"@)
    &&& req_bool_ok(json_get(es, "deleted"@))
}

/// Whether a decoded confirmation reflects its object.
pub open spec fn deleted_matches(d: Deleted<InvoiceItemId>, es: Seq<(String, JsonValue)>) -> bool {
    d.id@ == req_str_val(json_get(es, "id"@)) && d.deleted == req_bool_val(
        json_get(es, "deleted"@),
    )
}

/// The request path of one invoice item.
fn item_path(id: &InvoiceItemId) -> (r: String)
    ensures
        r@ == "/invoiceitems/"@ + id@,
{
    let mut p = "/invoiceitems/".to_owned();
    p.append(id.as_str());
    p
}

/// A copy of a string vector with the same characters.
fn clone_strings(v: &Vec<String>) -> (r: Vec<String>)
    ensures
        string_views(r@) == string_views(v@),
{
    let mut out: Vec<String> = Vec::new();
    let n = v.len();
    let mut i: usize = 0;
    while i < n
        invariant
            i <= n,
            n == v@.len(),
            out@.len() == i,
            forall|j: int| 0 <= j < i ==> (#[trigger] out@[j]@) == v@[j]@,
        decreases n - i,
    {
        out.push(v[i].clone());
        i += 1;
    }
    proof {
        assert(string_views(out@) =~= string_views(v@));
    }
    out
}

impl InvoiceItem {
    /// Builds the listing request: GET on the collection path with the
    /// parameters in the query string.
    pub fn list(client: &Client, params: &ListInvoiceItems) -> (r: Request)
        ensures
            r.method == Method::Get,
            r.body is None,
            r.url@ == client.host_view() + "/invoiceitems"@ + query_suffix(params.pairs_view()),
            r.secret@ == client.secret_view(),
    {
        let pairs = params.to_pairs();
        client.get_query("/invoiceitems", &pairs)
    }

    /// Builds the creation request: POST on the collection path with the
    /// parameters as the form body.
    pub fn create(client: &Client, params: &CreateInvoiceItem) -> (r: Request)
        ensures
            r.method == Method::Post,
            r.url@ == client.host_view() + "/invoiceitems"@,
            r.body matches Some(b) && b@ == crate::encoding::query_chars(params.pairs_view()),
            r.secret@ == client.secret_view(),
    {
        let pairs = params.to_pairs();
        client.post_form("/invoiceitems", &pairs)
    }

    /// Builds the retrieval request: GET on the item's own path, carrying
    /// only the expansion directive (omitted entirely when empty).
    pub fn retrieve(client: &Client, id: &InvoiceItemId, expand: &Expand) -> (r: Request)
        ensures
            r.method == Method::Get,
            r.body is None,
            r.url@ == client.host_view() + ("/invoiceitems/"@ + id@) + query_suffix(
                indexed_pairs("expand"@, string_views(expand.expand@)),
            ),
            r.secret@ == client.secret_view(),
    {
        let path = item_path(id);
        let mut pairs: Vec<(String, String)> = Vec::new();
        push_indexed(&mut pairs, "expand", &expand.expand);
        proof {
            assert(pair_views(pairs@) =~= indexed_pairs("expand"@, string_views(expand.expand@)));
        }
        client.get_query(path.as_str(), &pairs)
    }

    /// Builds the update request: POST on the item's own path with the
    /// parameters as the form body.
    pub fn update(client: &Client, id: &InvoiceItemId, params: &UpdateInvoiceItem) -> (r: Request)
        ensures
            r.method == Method::Post,
            r.url@ == client.host_view() + ("/invoiceitems/"@ + id@),
            r.body matches Some(b) && b@ == crate::encoding::query_chars(params.pairs_view()),
            r.secret@ == client.secret_view(),
    {
        let path = item_path(id);
        let pairs = params.to_pairs();
        client.post_form(path.as_str(), &pairs)
    }

    /// Builds the deletion request: DELETE on the item's own path, no body.
    pub fn delete(client: &Client, id: &InvoiceItemId) -> (r: Request)
        ensures
            r.method == Method::Delete,
            r.body is None,
            r.url@ == client.host_view() + ("/invoiceitems/"@ + id@),
            r.secret@ == client.secret_view(),
    {
        let path = item_path(id);
        client.delete(path.as_str())
    }

    /// This record's identifier.
    pub fn id(&self) -> (r: InvoiceItemId)
        ensures
            r@ == self.id@,
    {
        self.id.clone()
    }

    /// The fixed kind tag of this resource.
    pub fn object(&self) -> (r: &'static str)
        ensures
            r@ == "invoiceitem"@,
    {
        "invoiceitem"
    }

    /// Decodes a list envelope of invoice items from a JSON document.
    pub fn list_from_json(v: &JsonValue) -> (r: Result<List<InvoiceItem>, Error>)
        ensures
            r is Ok <==> (*v matches JsonValue::Obj(es) && list_obj_ok(es@)),
            r matches Ok(l) ==> (*v matches JsonValue::Obj(es) && list_matches(l, es@)),
            r matches Err(e) ==> e matches Error::Decode(_),
    {
        let es = match v {
            JsonValue::Obj(es) => es,
            _ => {
                return Err(Error::Decode("a list envelope must be a JSON object".to_owned()));
            },
        };
        let items = match obj_get(es, "data") {
            Some(JsonValue::Arr(items)) => items,
            _ => {
                return Err(Error::Decode("list envelope: missing data array".to_owned()));
            },
        };
        let mut data: Vec<InvoiceItem> = Vec::new();
        let n = items.len();
        let mut i: usize = 0;
        while i < n
            invariant
                i <= n,
                n == items@.len(),
                *v == JsonValue::Obj(*es),
                json_get(es@, "data"@) == Some(JsonValue::Arr(*items)),
                data@.len() == i,
                forall|j: int| 0 <= j < i ==> ii_item_ok(#[trigger] items@[j]),
                forall|j: int|
                    0 <= j < i ==> ii_item_matches(#[trigger] data@[j], items@[j]),
            decreases n - i,
        {
            match InvoiceItem::from_json(&items[i]) {
                Ok(it) => data.push(it),
                Err(e) => {
                    proof {
                        assert(!ii_item_ok(items@[i as int]));
                        assert(!ii_items_ok(items@));
                    }
                    return Err(e);
                },
            }
            i += 1;
        }
        let has_more = match get_req_bool(es, "has_more") {
            Ok(b) => b,
            Err(_) => {
                return Err(Error::Decode("list envelope: missing has_more flag".to_owned()));
            },
        };
        let total_count = match get_opt_u64(es, "total_count") {
            Ok(c) => c,
            Err(_) => {
                return Err(Error::Decode("list envelope: malformed total_count".to_owned()));
            },
        };
        let url = match get_req_str(es, "url") {
            Ok(u) => u.clone(),
            Err(_) => {
                return Err(Error::Decode("list envelope: missing url".to_owned()));
            },
        };
        Ok(List { data, has_more, total_count, url })
    }

    /// Decodes a deletion confirmation from a JSON document.
    pub fn deleted_from_json(v: &JsonValue) -> (r: Result<Deleted<InvoiceItemId>, Error>)
        ensures
            r is Ok <==> (*v matches JsonValue::Obj(es) && deleted_obj_ok(es@)),
            r matches Ok(d) ==> (*v matches JsonValue::Obj(es) && deleted_matches(d, es@)),
            r matches Err(e) ==> e matches Error::Decode(_),
    {
        let es = match v {
            JsonValue::Obj(es) => es,
            _ => {
                return Err(
                    Error::Decode("a deletion confirmation must be a JSON object".to_owned()),
                );
            },
        };
        let id_s = match get_req_str(es, "id") {
            Ok(s) => s,
            Err(_) => {
                return Err(Error::Decode("deletion confirmation: missing string id".to_owned()));
            },
        };
        let id = match InvoiceItemId::from_string(id_s.clone()) {
            Ok(id) => id,
            Err(_) => {
                return Err(
                    Error::Decode("deletion confirmation: id lacks its prefix".to_owned()),
                );
            },
        };
        let deleted = match get_req_bool(es, "deleted") {
            Ok(b) => b,
            Err(_) => {
                return Err(
                    Error::Decode("deletion confirmation: missing deleted flag".to_owned()),
                );
            },
        };
        Ok(Deleted { deleted, id })
    }

    /// Interprets the response of a retrieval, creation or update: on a 2xx
    /// status the decoded record, else the API-reported or decode error.
    pub fn from_response(status: u16, body: &str) -> (r: Result<InvoiceItem, Error>)
        ensures
            r is Ok <==> (spec_status_ok(status) && (json_doc_of(body@) matches Some(d)
                && d matches JsonValue::Obj(es) && ii_obj_ok(es@))),
            r matches Ok(it) ==> (json_doc_of(body@) matches Some(d)
                && d matches JsonValue::Obj(es) && ii_matches(it, es@)),
            !spec_status_ok(status) ==> (r matches Err(e) && error_outcome(
                status,
                json_doc_of(body@),
                e,
            )),
    {
        match interpret_response(status, body) {
            Ok(doc) => InvoiceItem::from_json(&doc),
            Err(e) => Err(e),
        }
    }

    /// Interprets the response of a listing: on a 2xx status the decoded
    /// envelope, else the API-reported or decode error.
    pub fn list_from_response(status: u16, body: &str) -> (r: Result<List<InvoiceItem>, Error>)
        ensures
            r is Ok <==> (spec_status_ok(status) && (json_doc_of(body@) matches Some(d)
                && d matches JsonValue::Obj(es) && list_obj_ok(es@))),
            r matches Ok(l) ==> (json_doc_of(body@) matches Some(d)
                && d matches JsonValue::Obj(es) && list_matches(l, es@)),
            !spec_status_ok(status) ==> (r matches Err(e) && error_outcome(
                status,
                json_doc_of(body@),
                e,
            )),
    {
        match interpret_response(status, body) {
            Ok(doc) => InvoiceItem::list_from_json(&doc),
            Err(e) => Err(e),
        }
    }

    /// Interprets the response of a deletion: on a 2xx status the decoded
    /// confirmation, else the API-reported or decode error.
    pub fn deleted_from_response(status: u16, body: &str) -> (r: Result<
        Deleted<InvoiceItemId>,
        Error,
    >)
        ensures
            r is Ok <==> (spec_status_ok(status) && (json_doc_of(body@) matches Some(d)
                && d matches JsonValue::Obj(es) && deleted_obj_ok(es@))),
            r matches Ok(d0) ==> (json_doc_of(body@) matches Some(d)
                && d matches JsonValue::Obj(es) && deleted_matches(d0, es@)),
            !spec_status_ok(status) ==> (r matches Err(e) && error_outcome(
                status,
                json_doc_of(body@),
                e,
            )),
    {
        match interpret_response(status, body) {
            Ok(doc) => InvoiceItem::deleted_from_json(&doc),
            Err(e) => Err(e),
        }
    }
}

impl ListInvoiceItems {
    /// The parameters of the next page, or `None` when pagination is over.
    ///
    /// The envelope's `has_more` flag is the only signal that more pages
    /// exist: when it is false no further request is issued, so continuing
    /// pagination past the last page yields no additional items. To page
    /// forward, `starting_after` becomes the identifier of the page's last
    /// item and every filter is kept.
    pub fn next_page(&self, page: &List<InvoiceItem>) -> (r: Option<ListInvoiceItems>)
        ensures
            !page.has_more ==> r is None,
            page.data@.len() == 0 ==> r is None,
            (page.has_more && page.data@.len() > 0) <==> r is Some,
            r matches Some(p) ==> ({
                &&& p.starting_after matches Some(c) && c@ == page.data@[page.data@.len()
                    - 1].id@
                &&& p.ending_before is None
                &&& p.created == self.created
                &&& opt_id_view(p.customer) == opt_id_view(self.customer)
                &&& string_views(p.expand.expand@) == string_views(self.expand.expand@)
                &&& opt_id_view(p.invoice) == opt_id_view(self.invoice)
                &&& p.limit == self.limit
                &&& p.pending == self.pending
            }),
    {
        if !page.has_more {
            return None;
        }
        if page.data.len() == 0 {
            return None;
        }
        let last = &page.data[page.data.len() - 1];
        Some(
            ListInvoiceItems {
                created: self.created,
                customer: match &self.customer {
                    Some(id) => Some(id.clone()),
                    None => None,
                },
                ending_before: None,
                expand: Expand { expand: clone_strings(&self.expand.expand) },
                invoice: match &self.invoice {
                    Some(id) => Some(id.clone()),
                    None => None,
                },
                limit: self.limit,
                pending: self.pending,
                starting_after: Some(last.id.clone()),
            },
        )
    }
}

} // verus!
