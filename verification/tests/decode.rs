use stripe::params::Expandable;
use stripe::{Error, ErrorCode, InvoiceItem, InvoiceItemId, ListInvoiceItems};

#[test]
fn full_record_decodes_field_for_field() {
    let body = r#"{
        "id": "ii_123",
        "object": "invoiceitem",
        "amount": 1095,
        "currency": "cad",
        "customer": "cus_789",
        "date": 1600000000,
        "description": "rental",
        "discountable": true,
        "invoice": "in_55",
        "livemode": false,
        "metadata": {"color": "red"},
        "period": {"start": 1, "end": 2},
        "plan": {"id": "plan_9", "amount": 100},
        "proration": false,
        "quantity": 3,
        "subscription": "sub_11",
        "subscription_item": "si_x",
        "tax_rates": [{"id": "txr_1"}],
        "unit_amount": 365,
        "some_future_field": {"x": [1, 2]}
    }"#;
    let it = InvoiceItem::from_response(200, body).unwrap_or_else(|_| panic!("decode failed"));
    assert_eq!(it.id().as_str(), "ii_123");
    assert_eq!(it.object(), "invoiceitem");
    assert_eq!(it.amount, Some(1095));
    assert_eq!(it.currency.as_ref().map(|c| c.code()), Some("cad".to_string()));
    match &it.customer {
        Some(Expandable::Id(id)) => assert_eq!(id.as_str(), "cus_789"),
        _ => panic!("customer should be a bare identifier"),
    }
    assert_eq!(it.date, Some(1600000000));
    assert!(!it.deleted);
    assert_eq!(it.description.as_deref(), Some("rental"));
    assert_eq!(it.discountable, Some(true));
    match &it.invoice {
        Some(Expandable::Id(id)) => assert_eq!(id.as_str(), "in_55"),
        _ => panic!("invoice should be a bare identifier"),
    }
    assert_eq!(it.livemode, Some(false));
    assert_eq!(it.metadata.get("color"), Some("red".to_string()));
    assert_eq!(it.metadata.get("missing"), None);
    let period = it.period.as_ref().unwrap_or_else(|| panic!("period missing"));
    assert_eq!(period.start, Some(1));
    assert_eq!(period.end, Some(2));
    assert_eq!(it.plan.as_ref().map(|p| p.id.as_str()), Some("plan_9"));
    assert_eq!(it.proration, Some(false));
    assert_eq!(it.quantity, Some(3));
    match &it.subscription {
        Some(Expandable::Id(id)) => assert_eq!(id.as_str(), "sub_11"),
        _ => panic!("subscription should be a bare identifier"),
    }
    assert_eq!(it.subscription_item.as_deref(), Some("si_x"));
    let rates = it.tax_rates.as_ref().unwrap_or_else(|| panic!("tax_rates missing"));
    assert_eq!(rates.len(), 1);
    assert_eq!(rates[0].id, "txr_1");
    assert_eq!(it.unit_amount, Some(365));
}

#[test]
fn expanded_customer_decodes_as_object() {
    let body = r#"{"id": "ii_1", "customer": {"id": "cus_9", "email": "a@b.c"}}"#;
    let it = InvoiceItem::from_response(200, body).unwrap_or_else(|_| panic!("decode failed"));
    match &it.customer {
        Some(Expandable::Object(c)) => assert_eq!(c.id.as_str(), "cus_9"),
        _ => panic!("customer should be expanded"),
    }
}

#[test]
fn wrongly_typed_member_is_a_decode_error() {
    let body = r#"{"id": "ii_1", "amount": "not a number"}"#;
    assert!(matches!(InvoiceItem::from_response(200, body), Err(Error::Decode(_))));
}

#[test]
fn id_without_prefix_is_a_decode_error() {
    let body = r#"{"id": "ch_1"}"#;
    assert!(matches!(InvoiceItem::from_response(200, body), Err(Error::Decode(_))));
}

#[test]
fn malformed_body_is_a_decode_error() {
    assert!(matches!(InvoiceItem::from_response(200, "{none"), Err(Error::Decode(_))));
}

#[test]
fn api_error_response_decodes_as_request_error() {
    let body = r#"{"error": {"type": "invalid_request_error", "code": "resource_missing",
        "message": "No such invoice item", "param": "id"}}"#;
    match InvoiceItem::from_response(404, body) {
        Err(Error::Request(re)) => {
            assert_eq!(re.http_status, 404);
            assert!(matches!(re.code, Some(ErrorCode::ResourceMissing)));
            assert_eq!(re.message.as_deref(), Some("No such invoice item"));
            assert_eq!(re.param.as_deref(), Some("id"));
        },
        _ => panic!("a non-2xx response must surface the API error"),
    }
}

#[test]
fn error_status_with_bad_body_is_a_decode_error() {
    assert!(matches!(InvoiceItem::from_response(500, "oops"), Err(Error::Decode(_))));
}

#[test]
fn deletion_confirmation_carries_the_flag() {
    let body = r#"{"id": "ii_1", "object": "invoiceitem", "deleted": true}"#;
    let d = InvoiceItem::deleted_from_response(200, body).unwrap_or_else(|_| panic!("decode"));
    assert!(d.deleted);
    assert_eq!(d.id.as_str(), "ii_1");
}

#[test]
fn deleted_record_is_distinguishable_from_live_one() {
    let live = r#"{"id": "ii_1", "amount": 10}"#;
    let gone = r#"{"id": "ii_1", "deleted": true}"#;
    let live_it = InvoiceItem::from_response(200, live).unwrap_or_else(|_| panic!("decode"));
    let gone_it = InvoiceItem::from_response(200, gone).unwrap_or_else(|_| panic!("decode"));
    assert!(!live_it.deleted);
    assert!(gone_it.deleted);
}

#[test]
fn list_page_with_matching_entry() {
    let body = r#"{
        "object": "list",
        "data": [{"id": "ii_42", "amount": 1095, "currency": "cad", "customer": "cus_789"}],
        "has_more": false,
        "total_count": 1,
        "url": "/v1/invoiceitems"
    }"#;
    let page = InvoiceItem::list_from_response(200, body).unwrap_or_else(|_| panic!("decode"));
    assert_eq!(page.data.len(), 1);
    assert!(!page.has_more);
    assert_eq!(page.total_count, Some(1));
    assert_eq!(page.url, "/v1/invoiceitems");
    let it = &page.data[0];
    assert_eq!(it.id().as_str(), "ii_42");
    assert_eq!(it.amount, Some(1095));
    assert_eq!(it.currency.as_ref().map(|c| c.code()), Some("cad".to_string()));
}

#[test]
fn list_with_malformed_entry_is_a_decode_error() {
    let body = r#"{"data": [{"id": 5}], "has_more": false, "url": "/v1/invoiceitems"}"#;
    assert!(matches!(InvoiceItem::list_from_response(200, body), Err(Error::Decode(_))));
}

#[test]
fn pagination_stops_when_has_more_is_false() {
    let body = r#"{"data": [{"id": "ii_9"}], "has_more": false, "url": "/v1/invoiceitems"}"#;
    let page = InvoiceItem::list_from_response(200, body).unwrap_or_else(|_| panic!("decode"));
    let params = ListInvoiceItems::new();
    assert!(params.next_page(&page).is_none());
}

#[test]
fn pagination_continues_from_the_last_item() {
    let body = r#"{"data": [{"id": "ii_8"}, {"id": "ii_9"}], "has_more": true,
        "url": "/v1/invoiceitems"}"#;
    let page = InvoiceItem::list_from_response(200, body).unwrap_or_else(|_| panic!("decode"));
    let mut params = ListInvoiceItems::new();
    params.limit = Some(2);
    let next = params.next_page(&page).unwrap_or_else(|| panic!("next page expected"));
    assert_eq!(next.starting_after.as_ref().map(|id| id.as_str()), Some("ii_9"));
    assert!(next.ending_before.is_none());
    assert_eq!(next.limit, Some(2));
}

#[test]
fn unknown_id_decode_keeps_characters() {
    let r = InvoiceItemId::from_string("ii_abc".to_string());
    assert_eq!(r.unwrap_or_else(|_| panic!("parse")).as_str(), "ii_abc");
}
