use stripe::encoding::{encode_pairs, i64_string, u64_string};
use stripe::ids::CustomerId;
use stripe::params::{Expand, Metadata, RangeBounds, RangeQuery};
use stripe::{CreateInvoiceItem, Currency, ListInvoiceItems, UpdateInvoiceItem};

#[test]
fn decimal_rendering() {
    assert_eq!(u64_string(0), "0");
    assert_eq!(u64_string(1095), "1095");
    assert_eq!(u64_string(18446744073709551615), "18446744073709551615");
    assert_eq!(i64_string(-42), "-42");
    assert_eq!(i64_string(7), "7");
    assert_eq!(i64_string(i64::MIN), "-9223372036854775808");
}

#[test]
fn query_encoding_escapes_reserved_bytes() {
    let pairs = vec![
        ("a".to_string(), "b".to_string()),
        ("k y".to_string(), "v&1".to_string()),
    ];
    assert_eq!(encode_pairs(&pairs), "a=b&k%20y=v%261");
}

#[test]
fn query_encoding_escapes_utf8_bytes() {
    let pairs = vec![("note".to_string(), "caf\u{e9}".to_string())];
    assert_eq!(encode_pairs(&pairs), "note=caf%c3%a9");
}

#[test]
fn create_params_minimal_pairs() {
    let customer = CustomerId::from_string("cus_789".to_string()).unwrap();
    let params = CreateInvoiceItem::new(Currency::CAD, customer);
    let pairs = params.to_pairs();
    assert_eq!(pairs.len(), 2);
    assert_eq!(pairs[0], ("currency".to_string(), "cad".to_string()));
    assert_eq!(pairs[1], ("customer".to_string(), "cus_789".to_string()));
}

#[test]
fn create_params_set_fields_appear_in_order() {
    let customer = CustomerId::from_string("cus_789".to_string()).unwrap();
    let mut params = CreateInvoiceItem::new(Currency::CAD, customer);
    params.amount = Some(1095);
    params.description = Some("rental".to_string());
    params.quantity = Some(3);
    params.unit_amount = Some(365);
    let pairs = params.to_pairs();
    let expected = vec![
        ("amount", "1095"),
        ("currency", "cad"),
        ("customer", "cus_789"),
        ("description", "rental"),
        ("quantity", "3"),
        ("unit_amount", "365"),
    ];
    assert_eq!(pairs.len(), expected.len());
    for (got, want) in pairs.iter().zip(expected.iter()) {
        assert_eq!(got.0, want.0);
        assert_eq!(got.1, want.1);
    }
}

#[test]
fn empty_expand_is_omitted_entirely() {
    let mut params = ListInvoiceItems::new();
    assert!(params.expand.is_empty());
    let pairs = params.to_pairs();
    assert!(pairs.is_empty());
    params.limit = Some(10);
    let pairs = params.to_pairs();
    assert!(pairs.iter().all(|p| !p.0.starts_with("expand")));
}

#[test]
fn nonempty_expand_serializes_as_indexed_entries() {
    let mut params = ListInvoiceItems::new();
    params.expand = Expand { expand: vec!["data.customer".to_string(), "data.plan".to_string()] };
    let pairs = params.to_pairs();
    assert_eq!(pairs[0], ("expand[0]".to_string(), "data.customer".to_string()));
    assert_eq!(pairs[1], ("expand[1]".to_string(), "data.plan".to_string()));
    assert_eq!(encode_pairs(&pairs), "expand%5b0%5d=data.customer&expand%5b1%5d=data.plan");
}

#[test]
fn metadata_flattens_with_bracketed_keys() {
    let mut params = UpdateInvoiceItem::new();
    let mut md = Metadata::new();
    md.insert("color".to_string(), "red".to_string());
    md.insert("size".to_string(), "9".to_string());
    params.metadata = Some(md);
    let pairs = params.to_pairs();
    assert_eq!(pairs.len(), 2);
    assert_eq!(pairs[0], ("metadata[color]".to_string(), "red".to_string()));
    assert_eq!(pairs[1], ("metadata[size]".to_string(), "9".to_string()));
}

#[test]
fn created_range_flattens_with_bracketed_bounds() {
    let mut params = ListInvoiceItems::new();
    let mut bounds = RangeBounds::new();
    bounds.gt = Some(100);
    bounds.lte = Some(900);
    params.created = Some(RangeQuery::Bounds(bounds));
    let pairs = params.to_pairs();
    assert_eq!(pairs.len(), 2);
    assert_eq!(pairs[0], ("created[gt]".to_string(), "100".to_string()));
    assert_eq!(pairs[1], ("created[lte]".to_string(), "900".to_string()));

    let mut exact = ListInvoiceItems::new();
    exact.created = Some(RangeQuery::Exact(555));
    let pairs = exact.to_pairs();
    assert_eq!(pairs.len(), 1);
    assert_eq!(pairs[0], ("created".to_string(), "555".to_string()));
}

#[test]
fn currency_codes_round_trip() {
    assert_eq!(Currency::CAD.code(), "cad");
    assert_eq!(Currency::from_code("cad").code(), "cad");
    assert_eq!(Currency::from_code("xyz").code(), "xyz");
    assert!(matches!(Currency::from_code("xyz"), Currency::Unrecognized(_)));
}

#[test]
fn identifiers_require_their_prefix() {
    assert!(CustomerId::from_string("cus_1".to_string()).is_ok());
    assert!(CustomerId::from_string("in_1".to_string()).is_err());
    assert!(stripe::InvoiceItemId::from_string("ii_1".to_string()).is_ok());
    assert!(stripe::InvoiceItemId::from_string("ii".to_string()).is_err());
}
