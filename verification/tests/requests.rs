use stripe::ids::{CustomerId, InvoiceItemId};
use stripe::params::Expand;
use stripe::{Client, CreateInvoiceItem, Currency, InvoiceItem, ListInvoiceItems, Method, UpdateInvoiceItem};

#[test]
fn list_request_is_a_get_with_query() {
    let client = Client::new("sk_test_key".to_string());
    let mut params = ListInvoiceItems::new();
    params.customer = Some(CustomerId::from_string("cus_789".to_string()).unwrap());
    params.limit = Some(5);
    let req = InvoiceItem::list(&client, &params);
    assert!(matches!(req.method, Method::Get));
    assert_eq!(req.url, "https://api.stripe.com/v1/invoiceitems?customer=cus_789&limit=5");
    assert!(req.body.is_none());
    assert_eq!(req.secret, "sk_test_key");
}

#[test]
fn list_request_without_params_has_no_query() {
    let client = Client::new("sk_test_key".to_string());
    let req = InvoiceItem::list(&client, &ListInvoiceItems::new());
    assert_eq!(req.url, "https://api.stripe.com/v1/invoiceitems");
}

#[test]
fn create_request_is_a_post_with_form_body() {
    let client = Client::new("sk_test_key".to_string());
    let customer = CustomerId::from_string("cus_789".to_string()).unwrap();
    let mut params = CreateInvoiceItem::new(Currency::CAD, customer);
    params.amount = Some(1095);
    let req = InvoiceItem::create(&client, &params);
    assert!(matches!(req.method, Method::Post));
    assert_eq!(req.url, "https://api.stripe.com/v1/invoiceitems");
    assert_eq!(req.body.as_deref(), Some("amount=1095&currency=cad&customer=cus_789"));
}

#[test]
fn retrieve_request_names_the_identifier_in_its_path() {
    let client = Client::new("sk_test_key".to_string());
    let id = InvoiceItemId::from_string("ii_42".to_string()).unwrap();
    let req = InvoiceItem::retrieve(&client, &id, &Expand::new());
    assert!(matches!(req.method, Method::Get));
    assert_eq!(req.url, "https://api.stripe.com/v1/invoiceitems/ii_42");
    assert!(req.body.is_none());
}

#[test]
fn retrieve_request_carries_expansion_when_asked() {
    let client = Client::new("sk_test_key".to_string());
    let id = InvoiceItemId::from_string("ii_42".to_string()).unwrap();
    let expand = Expand { expand: vec!["customer".to_string()] };
    let req = InvoiceItem::retrieve(&client, &id, &expand);
    assert_eq!(req.url, "https://api.stripe.com/v1/invoiceitems/ii_42?expand%5b0%5d=customer");
}

#[test]
fn update_request_posts_to_the_item_path() {
    let client = Client::new("sk_test_key".to_string());
    let id = InvoiceItemId::from_string("ii_42".to_string()).unwrap();
    let mut params = UpdateInvoiceItem::new();
    params.description = Some("new words".to_string());
    let req = InvoiceItem::update(&client, &id, &params);
    assert!(matches!(req.method, Method::Post));
    assert_eq!(req.url, "https://api.stripe.com/v1/invoiceitems/ii_42");
    assert_eq!(req.body.as_deref(), Some("description=new%20words"));
}

#[test]
fn requests_present_the_credential_as_a_bearer_token() {
    let client = Client::new("sk_test_key".to_string());
    let req = InvoiceItem::list(&client, &ListInvoiceItems::new());
    assert_eq!(req.auth_header(), "Bearer sk_test_key");
}

#[test]
fn delete_request_has_no_body() {
    let client = Client::new("sk_test_key".to_string());
    let id = InvoiceItemId::from_string("ii_42".to_string()).unwrap();
    let req = InvoiceItem::delete(&client, &id);
    assert!(matches!(req.method, Method::Delete));
    assert_eq!(req.url, "https://api.stripe.com/v1/invoiceitems/ii_42");
    assert!(req.body.is_none());
}

#[test]
fn created_then_retrieved_identifier_matches() {
    let create_body = r#"{"id": "ii_42", "amount": 1095, "currency": "cad"}"#;
    let created = InvoiceItem::from_response(200, create_body).unwrap_or_else(|_| panic!("decode"));
    let client = Client::with_host("http://localhost".to_string(), "sk_test_key".to_string());
    let req = InvoiceItem::retrieve(&client, &created.id(), &Expand::new());
    assert_eq!(req.url, "http://localhost/invoiceitems/ii_42");
    let retrieve_body = r#"{"id": "ii_42", "amount": 1095, "currency": "cad"}"#;
    let retrieved = InvoiceItem::from_response(200, retrieve_body)
        .unwrap_or_else(|_| panic!("decode"));
    assert_eq!(retrieved.id().as_str(), created.id().as_str());
}
