//! The client: credentials, base URL, request building, and response
//! interpretation.
//!
//! The client owns the API credential and base URL and prepares one
//! `Request` value per operation: GET parameters are encoded into the URL's
//! query string, POST parameters into a form body, DELETE carries no body.
//! The network exchange itself is the caller's transport's job; the textual
//! response it hands back is interpreted here, with every non-2xx or
//! malformed response becoming a typed error, never a default value.

use crate::encoding::{encode_pairs, pair_views, query_chars};
use crate::error::{Error, ErrorCode, ErrorType, RequestError};
use crate::json::{
    json_doc_of, json_get, opt_str_matches, opt_str_ok, parse_json, req_str_ok, req_str_val,
    JsonValue, get_opt_string, get_req_str, obj_get,
};
use vstd::prelude::*;

verus! {

/// The HTTP verb of a prepared request.
pub enum Method {
    Get,
    Post,
    Delete,
}

/// One fully prepared HTTP exchange: everything a transport needs to send.
/// `secret` is the credential to present as the bearer of the
/// authorization header.
pub struct Request {
    pub method: Method,
    pub url: String,
    pub body: Option<String>,
    pub secret: String,
}

impl Request {
    /// The value of the authorization header every request is sent with:
    /// the credential presented as a bearer token.
    pub fn auth_header(&self) -> (r: String)
        ensures
            r@ == "Bearer "@ + self.secret@,
    {
        let mut h = "Bearer ".to_owned();
        h.append(self.secret.as_str());
        h
    }
}

/// What a pair list appends to a URL: nothing when empty, else `?` and the
/// encoded query.
pub open spec fn query_suffix(pairs: Seq<(Seq<char>, Seq<char>)>) -> Seq<char> {
    if pairs.len() == 0 {
        Seq::empty()
    } else {
        "?"@ + query_chars(pairs)
    }
}

/// Owns the API credential and base URL. Requests built from one client
/// share that read-only configuration and nothing else.
pub struct Client {
    host: String,
    secret: String,
}

impl Client {
    pub closed spec fn host_view(&self) -> Seq<char> {
        self.host@
    }

    pub closed spec fn secret_view(&self) -> Seq<char> {
        self.secret@
    }

    /// A client for the default API host.
    pub fn new(secret: String) -> (r: Client)
        ensures
            r.secret_view() == secret@,
            r.host_view() == "https://api.stripe.com/v1"@,
    {
        Client { host: "https://api.stripe.com/v1".to_owned(), secret }
    }

    /// A client for an explicit base URL (for test servers).
    pub fn with_host(host: String, secret: String) -> (r: Client)
        ensures
            r.secret_view() == secret@,
            r.host_view() == host@,
    {
        Client { host, secret }
    }

    /// A GET request: parameters travel in the URL's query string; no body.
    pub fn get_query(&self, path: &str, params: &Vec<(String, String)>) -> (r: Request)
        ensures
            r.method == Method::Get,
            r.body is None,
            r.url@ == self.host_view() + path@ + query_suffix(pair_views(params@)),
            r.secret@ == self.secret_view(),
    {
        let mut url = self.host.clone();
        url.append(path);
        if params.len() > 0 {
            url.append("?");
            let q = encode_pairs(params);
            url.append(q.as_str());
        } else {
            proof {
                assert(url@ =~= self.host_view() + path@ + query_suffix(pair_views(params@)));
            }
        }
        Request { method: Method::Get, url, body: None, secret: self.secret.clone() }
    }

    /// A POST request: parameters travel as a form-encoded body.
    pub fn post_form(&self, path: &str, params: &Vec<(String, String)>) -> (r: Request)
        ensures
            r.method == Method::Post,
            r.url@ == self.host_view() + path@,
            r.body matches Some(b) && b@ == query_chars(pair_views(params@)),
            r.secret@ == self.secret_view(),
    {
        let mut url = self.host.clone();
        url.append(path);
        let body = encode_pairs(params);
        Request { method: Method::Post, url, body: Some(body), secret: self.secret.clone() }
    }

    /// A DELETE request: no parameters, no body.
    pub fn delete(&self, path: &str) -> (r: Request)
        ensures
            r.method == Method::Delete,
            r.body is None,
            r.url@ == self.host_view() + path@,
            r.secret@ == self.secret_view(),
    {
        let mut url = self.host.clone();
        url.append(path);
        Request { method: Method::Delete, url, body: None, secret: self.secret.clone() }
    }
}

/// The members of the nested error object of an error response body, if the
/// body has that shape.
pub open spec fn error_doc_fields(doc: JsonValue) -> Option<Seq<(String, JsonValue)>> {
    match doc {
        JsonValue::Obj(es) => match json_get(es@, "error"@) {
            Some(JsonValue::Obj(fs)) => Some(fs@),
            _ => None,
        },
        _ => None,
    }
}

/// A well-shaped error object: a string `type`, and optional string
/// `message`, `code` and `param` members.
pub open spec fn error_obj_ok(fs: Seq<(String, JsonValue)>) -> bool {
    req_str_ok(json_get(fs, "type"@)) && opt_str_ok(json_get(fs, "message"@)) && opt_str_ok(
        json_get(fs, "code"@),
    ) && opt_str_ok(json_get(fs, "param"@))
}

/// Whether an optional machine-readable code carries the characters of an
/// optional string member.
pub open spec fn opt_code_matches(c: Option<ErrorCode>, g: Option<JsonValue>) -> bool {
    match g {
        Some(JsonValue::Str(s)) => c matches Some(cc) && cc.code_view() == s@,
        _ => c is None,
    }
}

/// Whether a decoded `RequestError` reflects an error object member for
/// member.
pub open spec fn request_error_matches(
    re: RequestError,
    status: u16,
    fs: Seq<(String, JsonValue)>,
) -> bool {
    &&& re.http_status == status
    &&& re.error_type.code_view() == req_str_val(json_get(fs, "type"@))
    &&& opt_code_matches(re.code, json_get(fs, "code"@))
    &&& opt_str_matches(re.message, json_get(fs, "message"@))
    &&& opt_str_matches(re.param, json_get(fs, "param"@))
}

/// Decodes the error object of an error response body.
pub fn decode_error_doc(status: u16, doc: &JsonValue) -> (r: Result<RequestError, ()>)
    ensures
        r is Ok <==> (error_doc_fields(*doc) matches Some(fs) && error_obj_ok(fs)),
        r matches Ok(re) ==> (error_doc_fields(*doc) matches Some(fs) && request_error_matches(
            re,
            status,
            fs,
        )),
{
    match doc {
        JsonValue::Obj(es) => match obj_get(es, "error") {
            Some(JsonValue::Obj(fs)) => {
                let type_s = match get_req_str(fs, "type") {
                    Ok(s) => s,
                    Err(_) => {
                        return Err(());
                    },
                };
                let message = match get_opt_string(fs, "message") {
                    Ok(m) => m,
                    Err(_) => {
                        return Err(());
                    },
                };
                let code_s = match get_opt_string(fs, "code") {
                    Ok(c) => c,
                    Err(_) => {
                        return Err(());
                    },
                };
                let param = match get_opt_string(fs, "param") {
                    Ok(p) => p,
                    Err(_) => {
                        return Err(());
                    },
                };
                let error_type = ErrorType::from_code(type_s.as_str());
                let code = match code_s {
                    Some(c) => Some(ErrorCode::from_code(c.as_str())),
                    None => None,
                };
                Ok(RequestError { http_status: status, error_type, code, message, param })
            },
            _ => Err(()),
        },
        _ => Err(()),
    }
}

/// Whether an HTTP status reports success.
pub open spec fn spec_status_ok(status: u16) -> bool {
    200 <= status < 300
}

/// What a non-2xx response must decode to: the API-reported error when the
/// body carries a well-shaped error object, a decode error otherwise.
pub open spec fn error_outcome(status: u16, doc: Option<JsonValue>, e: Error) -> bool {
    match doc {
        Some(d) => match error_doc_fields(d) {
            Some(fs) => if error_obj_ok(fs) {
                e matches Error::Request(re) && request_error_matches(re, status, fs)
            } else {
                e matches Error::Decode(_)
            },
            None => e matches Error::Decode(_),
        },
        None => e matches Error::Decode(_),
    }
}

/// Interprets one HTTP response: on a 2xx status the decoded JSON body, on
/// any other status the API-reported error decoded from the body; a body
/// that cannot be decoded yields a decode error either way.
pub fn interpret_response(status: u16, body: &str) -> (r: Result<JsonValue, Error>)
    ensures
        spec_status_ok(status) ==> (match json_doc_of(body@) {
            Some(doc) => r == Ok::<JsonValue, Error>(doc),
            None => r matches Err(e) && e matches Error::Decode(_),
        }),
        !spec_status_ok(status) ==> (r matches Err(e) && error_outcome(
            status,
            json_doc_of(body@),
            e,
        )),
{
    let parsed = parse_json(body);
    if 200 <= status && status < 300 {
        match parsed {
            Some(doc) => Ok(doc),
            None => Err(Error::Decode("response body is not a JSON document".to_owned())),
        }
    } else {
        match parsed {
            Some(doc) => match decode_error_doc(status, &doc) {
                Ok(re) => Err(Error::Request(re)),
                Err(_) => Err(
                    Error::Decode("error response body lacks a well-formed error object".to_owned()),
                ),
            },
            None => Err(Error::Decode("response body is not a JSON document".to_owned())),
        }
    }
}

} // verus!
