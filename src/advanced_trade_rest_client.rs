//! The exchange's REST client: signed headers, the instrument catalog request, and
//! the decoding of the catalog.

use vstd::prelude::*;
use vstd::string::*;
use vstd::utf8::encode_utf8;
use crate::config::CoinbaseConfig;
use crate::json::{get_elements, get_member, get_string, get_array, get_str, json_parse, member_of, JsonValue};
use crate::models::{ProductData, Products, RestEndpoint};
use crate::rest_client::{after_first, response_outcome, url_of, Client, RequestError};
use crate::signing::{create_rest_signature, rest_signature};
use crate::text::{decimal, decimal_string};

verus! {

/// The catalog endpoint below the resource root.
pub const PRODUCTS_ENDPOINT: &'static str = "/brokerage/products/";

/// A request ready to be sent: method, full URL, and headers in order.
#[derive(Debug, Clone)]
pub struct PreparedRequest {
    pub method: String,
    pub url: String,
    pub headers: Vec<(String, String)>,
}

/// The REST client of the exchange, with the credentials it signs with.
#[derive(Debug, Clone)]
pub struct AdvancedTradeRESTClient {
    pub client: Client,
    pub key: String,
    pub secret: String,
}

/// The three access headers: key, signature over `ts ++ method ++ path ++ body`
/// under the UTF-8 bytes of the secret, and the timestamp in decimal seconds.
pub open spec fn access_headers(
    headers: Seq<(String, String)>,
    key: Seq<char>,
    secret: Seq<char>,
    method: Seq<char>,
    path: Seq<char>,
    body: Seq<char>,
    timestamp: nat,
) -> bool {
    &&& headers.len() == 3
    &&& headers[0].0@ == "CB-ACCESS-KEY"@ && headers[0].1@ == key
    &&& headers[1].0@ == "CB-ACCESS-SIGN"@
    &&& headers[1].1@ == rest_signature(decimal(timestamp), method, path, body, encode_utf8(secret))
    &&& headers[2].0@ == "CB-ACCESS-TIMESTAMP"@ && headers[2].1@ == decimal(timestamp)
}

/// A JSON number that fits `i64`.
pub open spec fn json_i64(v: Option<JsonValue>) -> Option<int> {
    match v {
        Some(JsonValue::UInt(u)) => if u <= 9223372036854775807 {
            Some(u as int)
        } else {
            None
        },
        Some(JsonValue::NegInt(i)) => Some(i as int),
        _ => None,
    }
}

pub open spec fn product_matches(v: JsonValue, p: ProductData) -> bool {
    &&& get_str(v, "product_id"@) == Some(p.product_id@)
    &&& get_str(v, "product_type"@) == Some(p.product_type@)
    &&& get_str(v, "base_currency_id"@) == Some(p.base_currency_id@)
    &&& get_str(v, "base_increment"@) == Some(p.base_increment@)
    &&& get_str(v, "base_max_size"@) == Some(p.base_max_size@)
    &&& get_str(v, "base_min_size"@) == Some(p.base_min_size@)
    &&& get_str(v, "quote_currency_id"@) == Some(p.quote_currency_id@)
    &&& get_str(v, "quote_increment"@) == Some(p.quote_increment@)
    &&& get_str(v, "quote_max_size"@) == Some(p.quote_max_size@)
    &&& get_str(v, "quote_min_size"@) == Some(p.quote_min_size@)
    &&& get_str(v, "status"@) == Some(p.status@)
    &&& member_of(v, "trading_disabled"@) == Some(JsonValue::Bool(p.trading_disabled))
}

pub open spec fn product_shape(v: JsonValue) -> bool {
    &&& get_str(v, "product_id"@) is Some
    &&& get_str(v, "product_type"@) is Some
    &&& get_str(v, "base_currency_id"@) is Some
    &&& get_str(v, "base_increment"@) is Some
    &&& get_str(v, "base_max_size"@) is Some
    &&& get_str(v, "base_min_size"@) is Some
    &&& get_str(v, "quote_currency_id"@) is Some
    &&& get_str(v, "quote_increment"@) is Some
    &&& get_str(v, "quote_max_size"@) is Some
    &&& get_str(v, "quote_min_size"@) is Some
    &&& get_str(v, "status"@) is Some
    &&& member_of(v, "trading_disabled"@) matches Some(JsonValue::Bool(_))
}

/// A `num_products` that fits `i64` and an array `products` of product objects.
pub open spec fn products_shape(v: JsonValue) -> bool {
    &&& json_i64(member_of(v, "num_products"@)) is Some
    &&& get_array(v, "products"@) is Some
    &&& forall|i: int| 0 <= i < get_array(v, "products"@)->0.len() ==> product_shape(#[trigger] get_array(v, "products"@)->0[i])
}

pub open spec fn products_matches(v: JsonValue, p: Products) -> bool {
    &&& json_i64(member_of(v, "num_products"@)) == Some(p.num_products as int)
    &&& get_array(v, "products"@) is Some
    &&& get_array(v, "products"@)->0.len() == p.products@.len()
    &&& forall|i: int| 0 <= i < p.products@.len() ==> product_matches(get_array(v, "products"@)->0[i], #[trigger] p.products@[i])
}

/// The outcome of a catalog response: a catalog, or the request error.
pub open spec fn products_outcome(status: u16, parsed: Option<JsonValue>, r: Result<Products, RequestError>) -> bool {
    if status == 200 {
        match parsed {
            Some(v) => if products_shape(v) {
                r is Ok && products_matches(v, r->Ok_0)
            } else {
                r matches Err(RequestError::DecodeError)
            },
            None => r matches Err(RequestError::DecodeError),
        }
    } else {
        r is Err && response_outcome(status, parsed, Err(r->Err_0))
    }
}

/// Reads one product of the catalog.
pub fn decode_product(v: &JsonValue) -> (r: Option<ProductData>)
    ensures
        r is Some <==> product_shape(*v),
        r matches Some(p) ==> product_matches(*v, p),
{
    let product_id = match get_string(v, "product_id") { Some(s) => s, None => return None };
    let product_type = match get_string(v, "product_type") { Some(s) => s, None => return None };
    let base_currency_id = match get_string(v, "base_currency_id") { Some(s) => s, None => return None };
    let base_increment = match get_string(v, "base_increment") { Some(s) => s, None => return None };
    let base_max_size = match get_string(v, "base_max_size") { Some(s) => s, None => return None };
    let base_min_size = match get_string(v, "base_min_size") { Some(s) => s, None => return None };
    let quote_currency_id = match get_string(v, "quote_currency_id") { Some(s) => s, None => return None };
    let quote_increment = match get_string(v, "quote_increment") { Some(s) => s, None => return None };
    let quote_max_size = match get_string(v, "quote_max_size") { Some(s) => s, None => return None };
    let quote_min_size = match get_string(v, "quote_min_size") { Some(s) => s, None => return None };
    let status = match get_string(v, "status") { Some(s) => s, None => return None };
    let trading_disabled = match get_member(v, "trading_disabled") { Some(JsonValue::Bool(b)) => *b, _ => return None };
    Some(ProductData {
        product_id,
        product_type,
        base_currency_id,
        base_increment,
        base_max_size,
        base_min_size,
        quote_currency_id,
        quote_increment,
        quote_max_size,
        quote_min_size,
        status,
        trading_disabled,
    })
}

/// Reads the instrument catalog.
pub fn decode_products(v: &JsonValue) -> (r: Option<Products>)
    ensures
        r is Some <==> products_shape(*v),
        r matches Some(p) ==> products_matches(*v, p),
{
    let num_products: i64 = match get_member(v, "num_products") {
        Some(JsonValue::UInt(u)) => if *u <= 9223372036854775807 { *u as i64 } else { return None },
        Some(JsonValue::NegInt(i)) => *i,
        _ => return None,
    };
    let items = match get_elements(v, "products") { Some(a) => a, None => return None };
    let mut products: Vec<ProductData> = Vec::new();
    let mut i: usize = 0;
    while i < items.len()
        invariant
            i <= items.len(),
            get_array(*v, "products"@) == Some(items@),
            products@.len() == i,
            forall|j: int| 0 <= j < i ==> product_shape(#[trigger] items@[j]),
            forall|j: int| 0 <= j < i ==> product_matches(items@[j], #[trigger] products@[j]),
        decreases items.len() - i,
    {
        match decode_product(&items[i]) {
            Some(p) => products.push(p),
            None => {
                assert(!product_shape(get_array(*v, "products"@)->0[i as int]));
                return None;
            },
        }
        i = i + 1;
    }
    Some(Products { num_products, products })
}

/// The outcome of a catalog request, from the response's status and body text.
pub fn decode_products_response(status: u16, body: &str) -> (r: Result<Products, RequestError>)
    ensures
        products_outcome(status, json_parse(body@), r),
{
    match Client::handler(status, body) {
        Ok(v) => match decode_products(&v) {
            Some(p) => Ok(p),
            None => Err(RequestError::DecodeError),
        },
        Err(e) => Err(e),
    }
}

/// The instrument identifiers of the catalog, in catalog order.
pub fn product_symbols(products: &Products) -> (r: Vec<String>)
    ensures
        r@.len() == products.products@.len(),
        forall|i: int| 0 <= i < r@.len() ==> (#[trigger] r@[i])@ == products.products@[i].product_id@,
{
    let mut out: Vec<String> = Vec::new();
    let mut i: usize = 0;
    while i < products.products.len()
        invariant
            i <= products.products@.len(),
            out@.len() == i,
            forall|j: int| 0 <= j < i ==> (#[trigger] out@[j])@ == products.products@[j].product_id@,
        decreases products.products.len() - i,
    {
        out.push(products.products[i].product_id.clone());
        i = i + 1;
    }
    out
}

impl AdvancedTradeRESTClient {
    pub fn new(host: &str, config: CoinbaseConfig) -> (r: AdvancedTradeRESTClient)
        ensures
            r.client.host@ == host@,
            r.key@ == config.api_key@,
            r.secret@ == config.api_secret@,
    {
        AdvancedTradeRESTClient { client: Client::new(String::from_str(host)), key: config.api_key, secret: config.api_secret }
    }

    /// The access headers for a request made at `timestamp` (seconds since the epoch).
    pub fn build_headers_with_signature(&self, rmethod: &str, rpath: &str, rbody: &str, timestamp: u64) -> (r: Vec<(String, String)>)
        ensures
            access_headers(r@, self.key@, self.secret@, rmethod@, rpath@, rbody@, timestamp as nat),
    {
        let rts = decimal_string(timestamp);
        let signature = create_rest_signature(rts.as_str(), rmethod, rpath, rbody, self.secret.as_str().as_bytes());
        let mut headers: Vec<(String, String)> = Vec::new();
        headers.push((String::from_str("CB-ACCESS-KEY"), self.key.clone()));
        headers.push((String::from_str("CB-ACCESS-SIGN"), signature));
        headers.push((String::from_str("CB-ACCESS-TIMESTAMP"), rts));
        headers
    }

    /// The catalog request, signed at `timestamp`: a GET of the host followed by the
    /// catalog endpoint, signed over the resource root followed by that endpoint.
    /// Nothing where the host has no resource root.
    pub fn get_available_products(&self, timestamp: u64) -> (r: Option<PreparedRequest>)
        ensures
            after_first(self.client.host@, ".com"@, None) <==> r is None,
            r matches Some(req) ==> {
                &&& req.method@ == "GET"@
                &&& req.url@ == self.client.host@ + PRODUCTS_ENDPOINT@
                &&& exists|root: Seq<char>|
                    after_first(self.client.host@, ".com"@, Some(root)) && access_headers(
                        req.headers@,
                        self.key@,
                        self.secret@,
                        "GET"@,
                        root + PRODUCTS_ENDPOINT@,
                        Seq::empty(),
                        timestamp as nat,
                    )
            },
    {
        proof {
            reveal_strlit("");
        }
        let endpoint = RestEndpoint {
            endpoint_url: String::from_str(PRODUCTS_ENDPOINT),
            method: String::from_str("GET"),
            resource: None,
        };
        let root = match self.client.extract_request_path() {
            Some(p) => p,
            None => return None,
        };
        let mut path = String::from_str(root);
        path.append(endpoint.endpoint_url.as_str());
        let headers = self.build_headers_with_signature(endpoint.method.as_str(), path.as_str(), "", timestamp);
        let url = self.client.request_url(endpoint.endpoint_url.as_str(), endpoint.resource);
        assert(url@ == url_of(self.client.host@, PRODUCTS_ENDPOINT@, None));
        assert(after_first(self.client.host@, ".com"@, Some(root@)));
        Some(PreparedRequest { method: endpoint.method, url, headers })
    }
}

} // verus!
