//! The generic REST client: the resource root of its host, request URLs, and the
//! rules that turn a response's status and body into a typed outcome.

use vstd::prelude::*;
use vstd::string::*;
use crate::json::{get_member, get_string, get_str, json_parse, member_of, parse_json, JsonValue};
use crate::text::{signed_decimal, signed_decimal_string};

verus! {

/// A REST client for one host, such as `https://api.example.com/api/v3`.
#[derive(Debug, Clone)]
pub struct Client {
    pub host: String,
}

/// The typed outcome of a failed request.
#[derive(Debug)]
pub enum RequestError {
    /// The server failed (internal error or unavailable); the caller may retry.
    TransientError { status: u16 },
    /// The credentials or the signature were refused.
    AuthError,
    /// The body did not have the expected shape.
    DecodeError,
    /// The server rejected the request with a structured error body.
    RemoteError { code: i16, message: String },
    /// Any other status.
    UnexpectedStatus { code: u16 },
}

/// The error body of a rejected request.
#[derive(Debug, Clone)]
pub struct ContentError {
    pub code: i16,
    pub msg: String,
}

/// `pat` stands in `s` at index `i`.
pub open spec fn occurs_at(s: Seq<char>, pat: Seq<char>, i: int) -> bool {
    0 <= i && i + pat.len() <= s.len() && s.subrange(i, i + pat.len()) == pat
}

/// `r` is what follows the first `pat` in `s`, or nothing where `pat` does not occur.
pub open spec fn after_first(s: Seq<char>, pat: Seq<char>, r: Option<Seq<char>>) -> bool {
    match r {
        Some(p) => exists|i: int|
            #![trigger occurs_at(s, pat, i)]
            occurs_at(s, pat, i) && (forall|j: int| 0 <= j < i ==> !occurs_at(s, pat, j)) && p == s.subrange(
                i + pat.len(),
                s.len() as int,
            ),
        None => forall|i: int| !occurs_at(s, pat, i),
    }
}

/// The URL of a request: host, endpoint, and `?query` where a non-empty query is given.
pub open spec fn url_of(host: Seq<char>, endpoint: Seq<char>, request: Option<Seq<char>>) -> Seq<char> {
    match request {
        Some(q) => if q.len() > 0 {
            host + endpoint + seq!['?'] + q
        } else {
            host + endpoint
        },
        None => host + endpoint,
    }
}

/// A JSON number that fits `i16`.
pub open spec fn json_i16(v: Option<JsonValue>) -> Option<int> {
    match v {
        Some(JsonValue::UInt(u)) => if u <= 32767 {
            Some(u as int)
        } else {
            None
        },
        Some(JsonValue::NegInt(i)) => if -32768 <= i <= 32767 {
            Some(i as int)
        } else {
            None
        },
        _ => None,
    }
}

/// A member `code` that fits `i16` and a string member `msg`.
pub open spec fn content_error_shape(v: JsonValue) -> bool {
    json_i16(member_of(v, "code"@)) is Some && get_str(v, "msg"@) is Some
}

pub open spec fn content_error_matches(v: JsonValue, e: ContentError) -> bool {
    json_i16(member_of(v, "code"@)) == Some(e.code as int) && get_str(v, "msg"@) == Some(e.msg@)
}

/// The outcome of a response whose body has been read as `parsed`.
pub open spec fn response_outcome(status: u16, parsed: Option<JsonValue>, r: Result<JsonValue, RequestError>) -> bool {
    if status == 200 {
        match parsed {
            Some(v) => r == Ok::<JsonValue, RequestError>(v),
            None => r matches Err(RequestError::DecodeError),
        }
    } else if status == 500 || status == 503 {
        r == Err::<JsonValue, RequestError>(RequestError::TransientError { status })
    } else if status == 401 {
        r matches Err(RequestError::AuthError)
    } else if status == 400 {
        match parsed {
            Some(v) => if content_error_shape(v) {
                r matches Err(RequestError::RemoteError { code, message }) && json_i16(member_of(v, "code"@)) == Some(
                    code as int,
                ) && get_str(v, "msg"@) == Some(message@)
            } else {
                r matches Err(RequestError::DecodeError)
            },
            None => r matches Err(RequestError::DecodeError),
        }
    } else {
        r == Err::<JsonValue, RequestError>(RequestError::UnexpectedStatus { code: status })
    }
}

/// Reads an error body.
pub fn decode_content_error(v: &JsonValue) -> (r: Option<ContentError>)
    ensures
        r is Some <==> content_error_shape(*v),
        r matches Some(e) ==> content_error_matches(*v, e),
{
    let code: i16 = match get_member(v, "code") {
        Some(JsonValue::UInt(u)) => if *u <= 32767 {
            let c: i16 = *u as i16;
            assert(c as int == *u as int);
            c
        } else {
            return None
        },
        Some(JsonValue::NegInt(i)) => if *i >= -32768 && *i <= 32767 {
            let c: i16 = *i as i16;
            assert(c as int == *i as int);
            c
        } else {
            return None
        },
        _ => return None,
    };
    let msg = match get_string(v, "msg") { Some(s) => s, None => return None };
    Some(ContentError { code, msg })
}

impl ContentError {
    /// The error as text: `code: <code> \nmsg: <msg>`.
    pub fn to_text(&self) -> (r: String)
        ensures
            r@ == "code: "@ + signed_decimal(self.code as int) + " \nmsg: "@ + self.msg@,
    {
        let mut s = String::from_str("code: ");
        let code = signed_decimal_string(self.code as i64);
        s.append(code.as_str());
        s.append(" \nmsg: ");
        s.append(self.msg.as_str());
        s
    }
}

/// Maps a response status and the body that came with it to an outcome: the parsed
/// body on success, else the error that the status calls for.
pub fn handle_parsed_response(status: u16, parsed: Option<JsonValue>) -> (r: Result<JsonValue, RequestError>)
    ensures
        response_outcome(status, parsed, r),
{
    if status == 200 {
        match parsed {
            Some(v) => Ok(v),
            None => Err(RequestError::DecodeError),
        }
    } else if status == 500 || status == 503 {
        Err(RequestError::TransientError { status })
    } else if status == 401 {
        Err(RequestError::AuthError)
    } else if status == 400 {
        match parsed {
            Some(v) => match decode_content_error(&v) {
                Some(e) => Err(RequestError::RemoteError { code: e.code, message: e.msg }),
                None => Err(RequestError::DecodeError),
            },
            None => Err(RequestError::DecodeError),
        }
    } else {
        Err(RequestError::UnexpectedStatus { code: status })
    }
}

impl Client {
    pub fn new(host: String) -> (r: Client)
        ensures
            r.host@ == host@,
    {
        Client { host }
    }

    /// Maps a response status and its body text to an outcome. There is no retry here.
    pub fn handler(status: u16, body: &str) -> (r: Result<JsonValue, RequestError>)
        ensures
            response_outcome(status, json_parse(body@), r),
    {
        let parsed = parse_json(body);
        handle_parsed_response(status, parsed)
    }

    /// The resource root: what follows the first `.com` of the host, or nothing
    /// where the host holds no `.com`.
    pub fn extract_request_path(&self) -> (r: Option<&str>)
        ensures
            after_first(self.host@, ".com"@, match r { Some(p) => Some(p@), None => None }),
    {
        proof {
            reveal_strlit(".com");
        }
        let host = self.host.as_str();
        let len: usize = host.unicode_len();
        let pat = String::from_str(".com");
        let mut i: usize = 0;
        while len >= 4 && i <= len - 4
            invariant
                host@ == self.host@,
                len == host@.len(),
                pat@ == ".com"@,
                ".com"@.len() == 4,
                i <= len,
                forall|j: int| 0 <= j < i ==> !occurs_at(host@, ".com"@, j),
            decreases len - i,
        {
            let window = String::from_str(host.substring_char(i, i + 4));
            if window == pat {
                assert(occurs_at(host@, ".com"@, i as int));
                return Some(host.substring_char(i + 4, len));
            }
            i = i + 1;
        }
        None
    }

    /// The URL of a GET request: host, endpoint, and `?request` where a non-empty
    /// request is given.
    pub fn request_url(&self, endpoint: &str, request: Option<String>) -> (r: String)
        ensures
            r@ == url_of(self.host@, endpoint@, match request { Some(q) => Some(q@), None => None }),
    {
        proof {
            reveal_strlit("?");
        }
        let mut url = self.host.clone();
        url.append(endpoint);
        if let Some(q) = request {
            if q.unicode_len() > 0 {
                url.append("?");
                url.append(q.as_str());
            }
        }
        url
    }
}

} // verus!
