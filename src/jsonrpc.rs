use crate::text::{decimal, decimal_text, digit_char};
use serde_json::Value;
use vstd::prelude::*;

verus! {

#[verifier::external_type_specification]
#[verifier::external_body]
pub struct ExValue(serde_json::Value);

#[verifier::external_type_specification]
#[verifier::external_body]
pub struct ExJsonError(serde_json::Error);

/// Lower-case hexadecimal digit for `d`, for `d < 16`.
pub open spec fn hex_digit(d: nat) -> char {
    if d < 10 {
        digit_char(d)
    } else if d == 10 {
        'a'
    } else if d == 11 {
        'b'
    } else if d == 12 {
        'c'
    } else if d == 13 {
        'd'
    } else if d == 14 {
        'e'
    } else {
        'f'
    }
}

/// How one character stands inside a JSON string: the quote, the backslash
/// and the control characters are escaped (the five with a short form by it,
/// the others as `\u00XX`), every other character stands for itself.
pub open spec fn escaped_char(c: char) -> Seq<char> {
    if c == '"' {
        seq!['\\', '"']
    } else if c == '\\' {
        seq!['\\', '\\']
    } else if c == '\u{8}' {
        seq!['\\', 'b']
    } else if c == '\u{c}' {
        seq!['\\', 'f']
    } else if c == '\n' {
        seq!['\\', 'n']
    } else if c == '\r' {
        seq!['\\', 'r']
    } else if c == '\t' {
        seq!['\\', 't']
    } else if (c as u32) < 0x20 {
        seq![
            '\\',
            'u',
            '0',
            '0',
            hex_digit((c as u32 / 16) as nat),
            hex_digit((c as u32 % 16) as nat),
        ]
    } else {
        seq![c]
    }
}

/// The characters of `s`, each escaped.
pub open spec fn escaped_text(s: Seq<char>) -> Seq<char>
    decreases s.len(),
{
    if s.len() == 0 {
        Seq::empty()
    } else {
        escaped_text(s.drop_last()) + escaped_char(s.last())
    }
}

/// The JSON text that encodes the string `s`: its escaped characters
/// between double quotes.
pub open spec fn json_string_text(s: Seq<char>) -> Seq<char> {
    seq!['"'] + escaped_text(s) + seq!['"']
}

/// The compact JSON text of the value `v`.
pub uninterp spec fn json_value_text(v: Value) -> Seq<char>;

/// Relies on `serde_json::to_string` for a `str`: the quoted and escaped
/// JSON string, which depends on the characters alone. Writing a string into
/// the serializer's `Vec` buffer cannot fail, so the result is always `Ok`.
#[verifier::external_body]
fn quote_json(s: &str) -> (r: Result<String, serde_json::Error>)
    ensures
        r is Ok,
        r matches Ok(t) ==> t@ == json_string_text(s@),
{
    serde_json::to_string(s)
}

/// Relies on `serde_json::to_string` for a `serde_json::Value`: its compact
/// JSON text, which depends on the value alone. A `Value`'s map keys are
/// strings and its buffer is a `Vec`, so the result is always `Ok`.
#[verifier::external_body]
fn value_json(v: &Value) -> (r: Result<String, serde_json::Error>)
    ensures
        r is Ok,
        r matches Ok(t) ==> t@ == json_value_text(*v),
{
    serde_json::to_string(v)
}

/// A request or notification sent to the worker.
#[derive(Debug, Clone)]
pub struct JsonRpcRequest {
    pub jsonrpc: String,
    pub id: u64,
    pub method: String,
    pub params: Option<Value>,
}

/// A reply of the worker to one request.
#[derive(Debug, Clone)]
pub struct JsonRpcResponse {
    pub jsonrpc: String,
    pub id: u64,
    pub result: Option<Value>,
    pub error: Option<JsonRpcError>,
}

/// The error object of a failed reply, passed on as the worker wrote it.
#[derive(Debug, Clone)]
pub struct JsonRpcError {
    pub code: i32,
    pub message: String,
    pub data: Option<Value>,
}

/// Source of request ids, one per bridge: each id it hands out is one more
/// than the previous one (wrapping after `u64::MAX`).
pub struct RequestIdCounter {
    next: u64,
}

impl RequestIdCounter {
    /// The id that the next call of `next_id` returns.
    pub closed spec fn spec_next(&self) -> u64 {
        self.next
    }

    pub fn new() -> (r: Self)
        ensures
            r.spec_next() == 1,
    {
        RequestIdCounter { next: 1 }
    }

    /// The id that the next call of `next_id` returns.
    pub fn peek(&self) -> (r: u64)
        ensures
            r == self.spec_next(),
    {
        self.next
    }

    pub fn next_id(&mut self) -> (r: u64)
        ensures
            r == old(self).spec_next(),
            final(self).spec_next() == (if r == u64::MAX { 0 } else { (r + 1) as u64 }),
    {
        let id = self.next;
        self.next = id.wrapping_add(1);
        id
    }
}

/// One encoded request: the envelope's members in the order `jsonrpc`, `id`,
/// `method`, then `params` when present, as one JSON object on one line.
pub open spec fn request_line_text(
    version_json: Seq<char>,
    id: u64,
    method_json: Seq<char>,
    params_json: Option<Seq<char>>,
) -> Seq<char> {
    "{\"jsonrpc\":"@ + version_json + ",\"id\":"@ + decimal_text(id as nat) + ",\"method\":"@
        + method_json + match params_json {
        Some(p) => ",\"params\":"@ + p,
        None => Seq::<char>::empty(),
    } + "}\n"@
}

/// `line` is the encoded request `id` calling `method`, with `params` when
/// present.
pub open spec fn encodes_request(
    line: Seq<char>,
    version: Seq<char>,
    id: u64,
    method: Seq<char>,
    params: Option<Value>,
) -> bool {
    line == request_line_text(
        json_string_text(version),
        id,
        json_string_text(method),
        match params {
            Some(v) => Some(json_value_text(v)),
            None => None,
        },
    )
}

/// Frames a request line from the JSON texts of its members.
pub fn frame_request(
    version_json: &str,
    id: u64,
    method_json: &str,
    params_json: Option<&str>,
) -> (r: String)
    ensures
        r@ == request_line_text(
            version_json@,
            id,
            method_json@,
            match params_json {
                Some(p) => Some(p@),
                None => None,
            },
        ),
{
    proof {
        reveal_strlit("{\"jsonrpc\":");
        reveal_strlit(",\"id\":");
        reveal_strlit(",\"method\":");
        reveal_strlit(",\"params\":");
        reveal_strlit("}\n");
    }
    let mut line = String::from_str("{\"jsonrpc\":");
    line.append(version_json);
    line.append(",\"id\":");
    let digits = decimal(id);
    line.append(digits.as_str());
    line.append(",\"method\":");
    line.append(method_json);
    let ghost before_params = line@;
    match params_json {
        Some(p) => {
            line.append(",\"params\":");
            line.append(p);
        },
        None => {},
    }
    line.append("}\n");
    proof {
        let tail = match params_json {
            Some(p) => ",\"params\":"@ + p@,
            None => Seq::<char>::empty(),
        };
        assert(line@ =~= before_params + tail + "}\n"@);
    }
    line
}

impl JsonRpcRequest {
    pub fn new(id: u64, method: &str, params: Option<Value>) -> (r: Self)
        ensures
            r.jsonrpc@ == "2.0"@,
            r.id == id,
            r.method@ == method@,
            r.params == params,
    {
        JsonRpcRequest { jsonrpc: String::from_str("2.0"), id, method: String::from_str(method), params }
    }

    /// The request as one line of JSON ending in a newline.
    pub fn to_line(&self) -> (r: Result<String, serde_json::Error>)
        ensures
            r is Ok,
            r matches Ok(line) ==> encodes_request(
                line@,
                self.jsonrpc@,
                self.id,
                self.method@,
                self.params,
            ),
    {
        let version_json = match quote_json(self.jsonrpc.as_str()) {
            Ok(t) => t,
            Err(e) => return Err(e),
        };
        let method_json = match quote_json(self.method.as_str()) {
            Ok(t) => t,
            Err(e) => return Err(e),
        };
        match &self.params {
            Some(v) => {
                let params_json = match value_json(v) {
                    Ok(t) => t,
                    Err(e) => return Err(e),
                };
                Ok(
                    frame_request(
                        version_json.as_str(),
                        self.id,
                        method_json.as_str(),
                        Some(params_json.as_str()),
                    ),
                )
            },
            None => Ok(frame_request(version_json.as_str(), self.id, method_json.as_str(), None)),
        }
    }
}

impl JsonRpcResponse {
    /// A reply succeeds when it carries no error object.
    pub fn is_success(&self) -> (r: bool)
        ensures
            r == self.error.is_none(),
    {
        self.error.is_none()
    }
}

/// What an inbound line of the worker is, judged by its members.
#[derive(Debug, Clone, Copy, PartialEq, Eq, Structural)]
pub enum InboundKind {
    /// A reply to the request with this id.
    Response { id: u64 },
    /// A notification, to be routed by its method.
    Notification,
    /// Neither: the line is dropped and the stream goes on.
    Discard,
}

/// Classifies a decoded line from its numeric `id` member and whether it has
/// a string `method` member: an id without a method is a response, a method
/// without an id a notification, anything else is dropped.
pub fn classify_inbound(id: Option<u64>, has_method: bool) -> (r: InboundKind)
    ensures
        r == (match id {
            Some(n) => if has_method {
                InboundKind::Discard
            } else {
                InboundKind::Response { id: n }
            },
            None => if has_method {
                InboundKind::Notification
            } else {
                InboundKind::Discard
            },
        }),
{
    match id {
        Some(n) => if has_method {
            InboundKind::Discard
        } else {
            InboundKind::Response { id: n }
        },
        None => if has_method {
            InboundKind::Notification
        } else {
            InboundKind::Discard
        },
    }
}

} // verus!
