use vstd::prelude::*;

use crate::decimal::{decimal, decimal_string};
use crate::status::{json_message, Status};
use vstd::utf8::encode_utf8;

verus! {

/// The bytes of the ASCII word `OPTIONS`.
pub open spec fn options_word() -> Seq<u8> {
    seq![79u8, 80u8, 84u8, 73u8, 79u8, 78u8, 83u8]
}

/// Whether the bytes read from a connection begin with `OPTIONS`.
pub open spec fn is_preflight(req: Seq<u8>) -> bool {
    req.len() >= 7 && req.subrange(0, 7) == options_word()
}

/// How the server treats a request.
#[derive(Clone, Copy, Debug, PartialEq, Eq, Structural)]
pub enum RequestKind {
    /// A CORS preflight: the request begins with `OPTIONS`.
    Preflight,
    /// Any other request, an empty one included.
    Generic,
}

/// The kind of a request, from its first bytes.
pub open spec fn kind_of(req: Seq<u8>) -> RequestKind {
    if is_preflight(req) {
        RequestKind::Preflight
    } else {
        RequestKind::Generic
    }
}

/// A response as a status, an ordered list of header lines and a body.
pub struct ResponseView {
    pub status: Seq<char>,
    pub headers: Seq<(Seq<char>, Seq<char>)>,
    pub body: Seq<char>,
}

/// Each header as `name: value` and a line break, in order.
pub open spec fn header_lines(hs: Seq<(Seq<char>, Seq<char>)>) -> Seq<char>
    decreases hs.len(),
{
    if hs.len() == 0 {
        Seq::empty()
    } else {
        header_lines(hs.drop_last()) + hs.last().0 + ": "@ + hs.last().1 + "\r\n"@
    }
}

/// The HTTP/1.1 text of a response.
pub open spec fn serialize(m: ResponseView) -> Seq<char> {
    "HTTP/1.1 "@ + m.status + "\r\n"@ + header_lines(m.headers) + "\r\n"@ + m.body
}

/// The number of bytes of the UTF-8 encoding of `s`.
pub open spec fn byte_len(s: Seq<char>) -> nat {
    encode_utf8(s).len()
}

/// The answer to a CORS preflight: no content, the allowed origin, methods and headers.
pub open spec fn preflight_view() -> ResponseView {
    ResponseView {
        status: "204 No Content"@,
        headers: seq![
            ("Access-Control-Allow-Origin"@, "*"@),
            ("Access-Control-Allow-Methods"@, "GET, POST, OPTIONS"@),
            ("Access-Control-Allow-Headers"@, "Content-Type"@),
            ("Content-Length"@, decimal(0)),
            ("Connection"@, "close"@),
        ],
        body: Seq::empty(),
    }
}

/// The answer to any other request: `body` as JSON, with its length in bytes.
pub open spec fn generic_view(body: Seq<char>) -> ResponseView {
    ResponseView {
        status: "200 OK"@,
        headers: seq![
            ("Content-Type"@, "application/json"@),
            ("Access-Control-Allow-Origin"@, "*"@),
            ("Content-Length"@, decimal(byte_len(body))),
            ("Connection"@, "close"@),
        ],
        body: body,
    }
}

/// The response to the request bytes `req`, where `body` is the generic answer's body.
pub open spec fn response_view(req: Seq<u8>, body: Seq<char>) -> ResponseView {
    match kind_of(req) {
        RequestKind::Preflight => preflight_view(),
        RequestKind::Generic => generic_view(body),
    }
}

/// Whether the header `name` stands in `hs`, and every header of that name holds `value`.
pub open spec fn header_is(hs: Seq<(Seq<char>, Seq<char>)>, name: Seq<char>, value: Seq<char>) -> bool {
    &&& exists|i: int| 0 <= i < hs.len() && (#[trigger] hs[i]).0 == name
    &&& forall|i: int| 0 <= i < hs.len() && (#[trigger] hs[i]).0 == name ==> hs[i].1 == value
}

proof fn lemma_header_lines_push(hs: Seq<(Seq<char>, Seq<char>)>, h: (Seq<char>, Seq<char>))
    ensures
        header_lines(hs.push(h)) == header_lines(hs) + h.0 + ": "@ + h.1 + "\r\n"@,
{
    assert(hs.push(h).drop_last() =~= hs);
}

/// Decides from the first bytes of a request whether it is a CORS preflight.
pub fn classify_request(req: &[u8]) -> (r: RequestKind)
    ensures
        r == kind_of(req@),
{
    if req.len() >= 7 && req[0] == 79u8 && req[1] == 80u8 && req[2] == 84u8 && req[3] == 73u8
        && req[4] == 79u8 && req[5] == 78u8 && req[6] == 83u8 {
        assert(req@.subrange(0, 7) =~= options_word());
        RequestKind::Preflight
    } else {
        proof {
            if req@.len() >= 7 && req@.subrange(0, 7) == options_word() {
                assert(req@[0] == req@.subrange(0, 7)[0]);
                assert(req@[1] == req@.subrange(0, 7)[1]);
                assert(req@[2] == req@.subrange(0, 7)[2]);
                assert(req@[3] == req@.subrange(0, 7)[3]);
                assert(req@[4] == req@.subrange(0, 7)[4]);
                assert(req@[5] == req@.subrange(0, 7)[5]);
                assert(req@[6] == req@.subrange(0, 7)[6]);
            }
        }
        RequestKind::Generic
    }
}

/// Appends the header line `name: value` and a line break to `out`.
fn push_header(out: &mut String, name: &str, value: &str)
    ensures
        final(out)@ == old(out)@ + name@ + ": "@ + value@ + "\r\n"@,
{
    out.append(name);
    out.append(": ");
    out.append(value);
    out.append("\r\n");
}

/// The full text of the answer to a CORS preflight.
pub fn preflight_response() -> (r: String)
    ensures
        r@ == serialize(preflight_view()),
{
    let ghost m = preflight_view();
    let mut out = String::from_str("HTTP/1.1 ");
    out.append("204 No Content");
    out.append("\r\n");
    push_header(&mut out, "Access-Control-Allow-Origin", "*");
    push_header(&mut out, "Access-Control-Allow-Methods", "GET, POST, OPTIONS");
    push_header(&mut out, "Access-Control-Allow-Headers", "Content-Type");
    let zero = decimal_string(0);
    push_header(&mut out, "Content-Length", zero.as_str());
    push_header(&mut out, "Connection", "close");
    out.append("\r\n");
    proof {
        let hs = m.headers;
        assert(hs.subrange(0, 0) =~= Seq::empty());
        lemma_header_lines_push(hs.subrange(0, 0), hs[0]);
        assert(hs.subrange(0, 0).push(hs[0]) =~= hs.subrange(0, 1));
        lemma_header_lines_push(hs.subrange(0, 1), hs[1]);
        assert(hs.subrange(0, 1).push(hs[1]) =~= hs.subrange(0, 2));
        lemma_header_lines_push(hs.subrange(0, 2), hs[2]);
        assert(hs.subrange(0, 2).push(hs[2]) =~= hs.subrange(0, 3));
        lemma_header_lines_push(hs.subrange(0, 3), hs[3]);
        assert(hs.subrange(0, 3).push(hs[3]) =~= hs.subrange(0, 4));
        lemma_header_lines_push(hs.subrange(0, 4), hs[4]);
        assert(hs.subrange(0, 4).push(hs[4]) =~= hs);
        assert(header_lines(Seq::<(Seq<char>, Seq<char>)>::empty()) == Seq::<char>::empty());
        assert(out@ =~= serialize(m));
    }
    out
}

/// The full text of the answer to a request that is not a preflight, with `body` as its body.
pub fn generic_response(body: &str) -> (r: String)
    ensures
        r@ == serialize(generic_view(body@)),
{
    let ghost m = generic_view(body@);
    let mut out = String::from_str("HTTP/1.1 ");
    out.append("200 OK");
    out.append("\r\n");
    push_header(&mut out, "Content-Type", "application/json");
    push_header(&mut out, "Access-Control-Allow-Origin", "*");
    let length = decimal_string(body.as_bytes().len());
    push_header(&mut out, "Content-Length", length.as_str());
    push_header(&mut out, "Connection", "close");
    out.append("\r\n");
    out.append(body);
    proof {
        let hs = m.headers;
        assert(hs.subrange(0, 0) =~= Seq::empty());
        lemma_header_lines_push(hs.subrange(0, 0), hs[0]);
        assert(hs.subrange(0, 0).push(hs[0]) =~= hs.subrange(0, 1));
        lemma_header_lines_push(hs.subrange(0, 1), hs[1]);
        assert(hs.subrange(0, 1).push(hs[1]) =~= hs.subrange(0, 2));
        lemma_header_lines_push(hs.subrange(0, 2), hs[2]);
        assert(hs.subrange(0, 2).push(hs[2]) =~= hs.subrange(0, 3));
        lemma_header_lines_push(hs.subrange(0, 3), hs[3]);
        assert(hs.subrange(0, 3).push(hs[3]) =~= hs);
        assert(header_lines(Seq::<(Seq<char>, Seq<char>)>::empty()) == Seq::<char>::empty());
        assert(out@ =~= serialize(m));
    }
    out
}

/// The full text of the response to the request bytes `req`: the preflight answer when
/// they begin with `OPTIONS`, else the generic answer carrying `body`.
pub fn build_response(req: &[u8], body: &str) -> (r: String)
    ensures
        r@ == serialize(response_view(req@, body@)),
{
    match classify_request(req) {
        RequestKind::Preflight => preflight_response(),
        RequestKind::Generic => generic_response(body),
    }
}

/// A preflight request is answered with `204 No Content` and an empty body.
pub proof fn lemma_preflight_is_no_content(req: Seq<u8>, body: Seq<char>)
    requires
        is_preflight(req),
    ensures
        response_view(req, body).status == "204 No Content"@,
        response_view(req, body).body.len() == 0,
        serialize(response_view(req, body)).subrange(0, 23) == "HTTP/1.1 204 No Content"@,
{
    let t = serialize(response_view(req, body));
    assert(t.subrange(0, 23) =~= "HTTP/1.1 "@ + "204 No Content"@) by {
        reveal_strlit("HTTP/1.1 ");
        reveal_strlit("204 No Content");
        reveal_strlit("HTTP/1.1 204 No Content");
    }
    assert("HTTP/1.1 "@ + "204 No Content"@ =~= "HTTP/1.1 204 No Content"@) by {
        reveal_strlit("HTTP/1.1 ");
        reveal_strlit("204 No Content");
        reveal_strlit("HTTP/1.1 204 No Content");
    }
}

/// Any request that does not begin with `OPTIONS`, an empty one included, is answered
/// with `200 OK`, as `application/json`, with the given body.
pub proof fn lemma_generic_is_ok_json(req: Seq<u8>, body: Seq<char>)
    requires
        !is_preflight(req),
    ensures
        response_view(req, body).status == "200 OK"@,
        header_is(response_view(req, body).headers, "Content-Type"@, "application/json"@),
        response_view(req, body).body == body,
        serialize(response_view(req, body)).subrange(0, 15) == "HTTP/1.1 200 OK"@,
{
    let m = response_view(req, body);
    let hs = m.headers;
    reveal_strlit("Content-Type");
    reveal_strlit("Access-Control-Allow-Origin");
    reveal_strlit("Content-Length");
    reveal_strlit("Connection");
    assert(hs[0].0 == "Content-Type"@);
    assert forall|i: int| 0 <= i < hs.len() && (#[trigger] hs[i]).0 == "Content-Type"@ implies hs[i].1
        == "application/json"@ by {
        if i != 0 {
            assert(hs[i].0.len() != "Content-Type"@.len());
        }
    }
    let t = serialize(m);
    assert(t.subrange(0, 15) =~= "HTTP/1.1 "@ + "200 OK"@) by {
        reveal_strlit("HTTP/1.1 ");
        reveal_strlit("200 OK");
    }
    assert("HTTP/1.1 "@ + "200 OK"@ =~= "HTTP/1.1 200 OK"@) by {
        reveal_strlit("HTTP/1.1 ");
        reveal_strlit("200 OK");
        reveal_strlit("HTTP/1.1 200 OK");
    }
}

/// In every response the `Content-Length` header stands, and it holds the length of
/// the body in bytes.
pub proof fn lemma_content_length_is_body_length(req: Seq<u8>, body: Seq<char>)
    ensures
        header_is(
            response_view(req, body).headers,
            "Content-Length"@,
            decimal(byte_len(response_view(req, body).body)),
        ),
{
    let m = response_view(req, body);
    let hs = m.headers;
    reveal_strlit("Content-Type");
    reveal_strlit("Access-Control-Allow-Origin");
    reveal_strlit("Access-Control-Allow-Methods");
    reveal_strlit("Access-Control-Allow-Headers");
    reveal_strlit("Content-Length");
    reveal_strlit("Connection");
    if is_preflight(req) {
        assert(encode_utf8(Seq::<char>::empty()) =~= Seq::<u8>::empty());
        assert(hs[3].0 == "Content-Length"@);
    } else {
        assert(hs[2].0 == "Content-Length"@);
    }
    assert forall|i: int| 0 <= i < hs.len() && (#[trigger] hs[i]).0 == "Content-Length"@ implies hs[i].1
        == decimal(byte_len(m.body)) by {
        if hs[i].0.len() == "Content-Length"@.len() {
            if is_preflight(req) {
                assert(i == 3);
                assert(encode_utf8(Seq::<char>::empty()) =~= Seq::<u8>::empty());
            } else {
                assert(i == 2);
            }
        }
    }
}

/// The server's answer to the request bytes `req`: the preflight answer, or `status` as JSON.
pub fn respond(req: &[u8], status: &Status) -> (r: String)
    ensures
        r@ == serialize(response_view(req@, json_message(status@))),
{
    let body = status.to_json();
    build_response(req, body.as_str())
}

/// Whether `m` can stand between the quotes of a JSON string as it is: it holds no quote,
/// no backslash and no control character.
pub open spec fn plain_json_text(m: Seq<char>) -> bool {
    forall|i: int| 0 <= i < m.len() ==> (#[trigger] m[i]) != '"' && m[i] != '\\' && m[i] >= ' '
}

/// The JSON string whose text is `s`, where `s` needs no escape.
pub open spec fn json_string(s: Seq<char>) -> Seq<char> {
    "\""@ + s + "\""@
}

/// The JSON object with the one member `key`, whose value is the JSON text `value`.
pub open spec fn json_object1(key: Seq<char>, value: Seq<char>) -> Seq<char> {
    "{"@ + json_string(key) + ":"@ + value + "}"@
}

/// The server answers every request that is not a preflight, an empty one included, with
/// a JSON object whose one member is `message`, a string holding the status message.
pub proof fn lemma_generic_body_is_message_object(req: Seq<u8>, msg: Seq<char>)
    requires
        !is_preflight(req),
        plain_json_text(msg),
    ensures
        response_view(req, json_message(msg)).body == json_object1("message"@, json_string(msg)),
        plain_json_text("message"@),
{
    reveal_strlit("{\"message\":\"");
    reveal_strlit("\"}");
    reveal_strlit("\"");
    reveal_strlit("{");
    reveal_strlit(":");
    reveal_strlit("}");
    reveal_strlit("message");
    assert(json_message(msg) =~= json_object1("message"@, json_string(msg)));
}

} // verus!
