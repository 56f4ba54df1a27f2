//! Answers of the HTTP interface.
use crate::sunshine::xml::{escape, xml_escape};
use crate::text::{append_decimal, decimal, owned};
use vstd::prelude::*;
use vstd::string::StringExecFns;

verus! {

/// An HTTP answer.
#[derive(Debug, Clone)]
pub struct HttpReply {
    pub status: u16,
    pub content_type: String,
    pub body: String,
}

/// Whether an answer is XML with a given status and body.
pub open spec fn is_xml(reply: HttpReply, status: u16, body: Seq<char>) -> bool {
    &&& reply.status == status
    &&& reply.content_type@ == "application/xml; charset=utf-8"@
    &&& reply.body@ == body
}

/// A successful answer in XML.
pub fn xml_response(body: String) -> (r: HttpReply)
    ensures
        is_xml(r, 200, body@),
{
    HttpReply { status: 200, content_type: owned("application/xml; charset=utf-8"), body }
}

/// The body that reports a pairing error: the code stands in the XML, not in the HTTP status.
pub open spec fn pair_error_body(status: u16, message: Seq<char>) -> Seq<char> {
    "<root status_code=\""@ + decimal(status as nat) + "\" status_message=\""@ + escape(message)
        + "\"><paired>0</paired></root>"@
}

/// Whether an answer reports a pairing error.
pub open spec fn is_pair_error(reply: HttpReply, status: u16, message: Seq<char>) -> bool {
    is_xml(reply, 200, pair_error_body(status, message))
}

/// Reports a pairing error.
pub fn pair_error(status: u16, message: &str) -> (r: HttpReply)
    ensures
        is_pair_error(r, status, message@),
{
    let mut body = owned("<root status_code=\"");
    append_decimal(&mut body, status as u64);
    body.append("\" status_message=\"");
    body.append(xml_escape(message).as_str());
    body.append("\"><paired>0</paired></root>");
    xml_response(body)
}

/// The answer to a path that does not exist.
pub fn not_found() -> (r: HttpReply)
    ensures
        is_xml(r, 404, "<root status_code=\"404\"></root>"@),
{
    HttpReply {
        status: 404,
        content_type: owned("application/xml; charset=utf-8"),
        body: owned("<root status_code=\"404\"></root>"),
    }
}

/// The answer that lists the paired clients, as JSON.
pub fn clients_response(json: Option<String>) -> (r: HttpReply)
    ensures
        r.status == 200,
        r.content_type@ == "application/json; charset=utf-8"@,
        r.body@ == (match json {
            Some(text) => text@,
            None => "[]"@,
        }),
{
    HttpReply {
        status: 200,
        content_type: owned("application/json; charset=utf-8"),
        body: match json {
            Some(text) => text,
            None => owned("[]"),
        },
    }
}

/// A text between two others.
pub fn wrapped(before: &str, inner: &str, after: &str) -> (r: String)
    ensures
        r@ == before@ + inner@ + after@,
{
    let mut out = owned(before);
    out.append(inner);
    out.append(after);
    out
}

/// A pairing error is told in the body, with its number and its message, and says that nothing is
/// paired; the answer itself is always a successful one in XML.
pub proof fn a_pairing_error_says_that_nothing_is_paired(
    reply: HttpReply,
    status: u16,
    message: Seq<char>,
)
    requires
        is_pair_error(reply, status, message),
    ensures
        reply.status == 200,
        reply.content_type@ == "application/xml; charset=utf-8"@,
        ("<root status_code=\""@ + decimal(status as nat)).is_prefix_of(reply.body@),
        ("\"><paired>0</paired></root>"@).is_suffix_of(reply.body@),
        reply.body@ == "<root status_code=\""@ + decimal(status as nat) + "\" status_message=\""@
            + escape(message) + "\"><paired>0</paired></root>"@,
{
    let a = "<root status_code=\""@ + decimal(status as nat);
    let b = "\" status_message=\""@;
    let c = "\"><paired>0</paired></root>"@;
    assert(reply.body@ =~= a + (b + escape(message) + c));
    assert(reply.body@ =~= (a + b + escape(message)) + c);
}

/// What is answered in XML carries its body unchanged; what does not exist is answered with 404;
/// the clients are answered in JSON, and without any an empty list.
pub proof fn answers_carry_their_body(r: HttpReply, body: String, json: Option<String>)
    ensures
        call_ensures(xml_response, (body,), r) ==> r.status == 200 && r.body@ == body@
            && r.content_type@ == "application/xml; charset=utf-8"@,
        call_ensures(not_found, (), r) ==> r.status == 404 && r.body@
            == "<root status_code=\"404\"></root>"@,
        call_ensures(clients_response, (json,), r) ==> {
            &&& r.status == 200 && r.content_type@ == "application/json; charset=utf-8"@
            &&& json is Some ==> r.body@ == json->0@
            &&& json is None ==> r.body@ == "[]"@
        },
{
}

} // verus!
