//! The tool relay's side of the wire: building the fixed-shape JSON-RPC
//! request, and interpreting the response body that the host's HTTP
//! transport brings back.

use vstd::prelude::*;
use crate::chars::{chars_of, push_str_chars, string_of};
use crate::json::{extract_text, json_parse, parse_json, spec_extract_text, JsonValue};
use crate::render::{push_escaped, spec_escape, spec_pretty, to_pretty_string};

verus! {

use vstd::string::StringExecFns;

/// The JSON-RPC request that calls `tool` with `input`: a fixed skeleton
/// carrying the tool's name once and the input twice, under the two
/// argument keys, every interpolation escaped.
pub open spec fn spec_request_body(tool: Seq<char>, input: Seq<char>) -> Seq<char> {
    "{\"jsonrpc\":\"2.0\",\"id\":1,\"method\":\"tools/call\",\"params\":{\"name\":\""@
        + spec_escape(tool) + "\",\"arguments\":{\"target\":\""@ + spec_escape(input)
        + "\",\"prompt\":\""@ + spec_escape(input) + "\"}}}"@
}

/// Builds the JSON-RPC request body that asks the companion server to run
/// `tool_name` on `input`.
pub fn build_request_body(tool_name: &str, input: &str) -> (r: String)
    ensures
        r@ == spec_request_body(tool_name@, input@),
{
    let mut out: Vec<char> = Vec::new();
    push_str_chars(
        &mut out,
        "{\"jsonrpc\":\"2.0\",\"id\":1,\"method\":\"tools/call\",\"params\":{\"name\":\"",
    );
    let tool_chars = chars_of(tool_name);
    push_escaped(&mut out, &tool_chars);
    push_str_chars(&mut out, "\",\"arguments\":{\"target\":\"");
    let input_chars = chars_of(input);
    push_escaped(&mut out, &input_chars);
    push_str_chars(&mut out, "\",\"prompt\":\"");
    push_escaped(&mut out, &input_chars);
    push_str_chars(&mut out, "\"}}}");
    proof {
        assert(out@ =~= spec_request_body(tool_name@, input@));
    }
    string_of(&out)
}

/// The loopback endpoint the relay posts to.
pub fn relay_endpoint() -> (r: &'static str)
    ensures
        r@ == "http://127.0.0.1:3001/mcp"@,
{
    "http://127.0.0.1:3001/mcp"
}

/// What the relay answers for a response it could read: the fast-path
/// text when the response has the expected shape, the whole document in
/// its pretty form otherwise — an unexpected shape is never a failure.
pub open spec fn spec_render_response(v: JsonValue) -> Seq<char> {
    match spec_extract_text(v) {
        Some(t) => t,
        None => spec_pretty(v, 0),
    }
}

/// Answers a parsed response tree; verified for every tree the parse can
/// hand over.
pub fn render_response(v: &JsonValue) -> (r: String)
    ensures
        r@ == spec_render_response(*v),
{
    match extract_text(v) {
        Some(t) => t,
        None => to_pretty_string(v),
    }
}

/// Interprets a response body: a body the parser rejects is reported as a
/// parse failure with the parser's reason; every accepted document is
/// answered.
pub fn interpret_response(body: &str) -> (r: Result<String, String>)
    ensures
        (match json_parse(body@) {
            Ok(v) => r matches Ok(s) && s@ == spec_render_response(v),
            Err(m) => r matches Err(e) && e@ == "Failed to parse response: "@ + m,
        }),
{
    match parse_json(body) {
        Ok(v) => Ok(render_response(&v)),
        Err(e) => {
            let mut msg = String::from_str("Failed to parse response: ");
            msg.append(e.as_str());
            Err(msg)
        },
    }
}

/// The failure reported when the HTTP POST itself fails, carrying the
/// transport's reason.
pub fn request_failed_message(err: &str) -> (r: String)
    ensures
        r@ == "Request failed: "@ + err@,
{
    let mut msg = String::from_str("Request failed: ");
    msg.append(err);
    msg
}

} // verus!
