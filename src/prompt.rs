use vstd::prelude::*;
use crate::text::{lower_of, lowercase, same_text, text_of};

verus! {

/// Header that carries the authorisation key; consumed before the prompt.
pub const AUTHORIZATION_HEADER: &'static str = "x-vibeapi-authorization";

/// Header that asks for the stored schema to be regenerated.
pub const REFRESH_HEADER: &'static str = "x-vibeapi-refresh";

/// Fixed instruction that goes with every generation request.
pub const SYSTEM_PROMPT: &'static str = "\nYou are a fake API response generator. Given an HTTP request, generate a realistic JSON response. The JSON response should just contain a body that makes sense for the specific response, and things like \"status\", \"timestamp\", \"request_id\" or other useless fields not directly related to the request shouldn't be returned.Do NOT include any markdown formatting or code blocks. Respond with raw JSON only. Strive not to return 'example.com' or something similar, you should strive for the links you are sending to be working.\n    ";

pub const PROMPT_OPENING: &'static str = "\nGenerate a fake API response based on the following request:\n\n- Method: ";
pub const PROMPT_PATH: &'static str = "\n- Path: ";
pub const PROMPT_HEADERS: &'static str = "\n- Headers: ";
pub const PROMPT_BODY: &'static str = "\n- Body: ";
pub const PROMPT_GAP: &'static str = "\n\n";
pub const PROMPT_CLOSING: &'static str = "\n\nReply ONLY with raw JSON. No explanation. No markdown.";
pub const SCHEMA_LEAD: &'static str = "This endpoint has a specific schema that MUST be followed: ";
pub const SCHEMA_TAIL: &'static str = " You MUST use exactly this schema structure, changing only the values to be appropriate for the current request parameters. The field names and nested structure must remain identical.";
pub const HEADER_SEPARATOR: &'static str = ": ";
pub const LINE_BREAK: &'static str = "\n";

/// A header name that controls this service and never reaches the prompt.
pub open spec fn is_control_name(name: Seq<char>) -> bool {
    lower_of(name) == AUTHORIZATION_HEADER@ || lower_of(name) == REFRESH_HEADER@
}

/// Tells whether a header name is one of the two control headers, compared
/// case-insensitively.
pub fn is_control_header(name: &str) -> (r: bool)
    ensures
        r == is_control_name(name@),
{
    let lower = lowercase(name);
    same_text(lower.as_str(), AUTHORIZATION_HEADER) || same_text(lower.as_str(), REFRESH_HEADER)
}

/// The headers of `hs` that are forwarded into the prompt, in order.
pub open spec fn forwarded(hs: Seq<(String, String)>) -> Seq<(String, String)>
    decreases hs.len(),
{
    if hs.len() == 0 {
        hs
    } else {
        let rest = forwarded(hs.drop_last());
        if is_control_name(hs.last().0@) {
            rest
        } else {
            rest.push(hs.last())
        }
    }
}

/// One header as the prompt shows it.
pub open spec fn header_line(h: (String, String)) -> Seq<char> {
    h.0@ + HEADER_SEPARATOR@ + h.1@
}

/// The header lines of `hs`, separated by line breaks.
pub open spec fn joined_lines(hs: Seq<(String, String)>) -> Seq<char>
    decreases hs.len(),
{
    if hs.len() == 0 {
        Seq::empty()
    } else if hs.len() == 1 {
        header_line(hs[0])
    } else {
        joined_lines(hs.drop_last()) + LINE_BREAK@ + header_line(hs.last())
    }
}

/// The header block of the prompt.
pub open spec fn rendered_headers(hs: Seq<(String, String)>) -> Seq<char> {
    joined_lines(forwarded(hs))
}

/// Renders the forwarded headers as `name: value` lines.
pub fn render_headers(headers: &Vec<(String, String)>) -> (r: String)
    ensures
        r@ == rendered_headers(headers@),
{
    let mut out = String::new();
    let mut any: bool = false;
    let mut i: usize = 0;
    while i < headers.len()
        invariant
            i <= headers@.len(),
            out@ == joined_lines(forwarded(headers@.take(i as int))),
            any == (forwarded(headers@.take(i as int)).len() > 0),
        decreases headers@.len() - i,
    {
        assert(headers@.take(i as int + 1).drop_last() =~= headers@.take(i as int));
        let name = &headers[i].0;
        let value = &headers[i].1;
        if !is_control_header(name.as_str()) {
            let ghost f = forwarded(headers@.take(i as int));
            proof {
                assert(f.push(headers@[i as int]).drop_last() =~= f);
            }
            if any {
                out.append(LINE_BREAK);
            }
            out.append(name.as_str());
            out.append(HEADER_SEPARATOR);
            out.append(value.as_str());
            any = true;
        }
        i = i + 1;
    }
    assert(headers@.take(i as int) =~= headers@);
    out
}

/// The structural constraint added when a schema is stored for the endpoint.
pub open spec fn schema_constraint(schema: Option<Seq<char>>) -> Seq<char> {
    match schema {
        Some(s) => SCHEMA_LEAD@ + s + SCHEMA_TAIL@,
        None => Seq::empty(),
    }
}

/// The user instruction for one request.
pub open spec fn user_prompt(
    method: Seq<char>,
    path: Seq<char>,
    headers: Seq<(String, String)>,
    body: Seq<char>,
    schema: Option<Seq<char>>,
) -> Seq<char> {
    PROMPT_OPENING@ + method + PROMPT_PATH@ + path + PROMPT_HEADERS@ + rendered_headers(headers)
        + PROMPT_BODY@ + body + PROMPT_GAP@ + schema_constraint(schema) + PROMPT_CLOSING@
}

/// Builds the user instruction for a request: method, path, forwarded
/// headers and body, plus the stored schema as a mandatory structure where
/// one is given.
pub fn build_user_prompt(
    method: &str,
    path: &str,
    headers: &Vec<(String, String)>,
    body: &str,
    schema: Option<&str>,
) -> (r: String)
    ensures
        r@ == user_prompt(method@, path@, headers@, body@, text_of(schema)),
{
    let rendered = render_headers(headers);
    let mut out = String::from_str(PROMPT_OPENING);
    out.append(method);
    out.append(PROMPT_PATH);
    out.append(path);
    out.append(PROMPT_HEADERS);
    out.append(rendered.as_str());
    out.append(PROMPT_BODY);
    out.append(body);
    out.append(PROMPT_GAP);
    let ghost before = out@;
    match schema {
        Some(s) => {
            out.append(SCHEMA_LEAD);
            out.append(s);
            out.append(SCHEMA_TAIL);
            assert(out@ =~= before + schema_constraint(Some(s@)));
        },
        None => {
            assert(out@ =~= before + schema_constraint(None));
        },
    }
    out.append(PROMPT_CLOSING);
    out
}

/// The fixed system instruction, as an owned string.
pub fn system_prompt() -> (r: String)
    ensures
        r@ == SYSTEM_PROMPT@,
{
    String::from_str(SYSTEM_PROMPT)
}

proof fn lemma_forwarded_has_no_control(hs: Seq<(String, String)>)
    ensures
        forall|k: int| 0 <= k < forwarded(hs).len() ==> !is_control_name(#[trigger] forwarded(hs)[k].0@),
    decreases hs.len(),
{
    if hs.len() > 0 {
        let rest = forwarded(hs.drop_last());
        lemma_forwarded_has_no_control(hs.drop_last());
        assert forall|k: int| 0 <= k < forwarded(hs).len() implies !is_control_name(
            #[trigger] forwarded(hs)[k].0@,
        ) by {
            if k < rest.len() {
                assert(forwarded(hs)[k] == rest[k]);
            }
        }
    }
}

proof fn lemma_forwarded_idempotent(hs: Seq<(String, String)>)
    ensures
        forwarded(forwarded(hs)) == forwarded(hs),
    decreases hs.len(),
{
    if hs.len() > 0 {
        let rest = forwarded(hs.drop_last());
        lemma_forwarded_idempotent(hs.drop_last());
        if !is_control_name(hs.last().0@) {
            assert(rest.push(hs.last()).drop_last() =~= rest);
        }
    }
}

/// The control headers never reach the prompt: every header shown in it is
/// outside the two control names, and the prompt is the same whether or not
/// control headers (with any values) are present in the request.
pub proof fn lemma_control_headers_excluded(
    method: Seq<char>,
    path: Seq<char>,
    headers: Seq<(String, String)>,
    body: Seq<char>,
    schema: Option<Seq<char>>,
)
    ensures
        forall|k: int| 0 <= k < forwarded(headers).len()
            ==> !is_control_name(#[trigger] forwarded(headers)[k].0@),
        user_prompt(method, path, headers, body, schema)
            == user_prompt(method, path, forwarded(headers), body, schema),
{
    lemma_forwarded_has_no_control(headers);
    lemma_forwarded_idempotent(headers);
}

/// A stored schema is carried verbatim into the prompt as its structural
/// constraint.
pub proof fn lemma_schema_in_prompt(
    method: Seq<char>,
    path: Seq<char>,
    headers: Seq<(String, String)>,
    body: Seq<char>,
    schema: Seq<char>,
)
    ensures
        crate::text::is_slice_of(schema, user_prompt(method, path, headers, body, Some(schema))),
        crate::text::is_slice_of(
            schema_constraint(Some(schema)),
            user_prompt(method, path, headers, body, Some(schema)),
        ),
{
    let p = user_prompt(method, path, headers, body, Some(schema));
    let head = PROMPT_OPENING@ + method + PROMPT_PATH@ + path + PROMPT_HEADERS@
        + rendered_headers(headers) + PROMPT_BODY@ + body + PROMPT_GAP@;
    let c = schema_constraint(Some(schema));
    let a = head + SCHEMA_LEAD@;
    assert(p =~= a + schema + (SCHEMA_TAIL@ + PROMPT_CLOSING@));
    assert(p.subrange(a.len() as int, (a.len() + schema.len()) as int) =~= schema);
    assert(p =~= head + c + PROMPT_CLOSING@);
    assert(p.subrange(head.len() as int, (head.len() + c.len()) as int) =~= c);
}

} // verus!
