use vstd::prelude::*;

verus! {

// Envelope encoding is an external collaborator: serde_json decodes inbound
// frames and quotes outbound content. Each direction gets one trusted
// wrapper; what the wrapper returns is a function of its arguments alone, so
// the result is given a name, and the library's contracts speak of the name.

/// What `parse_envelope` finds in a wire frame: nothing when the text is not
/// a JSON object with a string `type` and a `payload`; otherwise the `type`
/// and, when `payload.content` is a JSON string, that content.
pub uninterp spec fn parse_env(text: Seq<char>) -> Option<(Seq<char>, Option<Seq<char>>)>;

/// The envelope text that carries a document state: content and version.
pub uninterp spec fn content_update_json(content: Seq<char>, version: u64) -> Seq<char>;

/// The envelope text that carries a user count.
pub uninterp spec fn user_count_json(count: int) -> Seq<char>;

/// What an exec parse result denotes, for holding it against `parse_env`.
pub open spec fn envelope_view(r: Option<(String, Option<String>)>) -> Option<
    (Seq<char>, Option<Seq<char>>),
> {
    match r {
        Some((kind, content)) => Some(
            (
                kind@,
                match content {
                    Some(c) => Some(c@),
                    None => None,
                },
            ),
        ),
        None => None,
    }
}

/// Relies on serde_json::from_str over Value, Value::get and Value::as_str:
/// decodes one inbound envelope, a function of the text alone.
#[verifier::external_body]
pub fn parse_envelope(text: &str) -> (r: Option<(String, Option<String>)>)
    ensures
        envelope_view(r) == parse_env(text@),
{
    let value: serde_json::Value = match serde_json::from_str(text) {
        Ok(v) => v,
        Err(_) => return None,
    };
    let kind = match value.get("type").and_then(|t| t.as_str()) {
        Some(k) => k.to_string(),
        None => return None,
    };
    let payload = match value.get("payload") {
        Some(p) => p,
        None => return None,
    };
    let content = payload.get("content").and_then(|c| c.as_str()).map(|s| s.to_string());
    Some((kind, content))
}

/// Relies on serde_json::to_string over str: the JSON quoting and escaping
/// of the content. The envelope text is a function of the arguments alone.
#[verifier::external_body]
pub fn content_update_message(content: &str, version: u64) -> (r: String)
    ensures
        r@ == content_update_json(content@, version),
{
    let quoted = serde_json::to_string(content).unwrap_or_default();
    format!(
        "{{\"type\":\"content_update\",\"payload\":{{\"content\":{},\"version\":{}}}}}",
        quoted, version,
    )
}

/// Relies on serde_json::to_string over usize: the decimal digits of the
/// count. The envelope text is a function of the count alone.
#[verifier::external_body]
pub fn user_count_message(count: usize) -> (r: String)
    ensures
        r@ == user_count_json(count as int),
{
    let digits = serde_json::to_string(&count).unwrap_or_default();
    format!("{{\"type\":\"user_count_update\",\"payload\":{{\"count\":{}}}}}", digits)
}

} // verus!
