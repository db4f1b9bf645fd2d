//! Verdicts from the classification providers' replies. Every failure, from an
//! unreachable provider to a reply of an unexpected shape, counts as unsafe.

use vstd::prelude::*;

verus! {

/// A JSON document, as the library reads provider replies.
#[derive(Debug, PartialEq, Eq)]
pub enum Json {
    Null,
    Bool(bool),
    /// The number's text, as serde_json writes it.
    Number(String),
    Str(String),
    Array(Vec<Json>),
    /// Members in the order serde_json keeps them; keys are distinct.
    Object(Vec<(String, Json)>),
}

#[verifier::external_type_specification]
#[verifier::external_body]
pub struct ExJsonValue(serde_json::Value);

/// What `serde_json::from_str` reads from a text: the JSON document, or `None`
/// where the text is not one.
pub uninterp spec fn json_of(text: Seq<char>) -> Option<Json>;

/// Relies on `serde_json::from_str`: the JSON document that `text` holds, if it
/// is one. The result depends on the text alone.
#[verifier::external_body]
fn parse_json(text: &str) -> (r: Option<Json>)
    ensures
        r == json_of(text@),
{
    match serde_json::from_str::<serde_json::Value>(text) {
        Ok(v) => Some(json_from_value(&v)),
        Err(_) => None,
    }
}

/// Relies on the variants of `serde_json::Value`: turns each into the `Json`
/// variant of the same kind, one for one.
#[verifier::external_body]
fn json_from_value(v: &serde_json::Value) -> Json {
    match v {
        serde_json::Value::Null => Json::Null,
        serde_json::Value::Bool(b) => Json::Bool(*b),
        serde_json::Value::Number(n) => Json::Number(n.to_string()),
        serde_json::Value::String(t) => Json::Str(t.clone()),
        serde_json::Value::Array(a) => Json::Array(a.iter().map(json_from_value).collect()),
        serde_json::Value::Object(m) => {
            Json::Object(m.iter().map(|(k, x)| (k.clone(), json_from_value(x))).collect())
        },
    }
}

/// The value of the member named `key`, the first where several are.
pub open spec fn member(fields: Seq<(String, Json)>, key: Seq<char>) -> Option<Json>
    decreases fields.len(),
{
    if fields.len() == 0 {
        None
    } else if fields[0].0@ == key {
        Some(fields[0].1)
    } else {
        member(fields.drop_first(), key)
    }
}

pub open spec fn results_key() -> Seq<char> {
    seq!['r', 'e', 's', 'u', 'l', 't', 's']
}

pub open spec fn flagged_key() -> Seq<char> {
    seq!['f', 'l', 'a', 'g', 'g', 'e', 'd']
}

pub open spec fn is_safe_key() -> Seq<char> {
    seq!['i', 's', '_', 's', 'a', 'f', 'e']
}

/// The boolean `flagged` member of the first element of the `results` array.
pub open spec fn first_flagged(j: Json) -> Option<bool> {
    match j {
        Json::Object(fields) => match member(fields@, results_key()) {
            Some(Json::Array(items)) => if items@.len() > 0 {
                match items@[0] {
                    Json::Object(inner) => match member(inner@, flagged_key()) {
                        Some(Json::Bool(b)) => Some(b),
                        _ => None,
                    },
                    _ => None,
                }
            } else {
                None
            },
            _ => None,
        },
        _ => None,
    }
}

/// The boolean `is_safe` member at the top of the document.
pub open spec fn top_is_safe(j: Json) -> Option<bool> {
    match j {
        Json::Object(fields) => match member(fields@, is_safe_key()) {
            Some(Json::Bool(b)) => Some(b),
            _ => None,
        },
        _ => None,
    }
}

/// Whether two texts are the same.
pub fn same_text(a: &str, b: &str) -> (r: bool)
    ensures
        r == (a@ == b@),
{
    let n = a.unicode_len();
    if n != b.unicode_len() {
        return false;
    }
    let mut i: usize = 0;
    while i < n
        invariant
            n == a@.len(),
            n == b@.len(),
            i <= n,
            forall|k: int| 0 <= k < i ==> a@[k] == b@[k],
        decreases n - i,
    {
        if a.get_char(i) != b.get_char(i) {
            return false;
        }
        i = i + 1;
    }
    assert(a@ =~= b@);
    true
}

/// The value of the member named `key` among `fields`.
pub fn find_member<'a>(fields: &'a Vec<(String, Json)>, key: &str) -> (r: Option<&'a Json>)
    ensures
        member(fields@, key@) == (match r {
            Some(j) => Some(*j),
            None => None,
        }),
{
    let mut i: usize = 0;
    assert(fields@.subrange(0, fields@.len() as int) =~= fields@);
    while i < fields.len()
        invariant
            i <= fields@.len(),
            member(fields@, key@) == member(fields@.subrange(i as int, fields@.len() as int), key@),
        decreases fields@.len() - i,
    {
        let ghost rest = fields@.subrange(i as int, fields@.len() as int);
        assert(rest.drop_first() =~= fields@.subrange(i + 1, fields@.len() as int));
        if same_text(fields[i].0.as_str(), key) {
            return Some(&fields[i].1);
        }
        i = i + 1;
    }
    assert(fields@.subrange(i as int, fields@.len() as int) =~= Seq::<(String, Json)>::empty());
    None
}

/// The `flagged` boolean of the first element of `results` in a document.
pub fn flagged_in(j: &Json) -> (r: Option<bool>)
    ensures
        r == first_flagged(*j),
{
    proof {
        reveal_strlit("results");
        reveal_strlit("flagged");
    }
    assert("results"@ =~= results_key());
    assert("flagged"@ =~= flagged_key());
    match j {
        Json::Object(fields) => match find_member(fields, "results") {
            Some(Json::Array(items)) => {
                if items.len() == 0 {
                    return None;
                }
                match &items[0] {
                    Json::Object(inner) => match find_member(inner, "flagged") {
                        Some(Json::Bool(b)) => Some(*b),
                        _ => None,
                    },
                    _ => None,
                }
            },
            _ => None,
        },
        _ => None,
    }
}

/// The `is_safe` boolean at the top of a document.
pub fn is_safe_in(j: &Json) -> (r: Option<bool>)
    ensures
        r == top_is_safe(*j),
{
    proof {
        reveal_strlit("is_safe");
    }
    assert("is_safe"@ =~= is_safe_key());
    match j {
        Json::Object(fields) => match find_member(fields, "is_safe") {
            Some(Json::Bool(b)) => Some(*b),
            _ => None,
        },
        _ => None,
    }
}

/// What came back from one call to a classification provider.
#[derive(Debug, PartialEq, Eq)]
pub enum ProviderReply {
    /// The request could not be sent or no answer arrived.
    Unreachable,
    /// An HTTP answer, with its status code and body.
    Answered { status: u16, body: String },
}

/// The provider answered with a 2xx status.
pub open spec fn reply_succeeded(reply: ProviderReply) -> bool {
    match reply {
        ProviderReply::Answered { status, .. } => 200 <= status <= 299,
        ProviderReply::Unreachable => false,
    }
}

/// Whether an HTTP status code is a success (2xx).
pub fn status_is_success(status: u16) -> (r: bool)
    ensures
        r == (200 <= status <= 299),
{
    200 <= status && status <= 299
}

/// The text verdict from the `flagged` field that the reply held, if it held one
/// as a boolean: safe only where it said `false`.
pub fn verdict_from_flagged(flagged: Option<bool>) -> (r: bool)
    ensures
        r == (flagged == Some(false)),
{
    match flagged {
        Some(f) => !f,
        None => false,
    }
}

/// The image verdict from the `is_safe` field that the reply held, if it held
/// one as a boolean: safe only where it said `true`.
pub fn verdict_from_is_safe(is_safe: Option<bool>) -> (r: bool)
    ensures
        r == (is_safe == Some(true)),
{
    match is_safe {
        Some(b) => b,
        None => false,
    }
}

/// The text verdict from a reply's status and the `flagged` field its body
/// held: safe only for a 2xx reply that said `flagged: false`.
pub fn text_verdict(status: u16, flagged: Option<bool>) -> (r: bool)
    ensures
        r == (200 <= status <= 299 && flagged == Some(false)),
{
    status_is_success(status) && verdict_from_flagged(flagged)
}

/// The image verdict from a reply's status and the `is_safe` field its body
/// held: safe only for a 2xx reply that said `is_safe: true`.
pub fn image_verdict(status: u16, is_safe: Option<bool>) -> (r: bool)
    ensures
        r == (200 <= status <= 299 && is_safe == Some(true)),
{
    status_is_success(status) && verdict_from_is_safe(is_safe)
}

/// What the text provider's reply body says of `flagged`.
pub open spec fn reply_flagged(reply: ProviderReply) -> Option<bool> {
    match reply {
        ProviderReply::Answered { body, .. } => match json_of(body@) {
            Some(j) => first_flagged(j),
            None => None,
        },
        ProviderReply::Unreachable => None,
    }
}

/// What the image provider's reply body says of `is_safe`.
pub open spec fn reply_is_safe(reply: ProviderReply) -> Option<bool> {
    match reply {
        ProviderReply::Answered { body, .. } => match json_of(body@) {
            Some(j) => top_is_safe(j),
            None => None,
        },
        ProviderReply::Unreachable => None,
    }
}

fn first_result_flagged(body: &str) -> (r: Option<bool>)
    ensures
        r == (match json_of(body@) {
            Some(j) => first_flagged(j),
            None => None,
        }),
{
    match parse_json(body) {
        Some(doc) => flagged_in(&doc),
        None => None,
    }
}

fn top_level_is_safe(body: &str) -> (r: Option<bool>)
    ensures
        r == (match json_of(body@) {
            Some(j) => top_is_safe(j),
            None => None,
        }),
{
    match parse_json(body) {
        Some(doc) => is_safe_in(&doc),
        None => None,
    }
}

/// Whether the text provider's reply says the message is safe. A reply that
/// did not arrive, has a non-2xx status, or is not of the expected shape gives
/// `false`.
pub fn is_message_safe(reply: &ProviderReply) -> (r: bool)
    ensures
        r == (reply_succeeded(*reply) && reply_flagged(*reply) == Some(false)),
{
    match reply {
        ProviderReply::Unreachable => false,
        ProviderReply::Answered { status, body } => {
            if !status_is_success(*status) {
                return false;
            }
            text_verdict(*status, first_result_flagged(body.as_str()))
        },
    }
}

/// Whether the image provider's reply says the image is safe. A reply that did
/// not arrive, has a non-2xx status, or is not of the expected shape gives
/// `false`.
pub fn is_image_safe(reply: &ProviderReply) -> (r: bool)
    ensures
        r == (reply_succeeded(*reply) && reply_is_safe(*reply) == Some(true)),
{
    match reply {
        ProviderReply::Unreachable => false,
        ProviderReply::Answered { status, body } => {
            if !status_is_success(*status) {
                return false;
            }
            image_verdict(*status, top_level_is_safe(body.as_str()))
        },
    }
}

pub open spec fn image_prefix() -> Seq<char> {
    seq!['i', 'm', 'a', 'g', 'e']
}

/// A declared content type names an image where it starts with `image`.
pub open spec fn names_image(content_type: Option<Seq<char>>) -> bool {
    match content_type {
        Some(ct) => ct.len() >= 5 && ct.subrange(0, 5) == image_prefix(),
        None => false,
    }
}

/// Whether an attachment's declared content type is an image type.
pub fn content_type_is_image(content_type: Option<&str>) -> (r: bool)
    ensures
        r == names_image(match content_type {
            Some(c) => Some(c@),
            None => None,
        }),
{
    match content_type {
        None => false,
        Some(ct) => {
            let n = ct.unicode_len();
            if n < 5 {
                return false;
            }
            let ok = ct.get_char(0) == 'i' && ct.get_char(1) == 'm' && ct.get_char(2) == 'a'
                && ct.get_char(3) == 'g' && ct.get_char(4) == 'e';
            assert(ok == (ct@.subrange(0, 5) =~= image_prefix()));
            ok
        },
    }
}

} // verus!
