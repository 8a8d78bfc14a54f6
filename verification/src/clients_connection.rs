//! The JSON bodies of the requests that the service sends: the question to
//! the language model, the embedding of a text, the nearest-neighbour search
//! and the upload of one validation rule.
use vstd::prelude::*;
use crate::json_text::{json_quoted, quote, decimal, decimal_text, law_json_quoted_injective, law_decimal_injective};

verus! {

/// What the model is told it is and what it must decide.
pub const ROLE_TEXT: &'static str = "you are acting as an accessibility engineer \n                    (Evinced-style). Given (A) an issue description and (B) a list of candidate validation \n                rules from retrieval, decide which rule(s), if any, plausibly detect or cover this issue,\n                 and briefly why";

/// The heading put before the issue.
pub const ISSUE_HEADING: &'static str = "### Issue description \n";

/// The heading put before the candidate rules.
pub const CONTEXT_HEADING: &'static str = "Here is a list of the possible validations: \n";

/// The form in which the model must answer.
pub const ANSWER_FORMAT: &'static str = "Return format:\n                if you thing a validation fits, return the name of the validation with a short explanation of why\n                if you don't think any of them fit, return the None\n                if you think I should decide, return the name of the validation and ###Menual check###";

/// One user turn of the conversation: `{"parts":[{"text":..}],"role":"user"}`.
pub open spec fn user_turn(text: Seq<char>) -> Seq<char> {
    "{\"parts\":[{\"text\":"@ + json_quoted(text) + "}],\"role\":\"user\"}"@
}

/// The body of the question about one issue: four user turns (role, issue,
/// candidate rules, answer format) and the model's name, keys in the order
/// in which `serde_json` writes an object.
pub open spec fn gemini_body(query: Seq<char>, context: Seq<char>) -> Seq<char> {
    "{\"contents\":["@ + user_turn(ROLE_TEXT@) + ","@ + user_turn(ISSUE_HEADING@ + query) + ","@
        + user_turn(CONTEXT_HEADING@ + context) + ","@ + user_turn(ANSWER_FORMAT@)
        + "],\"model\":\"models/gemini-3-flash-preview\"}"@
}

proof fn lemma_cancel(head: Seq<char>, x: Seq<char>, y: Seq<char>, tail: Seq<char>)
    requires
        head + x + tail == head + y + tail,
    ensures
        x == y,
{
    let a = head + x + tail;
    let b = head + y + tail;
    assert(a.len() == b.len());
    assert(x =~= a.subrange(head.len() as int, a.len() - tail.len()));
    assert(y =~= b.subrange(head.len() as int, b.len() - tail.len()));
}

proof fn lemma_prefixed_injective(prefix: Seq<char>, a: Seq<char>, b: Seq<char>)
    requires
        prefix + a == prefix + b,
    ensures
        a == b,
{
    assert(a =~= (prefix + a).skip(prefix.len() as int));
    assert(b =~= (prefix + b).skip(prefix.len() as int));
}

/// The question carries the issue whole: for the same candidate rules, two
/// issues that differ in anything give different questions.
pub proof fn law_question_keeps_whole_issue(q1: Seq<char>, q2: Seq<char>, context: Seq<char>)
    requires
        gemini_body(q1, context) == gemini_body(q2, context),
    ensures
        q1 == q2,
{
    let head = "{\"contents\":["@ + user_turn(ROLE_TEXT@) + ","@ + "{\"parts\":[{\"text\":"@;
    let tail = "}],\"role\":\"user\"}"@ + ","@ + user_turn(CONTEXT_HEADING@ + context) + ","@
        + user_turn(ANSWER_FORMAT@) + "],\"model\":\"models/gemini-3-flash-preview\"}"@;
    assert(gemini_body(q1, context) =~= head + json_quoted(ISSUE_HEADING@ + q1) + tail);
    assert(gemini_body(q2, context) =~= head + json_quoted(ISSUE_HEADING@ + q2) + tail);
    lemma_cancel(head, json_quoted(ISSUE_HEADING@ + q1), json_quoted(ISSUE_HEADING@ + q2), tail);
    law_json_quoted_injective(ISSUE_HEADING@ + q1, ISSUE_HEADING@ + q2);
    lemma_prefixed_injective(ISSUE_HEADING@, q1, q2);
}

/// The question carries the candidate rules whole: for the same issue, two
/// lists of candidates that differ in anything give different questions.
pub proof fn law_question_keeps_whole_context(query: Seq<char>, c1: Seq<char>, c2: Seq<char>)
    requires
        gemini_body(query, c1) == gemini_body(query, c2),
    ensures
        c1 == c2,
{
    let head = "{\"contents\":["@ + user_turn(ROLE_TEXT@) + ","@ + user_turn(ISSUE_HEADING@ + query) + ","@
        + "{\"parts\":[{\"text\":"@;
    let tail = "}],\"role\":\"user\"}"@ + ","@ + user_turn(ANSWER_FORMAT@)
        + "],\"model\":\"models/gemini-3-flash-preview\"}"@;
    assert(gemini_body(query, c1) =~= head + json_quoted(CONTEXT_HEADING@ + c1) + tail);
    assert(gemini_body(query, c2) =~= head + json_quoted(CONTEXT_HEADING@ + c2) + tail);
    lemma_cancel(head, json_quoted(CONTEXT_HEADING@ + c1), json_quoted(CONTEXT_HEADING@ + c2), tail);
    law_json_quoted_injective(CONTEXT_HEADING@ + c1, CONTEXT_HEADING@ + c2);
    lemma_prefixed_injective(CONTEXT_HEADING@, c1, c2);
}

fn push_user_turn(body: &mut String, text: &str)
    ensures
        final(body)@ == old(body)@ + user_turn(text@),
{
    body.append("{\"parts\":[{\"text\":");
    let quoted = quote(text);
    body.append(quoted.as_str());
    body.append("}],\"role\":\"user\"}");
}

/// The body of the request that asks the model which of the candidate rules
/// in `context_string` cover the issue `query`.
pub fn create_body(query: &String, context_string: &String) -> (body: String)
    ensures
        body@ == gemini_body(query@, context_string@),
{
    let mut body = String::from_str("{\"contents\":[");
    push_user_turn(&mut body, ROLE_TEXT);
    body.append(",");
    let mut description = String::from_str(ISSUE_HEADING);
    description.append(query.as_str());
    push_user_turn(&mut body, description.as_str());
    body.append(",");
    let mut context = String::from_str(CONTEXT_HEADING);
    context.append(context_string.as_str());
    push_user_turn(&mut body, context.as_str());
    body.append(",");
    push_user_turn(&mut body, ANSWER_FORMAT);
    body.append("],\"model\":\"models/gemini-3-flash-preview\"}");
    body
}

/// The body that asks for the embedding of `text`, in the dimension that
/// the vector store was made with.
pub open spec fn embedding_request(text: Seq<char>) -> Seq<char> {
    "{\"content\":{\"parts\":[{\"text\":"@ + json_quoted(text)
        + "}]},\"model\":\"models/gemini-embedding-001\",\"output_dimensionality\":768}"@
}

/// The embedding request carries the whole text: two texts that differ in
/// anything (a later line, a single character) give different requests.
pub proof fn law_embedding_request_keeps_whole_text(a: Seq<char>, b: Seq<char>)
    requires
        embedding_request(a) == embedding_request(b),
    ensures
        a == b,
{
    let head = "{\"content\":{\"parts\":[{\"text\":"@;
    let tail = "}]},\"model\":\"models/gemini-embedding-001\",\"output_dimensionality\":768}"@;
    let ra = embedding_request(a);
    let rb = embedding_request(b);
    assert(ra == head + json_quoted(a) + tail);
    assert(rb == head + json_quoted(b) + tail);
    assert(json_quoted(a) =~= ra.subrange(head.len() as int, ra.len() - tail.len()));
    assert(json_quoted(b) =~= rb.subrange(head.len() as int, rb.len() - tail.len()));
    law_json_quoted_injective(a, b);
}

/// Writes the body that asks for the embedding of `text`.
pub fn embedding_body(text: &str) -> (body: String)
    ensures
        body@ == embedding_request(text@),
{
    let mut body = String::from_str("{\"content\":{\"parts\":[{\"text\":");
    let quoted = quote(text);
    body.append(quoted.as_str());
    body.append("}]},\"model\":\"models/gemini-embedding-001\",\"output_dimensionality\":768}");
    body
}

/// The body of the search for the three rules nearest to an embedding,
/// given as the JSON text of its array of numbers.
pub open spec fn search_request(embedding: Seq<char>) -> Seq<char> {
    "{\"annsField\":\"vector\",\"collectionName\":\"Validations\",\"data\":["@ + embedding
        + "],\"limit\":3,\"outputFields\":[\"*\"]}"@
}

/// The search carries the embedding's text whole, as the single element of
/// its `data` array.
pub proof fn law_search_request_carries_embedding(embedding: Seq<char>)
    ensures
        search_request(embedding).subrange(61, 61 + embedding.len() as int) == embedding,
        search_request(embedding).len() == embedding.len() + 94,
{
    reveal_strlit("{\"annsField\":\"vector\",\"collectionName\":\"Validations\",\"data\":[");
    reveal_strlit("],\"limit\":3,\"outputFields\":[\"*\"]}");
    let r = search_request(embedding);
    assert(r.subrange(61, 61 + embedding.len() as int) =~= embedding);
}

/// Writes the body of the nearest-neighbour search for `embedding`.
pub fn search_body(embedding: &str) -> (body: String)
    ensures
        body@ == search_request(embedding@),
{
    let mut body = String::from_str(
        "{\"annsField\":\"vector\",\"collectionName\":\"Validations\",\"data\":[",
    );
    body.append(embedding);
    body.append("],\"limit\":3,\"outputFields\":[\"*\"]}");
    body
}

/// The body that stores one rule, its description and its embedding (the
/// JSON text of an array of numbers) under the key `index`.
pub open spec fn upsert_request(index: nat, desc: Seq<char>, vector: Seq<char>) -> Seq<char> {
    "{\"collectionName\":\"Validations\",\"data\":[{\"Scaler\":"@ + json_quoted(desc)
        + ",\"primary_key\":"@ + decimal(index) + ",\"vector\":"@ + vector + "}]}"@
}

/// The stored rule carries its whole description: for the same key and
/// embedding, two descriptions that differ in anything give different bodies.
pub proof fn law_upsert_keeps_whole_description(index: nat, d1: Seq<char>, d2: Seq<char>, vector: Seq<char>)
    requires
        upsert_request(index, d1, vector) == upsert_request(index, d2, vector),
    ensures
        d1 == d2,
{
    let head = "{\"collectionName\":\"Validations\",\"data\":[{\"Scaler\":"@;
    let tail = ",\"primary_key\":"@ + decimal(index) + ",\"vector\":"@ + vector + "}]}"@;
    assert(upsert_request(index, d1, vector) =~= head + json_quoted(d1) + tail);
    assert(upsert_request(index, d2, vector) =~= head + json_quoted(d2) + tail);
    lemma_cancel(head, json_quoted(d1), json_quoted(d2), tail);
    law_json_quoted_injective(d1, d2);
}

/// The stored rule carries its embedding whole: for the same key and
/// description, two embeddings that differ give different bodies.
pub proof fn law_upsert_keeps_whole_vector(index: nat, desc: Seq<char>, v1: Seq<char>, v2: Seq<char>)
    requires
        upsert_request(index, desc, v1) == upsert_request(index, desc, v2),
    ensures
        v1 == v2,
{
    let head = "{\"collectionName\":\"Validations\",\"data\":[{\"Scaler\":"@ + json_quoted(desc)
        + ",\"primary_key\":"@ + decimal(index) + ",\"vector\":"@;
    let tail = "}]}"@;
    assert(upsert_request(index, desc, v1) =~= head + v1 + tail);
    assert(upsert_request(index, desc, v2) =~= head + v2 + tail);
    lemma_cancel(head, v1, v2, tail);
}

/// Each rule is stored under its own key: two different positions give
/// different bodies.
pub proof fn law_upsert_keys_differ(i: nat, j: nat, desc: Seq<char>, vector: Seq<char>)
    requires
        upsert_request(i, desc, vector) == upsert_request(j, desc, vector),
    ensures
        i == j,
{
    let head = "{\"collectionName\":\"Validations\",\"data\":[{\"Scaler\":"@ + json_quoted(desc)
        + ",\"primary_key\":"@;
    let tail = ",\"vector\":"@ + vector + "}]}"@;
    assert(upsert_request(i, desc, vector) =~= head + decimal(i) + tail);
    assert(upsert_request(j, desc, vector) =~= head + decimal(j) + tail);
    lemma_cancel(head, decimal(i), decimal(j), tail);
    law_decimal_injective(i, j);
}

/// Writes the body that stores rule number `index`.
pub fn upsert_body(index: u64, desc: &String, vector: &str) -> (body: String)
    ensures
        body@ == upsert_request(index as nat, desc@, vector@),
{
    let mut body = String::from_str("{\"collectionName\":\"Validations\",\"data\":[{\"Scaler\":");
    let quoted = quote(desc.as_str());
    body.append(quoted.as_str());
    body.append(",\"primary_key\":");
    let key = decimal_text(index);
    body.append(key.as_str());
    body.append(",\"vector\":");
    body.append(vector);
    body.append("}]}");
    body
}

} // verus!
