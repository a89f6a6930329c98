use vstd::prelude::*;
use vstd::string::StringExecFns;

use crate::json::JsonValue;

verus! {

/// The characters with the Unicode property White_Space.
pub open spec fn is_white_space(c: char) -> bool {
    ('\u{9}' <= c && c <= '\u{d}') || c == ' ' || c == '\u{85}' || c == '\u{a0}'
        || c == '\u{1680}' || ('\u{2000}' <= c && c <= '\u{200a}') || c == '\u{2028}'
        || c == '\u{2029}' || c == '\u{202f}' || c == '\u{205f}' || c == '\u{3000}'
}

/// `s` without its leading white space.
pub open spec fn trim_start(s: Seq<char>) -> Seq<char>
    decreases s.len(),
{
    if s.len() > 0 && is_white_space(s[0]) {
        trim_start(s.drop_first())
    } else {
        s
    }
}

/// `s` without its trailing white space.
pub open spec fn trim_end(s: Seq<char>) -> Seq<char>
    decreases s.len(),
{
    if s.len() > 0 && is_white_space(s.last()) {
        trim_end(s.drop_last())
    } else {
        s
    }
}

/// `s` without leading and trailing white space.
pub open spec fn trim(s: Seq<char>) -> Seq<char> {
    trim_end(trim_start(s))
}

/// The lower-case form of a string, as Unicode's case mapping gives it.
pub uninterp spec fn lower_of(s: Seq<char>) -> Seq<char>;

/// The canonical form of an intent: trimmed, then lower-cased.
pub open spec fn normalized(intent: Seq<char>) -> Seq<char> {
    lower_of(trim(intent))
}

/// The namespace that every operation name starts with.
pub open spec fn operation_prefix() -> Seq<char> {
    "tasks_"@
}

/// The backend operation that an intent routes to.
pub open spec fn operation_for(intent: Seq<char>) -> Seq<char> {
    operation_prefix() + normalized(intent)
}

/// Every character of `s` is white space.
pub open spec fn all_white_space(s: Seq<char>) -> bool {
    forall|i: int| 0 <= i < s.len() ==> is_white_space(#[trigger] s[i])
}

proof fn lemma_trim_start_skips_white_prefix(a: Seq<char>, s: Seq<char>)
    requires
        all_white_space(a),
    ensures
        trim_start(a + s) == trim_start(s),
    decreases a.len(),
{
    if a.len() > 0 {
        assert((a + s)[0] == a[0]);
        assert((a + s).drop_first() == a.drop_first() + s);
        lemma_trim_start_skips_white_prefix(a.drop_first(), s);
    } else {
        assert(a + s == s);
    }
}

proof fn lemma_trim_end_skips_white_suffix(s: Seq<char>, b: Seq<char>)
    requires
        all_white_space(b),
    ensures
        trim_end(s + b) == trim_end(s),
    decreases b.len(),
{
    if b.len() > 0 {
        assert((s + b).last() == b.last());
        assert((s + b).drop_last() == s + b.drop_last());
        lemma_trim_end_skips_white_suffix(s, b.drop_last());
    } else {
        assert(s + b == s);
    }
}

proof fn lemma_trim_start_of_white_suffix(s: Seq<char>, b: Seq<char>)
    requires
        all_white_space(b),
    ensures
        trim_start(s).len() > 0 ==> trim_start(s + b) == trim_start(s) + b,
        trim_start(s).len() == 0 ==> trim_start(s + b).len() == 0,
    decreases s.len(),
{
    if s.len() == 0 {
        assert(s + b == b);
        lemma_trim_start_skips_white_prefix(b, Seq::empty());
        assert(b + Seq::<char>::empty() == b);
    } else if is_white_space(s[0]) {
        assert((s + b)[0] == s[0]);
        assert((s + b).drop_first() == s.drop_first() + b);
        lemma_trim_start_of_white_suffix(s.drop_first(), b);
    } else {
        assert((s + b)[0] == s[0]);
    }
}

proof fn lemma_trim_start_shape(s: Seq<char>)
    ensures
        trim_start(s).len() > 0 ==> !is_white_space(trim_start(s)[0]),
        exists|k: int| 0 <= k <= s.len() && trim_start(s) == s.subrange(k, s.len() as int),
    decreases s.len(),
{
    if s.len() > 0 && is_white_space(s[0]) {
        lemma_trim_start_shape(s.drop_first());
        let k = choose|k: int|
            0 <= k <= s.drop_first().len() && trim_start(s.drop_first()) == s.drop_first().subrange(
                k,
                s.drop_first().len() as int,
            );
        assert(s.drop_first().subrange(k, s.drop_first().len() as int) == s.subrange(
            k + 1,
            s.len() as int,
        ));
    } else {
        assert(s == s.subrange(0, s.len() as int));
    }
}

proof fn lemma_trim_end_shape(s: Seq<char>)
    ensures
        trim_end(s).len() > 0 ==> !is_white_space(trim_end(s).last()),
        trim_end(s).len() <= s.len(),
        trim_end(s) == s.subrange(0, trim_end(s).len() as int),
    decreases s.len(),
{
    if s.len() > 0 && is_white_space(s.last()) {
        lemma_trim_end_shape(s.drop_last());
        assert(s.drop_last().subrange(0, trim_end(s).len() as int) == s.subrange(
            0,
            trim_end(s).len() as int,
        ));
    } else {
        assert(s == s.subrange(0, s.len() as int));
    }
}

proof fn lemma_trim_end_idempotent(s: Seq<char>)
    ensures
        trim_end(trim_end(s)) == trim_end(s),
{
    lemma_trim_end_shape(s);
}

proof fn lemma_trim_start_of_unpadded(s: Seq<char>)
    requires
        s.len() == 0 || !is_white_space(s[0]),
    ensures
        trim_start(s) == s,
{
}

/// A trimmed intent has no white space at either end, and trimming it again
/// changes nothing.
pub proof fn lemma_trim_is_trimmed(s: Seq<char>)
    ensures
        trim(s).len() > 0 ==> !is_white_space(trim(s)[0]) && !is_white_space(trim(s).last()),
        trim(trim(s)) == trim(s),
{
    let t = trim_start(s);
    lemma_trim_start_shape(s);
    lemma_trim_end_shape(t);
    let u = trim_end(t);
    if u.len() > 0 {
        assert(u[0] == t[0]);
    }
    lemma_trim_start_of_unpadded(u);
    lemma_trim_end_idempotent(t);
}

/// White space around an intent does not change its canonical form, and so the
/// intent routes to the same operation with or without it.
pub proof fn lemma_surrounding_white_space_routes_alike(a: Seq<char>, s: Seq<char>, b: Seq<char>)
    requires
        all_white_space(a),
        all_white_space(b),
    ensures
        normalized(a + s + b) == normalized(s),
        operation_for(a + s + b) == operation_for(s),
{
    assert(a + s + b == a + (s + b));
    lemma_trim_start_skips_white_prefix(a, s + b);
    lemma_trim_start_of_white_suffix(s, b);
    if trim_start(s).len() > 0 {
        lemma_trim_end_skips_white_suffix(trim_start(s), b);
    } else {
        assert(trim_start(s + b) =~= trim_start(s));
    }
    assert(trim(a + s + b) == trim(s));
}

/// Relies on str::trim: removes leading and trailing White_Space characters.
#[verifier::external_body]
fn trim_white_space<'a>(s: &'a str) -> (r: &'a str)
    ensures
        r@ == trim(s@),
{
    s.trim()
}

/// Relies on str::to_lowercase: the lower-case mapping of each character, which
/// depends on the characters alone.
#[verifier::external_body]
fn lowercase(s: &str) -> (r: String)
    ensures
        r@ == lower_of(s@),
{
    s.to_lowercase()
}

/// Normalizes an intent: trims surrounding white space, then lower-cases it.
pub fn normalize_intent(intent: &str) -> (r: String)
    ensures
        r@ == normalized(intent@),
{
    lowercase(trim_white_space(intent))
}

/// Builds the backend operation name of an already normalized intent.
pub fn operation_name(normalized_intent: &str) -> (r: String)
    ensures
        r@ == operation_prefix() + normalized_intent@,
{
    "tasks_".to_owned().concat(normalized_intent)
}

/// A call to make on the backend for one intent.
#[derive(Debug)]
pub struct IntentRequest {
    /// The intent in canonical form, reported back when the call fails.
    pub intent: String,
    /// The backend operation to invoke.
    pub operation: String,
    /// The parameters handed to the operation.
    pub params: JsonValue,
}

/// `req` is the request that `intent` with `params` gives.
pub open spec fn request_for(req: IntentRequest, intent: Seq<char>, params: Option<JsonValue>) -> bool {
    &&& req.intent@ == normalized(intent)
    &&& req.operation@ == operation_for(intent)
    &&& match params {
        Some(p) => req.params == p,
        None => req.params.is_empty_object(),
    }
}

/// Parameters to send: the caller's, or an empty object when there are none.
pub fn request_params(params: Option<JsonValue>) -> (r: JsonValue)
    ensures
        match params {
            Some(p) => r == p,
            None => r.is_empty_object(),
        },
{
    match params {
        Some(p) => p,
        None => JsonValue::empty_object(),
    }
}

/// Routes an intent: normalizes its name, derives the operation name from it, and
/// fills in the parameters. No intent is refused here; the backend decides which
/// operations exist.
pub fn plan_intent(intent: &str, params: Option<JsonValue>) -> (r: IntentRequest)
    ensures
        request_for(r, intent@, params),
{
    let normalized_intent = normalize_intent(intent);
    let operation = operation_name(normalized_intent.as_str());
    IntentRequest { intent: normalized_intent, operation, params: request_params(params) }
}

/// Leaving out the parameters is the same as passing an empty object: the intent
/// routes to the same operation under the same canonical name, and the backend
/// receives an empty object either way.
pub proof fn lemma_absent_params_as_empty_object(
    intent: Seq<char>,
    empty: JsonValue,
    without: IntentRequest,
    with_empty: IntentRequest,
)
    requires
        empty.is_empty_object(),
        request_for(without, intent, None),
        request_for(with_empty, intent, Some(empty)),
    ensures
        without.intent@ == with_empty.intent@,
        without.operation@ == with_empty.operation@,
        without.params.is_empty_object(),
        with_empty.params.is_empty_object(),
{
}

} // verus!
