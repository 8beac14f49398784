//! The error texts the plugin shows for Homebridge's replies: the detail
//! taken from an error body, and the messages for failed and unreadable
//! responses.
use vstd::prelude::*;
use crate::json::{Json, JsonView, get, member, view_array, view_json, lemma_view_array};
use crate::text::{
    chars_of, concat, contains, contains_str, is_whitespace, is_ws, joined, lower, owned,
    string_from_chars, string_from_range, to_lower,
};

verus! {

/// The texts among `items`, in order.
pub open spec fn texts_of(items: Seq<JsonView>) -> Seq<Seq<char>>
    decreases items.len(),
{
    if items.len() == 0 {
        Seq::empty()
    } else {
        let rest = texts_of(items.drop_last());
        match items.last() {
            JsonView::String(t) => rest.push(t),
            _ => rest,
        }
    }
}

/// The detail a JSON error body gives: its `message` text, its `message`
/// list joined with semicolons when that is not empty, or its `error` text.
pub open spec fn json_detail(v: JsonView) -> Option<Seq<char>> {
    match v {
        JsonView::Object(m) => {
            let from_message = match get(m, "message"@) {
                Some(JsonView::String(t)) => Some(t),
                Some(JsonView::Array(items)) => {
                    let j = joined(texts_of(items), "; "@);
                    if j.len() > 0 {
                        Some(j)
                    } else {
                        None
                    }
                },
                _ => None,
            };
            if from_message is Some {
                from_message
            } else {
                match get(m, "error"@) {
                    Some(JsonView::String(t)) => Some(t),
                    _ => None,
                }
            }
        },
        _ => None,
    }
}

/// The runs of non-whitespace characters of `s` (`str::split_whitespace`).
pub open spec fn words(s: Seq<char>) -> Seq<Seq<char>>
    decreases s.len(),
{
    if s.len() == 0 {
        Seq::empty()
    } else {
        let prev = s.drop_last();
        let w = words(prev);
        let c = s.last();
        if is_ws(c) {
            w
        } else if prev.len() > 0 && !is_ws(prev.last()) && w.len() > 0 {
            w.update(w.len() - 1, w.last().push(c))
        } else {
            w.push(seq![c])
        }
    }
}

/// The detail shown for an error body: what its JSON says, else the body
/// with whitespace collapsed and cut to 240 characters.
pub open spec fn error_detail_of(body: Seq<char>, parsed: Option<JsonView>) -> Seq<char> {
    let from_json = match parsed {
        Some(v) => json_detail(v),
        None => None,
    };
    match from_json {
        Some(d) => d,
        None => {
            let compact = joined(words(body), " "@);
            if compact.len() == 0 {
                "no additional error information"@
            } else if compact.len() > 240 {
                compact.take(240) + "…"@
            } else {
                compact
            }
        },
    }
}

proof fn lemma_words_nonempty_tail(s: Seq<char>)
    requires
        s.len() > 0,
        !is_ws(s.last()),
    ensures
        words(s).len() > 0,
    decreases s.len(),
{
    let prev = s.drop_last();
    if prev.len() > 0 && !is_ws(prev.last()) {
        lemma_words_nonempty_tail(prev);
    }
}

/// The runs of non-whitespace characters of `body`.
fn split_words(body: &str) -> (r: Vec<Vec<char>>)
    ensures
        r@.map_values(|w: Vec<char>| w@) == words(body@),
{
    let cs = chars_of(body);
    let mut out: Vec<Vec<char>> = Vec::new();
    let mut i: usize = 0;
    assert(cs@.take(0) =~= Seq::<char>::empty());
    while i < cs.len()
        invariant
            i <= cs@.len(),
            cs@ == body@,
            out@.map_values(|w: Vec<char>| w@) == words(cs@.take(i as int)),
        decreases cs.len() - i,
    {
        let c = cs[i];
        let ghost prefix = cs@.take(i as int);
        let ghost next = cs@.take(i + 1);
        assert(next.drop_last() =~= prefix);
        assert(next.last() == c);
        let ghost before = out@.map_values(|w: Vec<char>| w@);
        if is_whitespace(c) {
        } else if i > 0 && !is_whitespace(cs[i - 1]) && out.len() > 0 {
            assert(prefix.last() == cs@[i - 1]);
            let last_index = out.len() - 1;
            let mut w: Vec<char> = Vec::new();
            std::mem::swap(&mut w, &mut out[last_index]);
            w.push(c);
            out.set(last_index, w);
            assert(out@.map_values(|w: Vec<char>| w@) =~= before.update(
                before.len() - 1,
                before.last().push(c),
            ));
        } else {
            if i > 0 && !is_whitespace(cs[i - 1]) {
                proof {
                    assert(prefix.last() == cs@[i - 1]);
                    lemma_words_nonempty_tail(prefix);
                }
            }
            let mut w: Vec<char> = Vec::new();
            w.push(c);
            out.push(w);
            assert(out@.map_values(|w: Vec<char>| w@) =~= before.push(seq![c]));
        }
        i = i + 1;
    }
    assert(cs@.take(cs@.len() as int) =~= cs@);
    out
}

/// The texts among `items`.
fn texts_in(items: &Vec<Json>) -> (r: Vec<String>)
    ensures
        r@.map_values(|s: String| s@) == texts_of(view_array(*items)),
{
    proof {
        lemma_view_array(*items);
    }
    let ghost iv = view_array(*items);
    let mut out: Vec<String> = Vec::new();
    let mut i: usize = 0;
    assert(iv.take(0) =~= Seq::<JsonView>::empty());
    while i < items.len()
        invariant
            i <= items@.len(),
            iv == view_array(*items),
            iv.len() == items@.len(),
            forall|k: int| 0 <= k < items@.len() ==> #[trigger] iv[k] == view_json(items@[k]),
            out@.map_values(|s: String| s@) == texts_of(iv.take(i as int)),
        decreases items.len() - i,
    {
        let ghost before = out@.map_values(|s: String| s@);
        assert(iv.take(i + 1).drop_last() =~= iv.take(i as int));
        assert(iv.take(i + 1).last() == iv[i as int]);
        match &items[i] {
            Json::String(t) => {
                out.push(t.clone());
                assert(out@.map_values(|s: String| s@) =~= before.push(t@));
            },
            _ => {},
        }
        i = i + 1;
    }
    assert(iv.take(items@.len() as int) =~= iv);
    out
}

/// The detail a parsed JSON error body gives.
fn detail_from_json(value: &Json) -> (r: Option<String>)
    ensures
        match json_detail(view_json(*value)) {
            Some(d) => r matches Some(s) && s@ == d,
            None => r is None,
        },
{
    match value {
        Json::Object(m) => {
            match member(m, "message") {
                Some(Json::String(t)) => {
                    return Some(t.clone());
                },
                Some(Json::Array(items)) => {
                    let texts = texts_in(items);
                    let j = crate::text::join(&texts, "; ");
                    if !j.as_str().is_empty() {
                        return Some(j);
                    }
                },
                _ => {},
            }
            match member(m, "error") {
                Some(Json::String(t)) => Some(t.clone()),
                _ => None,
            }
        },
        _ => None,
    }
}

/// The detail shown for an error response with `body`; `parsed` is the
/// body read as JSON, when it is JSON.
pub fn error_detail(body: &str, parsed: Option<&Json>) -> (r: String)
    ensures
        r@ == error_detail_of(
            body@,
            match parsed {
                Some(j) => Some(view_json(*j)),
                None => None,
            },
        ),
{
    match parsed {
        Some(j) => match detail_from_json(j) {
            Some(d) => {
                return d;
            },
            None => {},
        },
        None => {},
    }
    let parts = split_words(body);
    let mut texts: Vec<String> = Vec::new();
    let mut i: usize = 0;
    while i < parts.len()
        invariant
            i <= parts@.len(),
            texts@.len() == i,
            forall|k: int| 0 <= k < i ==> (#[trigger] texts@[k])@ == parts@[k]@,
        decreases parts.len() - i,
    {
        texts.push(string_from_chars(parts[i].as_slice()));
        i = i + 1;
    }
    assert(texts@.map_values(|s: String| s@) =~= parts@.map_values(|w: Vec<char>| w@));
    let compact = crate::text::join(&texts, " ");
    let cc = chars_of(compact.as_str());
    if cc.len() == 0 {
        owned("no additional error information")
    } else if cc.len() > 240 {
        let head = string_from_range(cc.as_slice(), 0, 240);
        assert(cc@.subrange(0, 240) =~= cc@.take(240));
        concat(head.as_str(), "…")
    } else {
        compact
    }
}

/// The message for an HTTP failure: Homebridge's own hint that insecure
/// mode is needed, or the status, endpoint and detail.
pub open spec fn http_failure_text(status_code: u16, status_text: Seq<char>, endpoint: Seq<char>, detail: Seq<char>) -> Seq<char> {
    if status_code == 400 && contains(lower(detail), "insecure mode"@) {
        "Homebridge must run in insecure mode (-I) before accessories can be controlled"@
    } else {
        "Homebridge returned HTTP "@ + status_text + " from "@ + endpoint + ": "@ + detail
    }
}

/// The message for a response with a failure status; `status_text` is the
/// status as HTTP names it, such as `404 Not Found`.
pub fn http_failure_message(status_code: u16, status_text: &str, endpoint: &str, detail: &str) -> (r: String)
    ensures
        r@ == http_failure_text(status_code, status_text@, endpoint@, detail@),
{
    let lowered = to_lower(detail);
    if status_code == 400 && contains_str(lowered.as_str(), "insecure mode") {
        return owned("Homebridge must run in insecure mode (-I) before accessories can be controlled");
    }
    let a = concat("Homebridge returned HTTP ", status_text);
    let b = concat(a.as_str(), " from ");
    let c = concat(b.as_str(), endpoint);
    let d = concat(c.as_str(), ": ");
    concat(d.as_str(), detail)
}

/// The message for a successful response whose body is not what was
/// expected.
pub fn invalid_json_message(endpoint: &str, detail: &str) -> (r: String)
    ensures
        r@ == "Homebridge returned invalid JSON from "@ + endpoint@ + ": "@ + detail@,
{
    let a = concat("Homebridge returned invalid JSON from ", endpoint);
    let b = concat(a.as_str(), ": ");
    concat(b.as_str(), detail)
}

/// The message for a login refused for want of a valid two-factor code.
pub fn two_factor_message(detail: &str) -> (r: String)
    ensures
        r@ == "Homebridge requires a valid two-factor authentication code: "@ + detail@,
{
    concat("Homebridge requires a valid two-factor authentication code: ", detail)
}

/// The message when Homebridge could not be reached at `endpoint`.
pub fn connect_failure_message(endpoint: &str) -> (r: String)
    ensures
        r@ == "could not connect to "@ + endpoint@,
{
    concat("could not connect to ", endpoint)
}

/// The message when the body of a response could not be read.
pub fn unreadable_response_message() -> (r: String)
    ensures
        r@ == "could not read the Homebridge response"@,
{
    owned("could not read the Homebridge response")
}

} // verus!
