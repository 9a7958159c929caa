//! What a rejected edge response says, in one bounded line.

use vstd::prelude::*;
use vstd::utf8::{decode_utf8, valid_utf8};

use crate::encoding::{lossy_text, utf8_lossy};
use crate::json::{
    bool_of, compact_json, json_views, json_views_index, member, member_at, parse_json, parsed_json,
    write_compact, Json, JsonView,
};
use crate::text::{
    contains_text, decimal, decimal_digits, from_chars, join, join4, join5, joined, split_words,
    texts, to_chars, words,
};

verus! {

/// How many characters of detail a message keeps.
pub const MAX_DETAIL_CHARS: usize = 600;

/// A message with each run of white space as one space, and none at the ends.
pub open spec fn normalized(message: Seq<char>) -> Seq<char> {
    joined(words(message), " "@)
}

/// The fragments with one more message: unless it is blank, or there already.
pub open spec fn with_fragment(fragments: Seq<Seq<char>>, message: Seq<char>) -> Seq<Seq<char>> {
    let n = normalized(message);
    if n.len() == 0 || fragments.contains(n) {
        fragments
    } else {
        fragments.push(n)
    }
}

/// Adds a message to the fragments, normalized, unless it is blank or there already.
pub fn push_error_fragment(fragments: &mut Vec<String>, message: &str)
    ensures
        texts(final(fragments)@) == with_fragment(texts(old(fragments)@), message@),
{
    let parts = split_words(message);
    let normal = join(&parts, " ");
    if !normal.as_str().is_empty() && !contains_text(fragments, normal.as_str()) {
        let ghost before = fragments@;
        fragments.push(normal);
        assert(texts(fragments@) =~= texts(before).push(normal@));
    }
}

/// At most `max_chars` characters of a text, and an ellipsis where it was cut.
pub open spec fn truncated(value: Seq<char>, max_chars: int) -> Seq<char> {
    if value.len() <= max_chars {
        value
    } else {
        value.take(max_chars).push('…')
    }
}

/// Cuts a text to `max_chars` characters, marking the cut with an ellipsis.
pub fn truncate_chars(value: &str, max_chars: usize) -> (r: String)
    ensures
        r@ == truncated(value@, max_chars as int),
{
    let chars = to_chars(value);
    if chars.len() <= max_chars {
        value.to_owned()
    } else {
        let mut out = from_chars(&chars, 0, max_chars);
        assert(chars@.subrange(0, max_chars as int) =~= value@.take(max_chars as int));
        out.push('…');
        out
    }
}

/// The members of an error object that carry its message.
pub open spec fn error_keys() -> Seq<Seq<char>> {
    seq!["error"@, "message"@, "details"@, "detail"@, "reason"@]
}

/// The members of a response that carry its message.
pub open spec fn response_keys() -> Seq<Seq<char>> {
    seq!["error"@, "message"@, "details"@]
}

/// What an object holds is smaller than the object.
pub proof fn member_at_decreases(members: Seq<(Seq<char>, JsonView)>, key: Seq<char>, from: int)
    requires
        member_at(members, key, from) is Some,
    ensures
        decreases_to!(members => member_at(members, key, from)->0),
    decreases members.len() - from,
{
    if 0 <= from < members.len() {
        if members[from].0 == key {
            assert(decreases_to!(members => members[from]));
            assert(decreases_to!(members[from] => members[from].1));
        } else {
            member_at_decreases(members, key, from + 1);
        }
    }
}

/// The fragments with those of a value added: a text gives itself, a list its items
/// in turn, an object its message members, and where they give nothing its compact
/// text; a number or truth value its text; `null` nothing.
pub open spec fn collected(fragments: Seq<Seq<char>>, value: JsonView) -> Seq<Seq<char>>
    decreases value, 1int, 0int,
{
    match value {
        JsonView::Null => fragments,
        JsonView::Text(message) => with_fragment(fragments, message),
        JsonView::Array(items) => collected_items(fragments, items),
        JsonView::Object(members) => {
            let inner = collected_members(fragments, value, error_keys());
            if inner.len() == fragments.len() {
                with_fragment(inner, compact_json(value))
            } else {
                inner
            }
        },
        _ => with_fragment(fragments, compact_json(value)),
    }
}

/// The fragments with those of each item added in turn.
pub open spec fn collected_items(fragments: Seq<Seq<char>>, items: Seq<JsonView>) -> Seq<Seq<char>>
    decreases items, 0int, 0int,
{
    if items.len() == 0 {
        fragments
    } else {
        collected(collected_items(fragments, items.drop_last()), items.last())
    }
}

/// The fragments with those of the members under `keys` added in turn.
pub open spec fn collected_members(
    fragments: Seq<Seq<char>>,
    value: JsonView,
    keys: Seq<Seq<char>>,
) -> Seq<Seq<char>>
    decreases value, 0int, keys.len(),
{
    if keys.len() == 0 {
        fragments
    } else {
        let before = collected_members(fragments, value, keys.drop_last());
        match value {
            JsonView::Object(members) => match member_at(members, keys.last(), 0) {
                Some(inner) => {
                    proof {
                        member_at_decreases(members, keys.last(), 0);
                        assert(decreases_to!(value => value->Object_0));
                    }
                    collected(before, inner)
                },
                None => before,
            },
            _ => before,
        }
    }
}

fn collect_member(value: &Json, key: &str, fragments: &mut Vec<String>, Ghost(keys): Ghost<Seq<Seq<char>>>, Ghost(start): Ghost<Seq<Seq<char>>>)
    requires
        value@ is Object,
        texts(old(fragments)@) == collected_members(start, value@, keys),
    ensures
        texts(final(fragments)@) == collected_members(start, value@, keys.push(key@)),
    decreases value, 0int,
{
    assert(keys.push(key@).drop_last() =~= keys);
    match value.get(key) {
        Some(inner) => collect_error_fragments(inner, fragments),
        None => {},
    }
}

/// Adds the messages that a response body holds to the fragments.
pub fn collect_error_fragments(value: &Json, fragments: &mut Vec<String>)
    ensures
        texts(final(fragments)@) == collected(texts(old(fragments)@), value@),
    decreases value, 1int,
{
    match value {
        Json::Null => {},
        Json::Text(message) => push_error_fragment(fragments, message.as_str()),
        Json::Array(items) => {
            let mut i: usize = 0;
            let ghost start = texts(fragments@);
            proof {
                json_views_index(items@);
            }
            assert(json_views(items@).take(0) =~= Seq::<JsonView>::empty());
            while i < items.len()
                invariant
                    i <= items@.len(),
                    *value == Json::Array(*items),
                    json_views(items@).len() == items@.len(),
                    forall|j: int|
                        0 <= j < items@.len() ==> #[trigger] json_views(items@)[j] == items@[j]@,
                    texts(fragments@) == collected_items(start, json_views(items@).take(i as int)),
                decreases items@.len() - i,
            {
                let ghost next = json_views(items@).take(i + 1);
                assert(next.drop_last() =~= json_views(items@).take(i as int));
                assert(next.last() == json_views(items@)[i as int]);
                assert(decreases_to!(*value => value->Array_0));
                assert(decreases_to!(*items => items@));
                assert(decreases_to!(items@ => items@[i as int]));
                collect_error_fragments(&items[i], fragments);
                i = i + 1;
            }
            assert(json_views(items@).take(items@.len() as int) =~= json_views(items@));
        },
        Json::Object(members) => {
            let before: usize = fragments.len();
            let ghost start = texts(fragments@);
            let ghost k0 = Seq::<Seq<char>>::empty();
            collect_member(value, "error", fragments, Ghost(k0), Ghost(start));
            let ghost k1 = k0.push("error"@);
            collect_member(value, "message", fragments, Ghost(k1), Ghost(start));
            let ghost k2 = k1.push("message"@);
            collect_member(value, "details", fragments, Ghost(k2), Ghost(start));
            let ghost k3 = k2.push("details"@);
            collect_member(value, "detail", fragments, Ghost(k3), Ghost(start));
            let ghost k4 = k3.push("detail"@);
            collect_member(value, "reason", fragments, Ghost(k4), Ghost(start));
            assert(k4.push("reason"@) =~= error_keys());
            assert(texts(fragments@).len() == fragments@.len());
            if fragments.len() == before {
                let compact = write_compact(value);
                push_error_fragment(fragments, compact.as_str());
            }
        },
        _ => {
            let text = write_compact(value);
            push_error_fragment(fragments, text.as_str());
        },
    }
}

/// The fragments that a parsed response body holds.
pub open spec fn response_fragments(parsed: Option<JsonView>) -> Seq<Seq<char>> {
    match parsed {
        Some(JsonView::Object(members)) => collected_members(
            Seq::empty(),
            JsonView::Object(members),
            response_keys(),
        ),
        Some(value) => collected(Seq::empty(), value),
        None => Seq::empty(),
    }
}

/// The fragments of a response: those of its JSON, or where there are none, its text.
pub open spec fn all_fragments(parsed: Option<JsonView>, raw: Seq<char>) -> Seq<Seq<char>> {
    let found = response_fragments(parsed);
    if found.len() == 0 {
        with_fragment(found, raw)
    } else {
        found
    }
}

/// The detail that a message carries.
pub open spec fn detail_of(parsed: Option<JsonView>, raw: Seq<char>) -> Seq<char> {
    truncated(joined(all_fragments(parsed, raw), "; "@), MAX_DETAIL_CHARS as int)
}

/// `prefix (status)`, and the detail after a colon where there is any.
pub open spec fn error_line(
    prefix: Seq<char>,
    status: u16,
    parsed: Option<JsonView>,
    raw: Seq<char>,
) -> Seq<char> {
    let detail = detail_of(parsed, raw);
    if detail.len() == 0 {
        prefix + " ("@ + decimal_digits(status as nat) + ")"@
    } else {
        prefix + " ("@ + decimal_digits(status as nat) + "): "@ + detail
    }
}

/// The message for a rejected response whose body parsed as `parsed` and reads `raw`.
pub fn error_message_of(prefix: &str, status: u16, parsed: &Option<Json>, raw: &str) -> (r: String)
    ensures
        r@ == error_line(prefix@, status, crate::json::option_json(*parsed), raw@),
{
    let mut fragments: Vec<String> = Vec::new();
    assert(texts(fragments@) =~= Seq::<Seq<char>>::empty());
    match parsed {
        Some(value) => match value {
            Json::Object(members) => {
                let ghost start = texts(fragments@);
                let ghost k0 = Seq::<Seq<char>>::empty();
                collect_member(value, "error", &mut fragments, Ghost(k0), Ghost(start));
                let ghost k1 = k0.push("error"@);
                collect_member(value, "message", &mut fragments, Ghost(k1), Ghost(start));
                let ghost k2 = k1.push("message"@);
                collect_member(value, "details", &mut fragments, Ghost(k2), Ghost(start));
                assert(k2.push("details"@) =~= response_keys());
            },
            _ => collect_error_fragments(value, &mut fragments),
        },
        None => {},
    }
    assert(texts(fragments@).len() == fragments@.len());
    if fragments.is_empty() {
        push_error_fragment(&mut fragments, raw);
    }
    let detail = truncate_chars(join(&fragments, "; ").as_str(), MAX_DETAIL_CHARS);
    let code = decimal(status as u64);
    if detail.as_str().is_empty() {
        join4(prefix, " (", code.as_str(), ")")
    } else {
        join5(prefix, " (", code.as_str(), "): ", detail.as_str())
    }
}

/// The message for a rejected edge response: the messages in its JSON body, or the
/// body itself, behind the prefix and the status.
pub fn edge_response_error_message(prefix: &str, status: u16, body: &[u8]) -> (r: String)
    ensures
        r@ == error_line(prefix@, status, parsed_json(body@), utf8_lossy(body@)),
        valid_utf8(body@) ==> r@ == error_line(
            prefix@,
            status,
            parsed_json(body@),
            decode_utf8(body@),
        ),
{
    let parsed = parse_json(body);
    let raw = lossy_text(body);
    error_message_of(prefix, status, &parsed, raw.as_str())
}

/// The message for a rejected workspace request.
pub fn workspace_error_message(status: u16, body: &[u8]) -> (r: String)
    ensures
        r@ == error_line(
            "workspace request failed"@,
            status,
            parsed_json(body@),
            utf8_lossy(body@),
        ),
{
    edge_response_error_message("workspace request failed", status, body)
}

/// The body is an object that says `"outcomeUnknown": true`.
pub open spec fn says_outcome_unknown(parsed: Option<JsonView>) -> bool {
    match parsed {
        Some(value) => match member(value, "outcomeUnknown"@) {
            Some(flag) => bool_of(flag) == Some(true),
            None => false,
        },
        None => false,
    }
}

pub fn outcome_unknown_of(parsed: &Option<Json>) -> (r: bool)
    ensures
        r == says_outcome_unknown(crate::json::option_json(*parsed)),
{
    match parsed {
        Some(value) => match value.get("outcomeUnknown") {
            Some(flag) => match flag.as_bool() {
                Some(b) => b,
                None => false,
            },
            None => false,
        },
        None => false,
    }
}

/// Whether the edge says that it does not know how the request ended.
pub fn edge_response_outcome_unknown(body: &[u8]) -> (r: bool)
    ensures
        r == says_outcome_unknown(parsed_json(body@)),
{
    let parsed = parse_json(body);
    outcome_unknown_of(&parsed)
}

/// The detail of a message is at most the bound and one ellipsis long.
pub proof fn detail_is_bounded(parsed: Option<JsonView>, raw: Seq<char>)
    ensures
        detail_of(parsed, raw).len() <= MAX_DETAIL_CHARS + 1,
{
}

proof fn fragment_keeps_distinct(fragments: Seq<Seq<char>>, message: Seq<char>)
    requires
        fragments.no_duplicates(),
    ensures
        with_fragment(fragments, message).no_duplicates(),
{
}

proof fn collected_keeps_distinct(fragments: Seq<Seq<char>>, value: JsonView)
    requires
        fragments.no_duplicates(),
    ensures
        collected(fragments, value).no_duplicates(),
    decreases value, 1int, 0int,
{
    match value {
        JsonView::Null => {},
        JsonView::Text(message) => fragment_keeps_distinct(fragments, message),
        JsonView::Array(items) => items_keep_distinct(fragments, items),
        JsonView::Object(members) => {
            members_keep_distinct(fragments, value, error_keys());
            fragment_keeps_distinct(
                collected_members(fragments, value, error_keys()),
                compact_json(value),
            );
        },
        _ => fragment_keeps_distinct(fragments, compact_json(value)),
    }
}

proof fn items_keep_distinct(fragments: Seq<Seq<char>>, items: Seq<JsonView>)
    requires
        fragments.no_duplicates(),
    ensures
        collected_items(fragments, items).no_duplicates(),
    decreases items, 0int, 0int,
{
    if items.len() > 0 {
        items_keep_distinct(fragments, items.drop_last());
        collected_keeps_distinct(collected_items(fragments, items.drop_last()), items.last());
    }
}

proof fn members_keep_distinct(fragments: Seq<Seq<char>>, value: JsonView, keys: Seq<Seq<char>>)
    requires
        fragments.no_duplicates(),
    ensures
        collected_members(fragments, value, keys).no_duplicates(),
    decreases value, 0int, keys.len(),
{
    if keys.len() > 0 {
        members_keep_distinct(fragments, value, keys.drop_last());
        let before = collected_members(fragments, value, keys.drop_last());
        match value {
            JsonView::Object(members) => match member_at(members, keys.last(), 0) {
                Some(inner) => {
                    member_at_decreases(members, keys.last(), 0);
                    assert(decreases_to!(value => value->Object_0));
                    collected_keeps_distinct(before, inner);
                },
                None => {},
            },
            _ => {},
        }
    }
}

/// No message is repeated in the detail of a rejected response, however often and
/// wherever the body repeats it.
pub proof fn messages_are_not_repeated(parsed: Option<JsonView>, raw: Seq<char>)
    ensures
        all_fragments(parsed, raw).no_duplicates(),
{
    match parsed {
        Some(value) => {
            if value is Object {
                members_keep_distinct(Seq::empty(), value, response_keys());
            } else {
                collected_keeps_distinct(Seq::empty(), value);
            }
        },
        None => {},
    }
    fragment_keeps_distinct(response_fragments(parsed), raw);
}

} // verus!
