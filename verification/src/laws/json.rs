//! Laws of JSON values, and of what rejected responses say.

use vstd::prelude::*;
use vstd::utf8::encode_utf8;

use crate::edge_errors::{
    collect_error_fragments, collected, collected_members, detail_of, edge_response_error_message,
    edge_response_outcome_unknown, error_keys, error_message_of, outcome_unknown_of,
    push_error_fragment, response_fragments, response_keys, truncate_chars,
    workspace_error_message,
};
use crate::json::{add_item, add_member, member, member_at, set_member, Json, JsonView};
use crate::text::{decimal, join, split_words, texts};

verus! {

proof fn found_first(members: Seq<(Seq<char>, JsonView)>, key: Seq<char>, from: int)
    requires
        0 <= from <= members.len(),
    ensures
        match member_at(members, key, from) {
            Some(value) => exists|i: int|
                from <= i < members.len() && #[trigger] members[i].0 == key && members[i].1 == value
                    && forall|j: int| from <= j < i ==> (#[trigger] members[j]).0 != key,
            None => forall|i: int| from <= i < members.len() ==> (#[trigger] members[i]).0 != key,
        },
    decreases members.len() - from,
{
    if from < members.len() {
        if members[from].0 == key {
            assert(members[from].1 == member_at(members, key, from)->0);
        } else {
            found_first(members, key, from + 1);
            if member_at(members, key, from + 1) is Some {
                let i = choose|i: int|
                    from + 1 <= i < members.len() && #[trigger] members[i].0 == key && members[i].1
                        == member_at(members, key, from + 1)->0 && forall|j: int|
                        from + 1 <= j < i ==> (#[trigger] members[j]).0 != key;
                assert(forall|j: int| from <= j < i ==> (#[trigger] members[j]).0 != key);
            }
        }
    }
}

/// The member under a key is the first with that name; only an object has any.
pub proof fn a_member_is_the_first_of_its_name(value: &Json, key: &str, r: Option<&Json>)
    requires
        call_ensures(Json::get, (value, key), r),
    ensures
        !(value@ is Object) ==> r is None,
        value@ is Object && r is None ==> forall|i: int|
            0 <= i < value@->Object_0.len() ==> (#[trigger] value@->Object_0[i]).0 != key@,
        value@ is Object && r is Some ==> exists|i: int|
            0 <= i < value@->Object_0.len() && #[trigger] value@->Object_0[i].0 == key@
                && value@->Object_0[i].1 == r->0@ && forall|j: int|
                0 <= j < i ==> (#[trigger] value@->Object_0[j]).0 != key@,
{
    if value@ is Object {
        found_first(value@->Object_0, key@, 0);
    }
}

/// The text of a member is there where the member is one, and empty otherwise.
pub proof fn a_text_member_is_its_text(value: &Json, key: &str, found: Option<&Json>, r: String)
    requires
        call_ensures(Json::get, (value, key), found),
        call_ensures(Json::text_member, (value, key), r),
    ensures
        found is Some && found->0@ is Text ==> r@ == found->0@->Text_0,
        !(found is Some && found->0@ is Text) ==> r@.len() == 0,
{
}

/// A value is read as what it is, and as nothing else; a copy says the same.
pub proof fn a_value_is_read_as_it_is(
    value: &Json,
    text: Option<&String>,
    truth: Option<bool>,
    copy: Json,
)
    requires
        call_ensures(Json::as_text, (value,), text),
        call_ensures(Json::as_bool, (value,), truth),
        call_ensures(Json::copy, (value,), copy),
    ensures
        text is Some <==> value@ is Text,
        text is Some ==> text->0@ == value@->Text_0,
        truth is Some <==> value@ is Bool,
        truth is Some ==> truth->0 == value@->Bool_0,
        copy@ == value@,
{
}

// ---------------------------------------------------------------------------
// Rejected responses
// ---------------------------------------------------------------------------

/// A text is cut to its bound, with an ellipsis exactly where it was longer.
pub proof fn a_long_text_is_cut(value: &str, max: usize, r: String)
    requires
        call_ensures(truncate_chars, (value, max), r),
    ensures
        value@.len() <= max ==> r@ == value@,
        value@.len() > max ==> r@.len() == max + 1 && r@.last() == '…' && r@.drop_last()
            == value@.take(max as int),
{
    if value@.len() > max {
        assert(r@.drop_last() =~= value@.take(max as int));
    }
}

/// A message is added once, its words with one space between, and not where it has none.
pub proof fn a_message_is_added_once(
    fragments: &mut Vec<String>,
    message: &str,
    words: Vec<String>,
    line: String,
)
    requires
        call_ensures(push_error_fragment, (fragments, message), ()),
        call_ensures(split_words, (message,), words),
        call_ensures(join, (&words, " "), line),
    ensures
        line@.len() == 0 || texts(old(fragments)@).contains(line@) ==> texts(final(fragments)@)
            == texts(old(fragments)@),
        !(line@.len() == 0 || texts(old(fragments)@).contains(line@)) ==> texts(final(fragments)@)
            == texts(old(fragments)@).push(line@),
{
}

/// A text adds itself, `null` nothing.
pub proof fn a_text_says_itself(
    value: &Json,
    fragments: &mut Vec<String>,
    message: &str,
    other: &mut Vec<String>,
)
    requires
        call_ensures(collect_error_fragments, (value, fragments), ()),
        texts(old(other)@) == texts(old(fragments)@),
        value@ matches JsonView::Text(t) ==> message@ == t,
        call_ensures(push_error_fragment, (other, message), ()),
    ensures
        value@ is Text ==> texts(final(fragments)@) == texts(final(other)@),
        value@ is Null ==> texts(final(fragments)@) == texts(old(fragments)@),
{
}

/// A list adds what its items add, one after the other.
pub proof fn a_list_says_what_its_items_say(
    list: &Json,
    more: &Json,
    last: &Json,
    fragments: &mut Vec<String>,
    more_fragments: &mut Vec<String>,
    then: &mut Vec<String>,
)
    requires
        list@ is Array && more@ is Array,
        more@->Array_0 == list@->Array_0.push(last@),
        texts(old(more_fragments)@) == texts(old(fragments)@),
        call_ensures(collect_error_fragments, (list, fragments), ()),
        call_ensures(collect_error_fragments, (more, more_fragments), ()),
        texts(old(then)@) == texts(final(fragments)@),
        call_ensures(collect_error_fragments, (last, then), ()),
    ensures
        list@->Array_0.len() == 0 ==> texts(final(fragments)@) == texts(old(fragments)@),
        texts(final(more_fragments)@) == texts(final(then)@),
{
    assert(more@->Array_0.drop_last() =~= list@->Array_0);
}

/// A rejected response is reported with what was tried and its status, and with at most
/// six hundred characters of what it says.
pub proof fn a_rejection_is_one_bounded_line(
    prefix: &str,
    status: u16,
    parsed: Option<Json>,
    raw: &str,
    code: String,
    r: String,
)
    requires
        call_ensures(error_message_of, (prefix, status, &parsed, raw), r),
        call_ensures(decimal, (status as u64,), code),
    ensures
        r@ == prefix@ + " ("@ + code@ + ")"@ || exists|detail: Seq<char>|
            #![trigger detail.len()]
            r@ == prefix@ + " ("@ + code@ + "): "@ + detail && 0 < detail.len() <= 601 && (
            detail.len() == 601 ==> detail.last() == '…'),
{
    let detail = detail_of(crate::json::option_json(parsed), raw@);
    if detail.len() > 0 {
        assert(r@ == prefix@ + " ("@ + code@ + "): "@ + detail);
        assert(0 < detail.len() <= 601);
    }
}

/// A workspace request is reported like any other, under its own name.
pub proof fn a_workspace_request_is_reported_by_name(
    status: u16,
    body: &[u8],
    r: String,
    same: String,
)
    requires
        call_ensures(workspace_error_message, (status, body), r),
        call_ensures(
            edge_response_error_message,
            ("workspace request failed", status, body),
            same,
        ),
    ensures
        r@ == same@,
{
}

/// An outcome is unknown exactly where the response says `true` to that.
pub proof fn an_outcome_is_unknown_where_it_says_so(
    parsed: Option<Json>,
    found: Option<&Json>,
    r: bool,
)
    requires
        call_ensures(outcome_unknown_of, (&parsed,), r),
        parsed matches Some(value) ==> call_ensures(Json::get, (&value, "outcomeUnknown"), found),
    ensures
        r <==> parsed is Some && found is Some && found->0@ == JsonView::Bool(true),
{
}

/// A set member is the one that is found; those under other keys stay.
pub proof fn a_set_value_is_the_one_found(
    members: &mut Vec<(String, Json)>,
    key: String,
    value: Json,
    whole: Json,
    before: Json,
    name: &str,
    found: Option<&Json>,
    other: &str,
    kept: Option<&Json>,
    was: Option<&Json>,
)
    requires
        call_ensures(set_member, (members, key, value), ()),
        before@ == JsonView::Object(crate::json::member_views(old(members)@)),
        whole@ == JsonView::Object(crate::json::member_views(final(members)@)),
        name@ == key@ && other@ != key@,
        call_ensures(Json::get, (&whole, name), found),
        call_ensures(Json::get, (&whole, other), kept),
        call_ensures(Json::get, (&before, other), was),
    ensures
        found is Some && found->0@ == value@,
        kept is Some == was is Some,
        kept is Some ==> kept->0@ == was->0@,
{
    crate::json::a_set_member_is_found(
        crate::json::member_views(old(members)@),
        key@,
        value@,
        other@,
    );
}

/// Members and items are added at the end.
pub proof fn what_is_added_comes_last(
    members: &mut Vec<(String, Json)>,
    key: &str,
    value: Json,
    items: &mut Vec<Json>,
    item: Json,
)
    requires
        call_ensures(add_member, (members, key, value), ()),
        call_ensures(add_item, (items, item), ()),
    ensures
        crate::json::member_views(final(members)@) == crate::json::member_views(
            old(members)@,
        ).push((key@, value@)),
        crate::json::json_views(final(items)@) == crate::json::json_views(old(items)@).push(item@),
{
}

/// An object says what its members `error`, `message`, `details`, `detail` and `reason`
/// say, in this order, and its own compact text where they say nothing new.
pub proof fn an_object_says_what_its_messages_say(
    value: &Json,
    fragments: &mut Vec<String>,
    error: Option<&Json>,
    message: Option<&Json>,
    details: Option<&Json>,
    detail: Option<&Json>,
    reason: Option<&Json>,
    a: &mut Vec<String>,
    b: &mut Vec<String>,
    c: &mut Vec<String>,
    d: &mut Vec<String>,
    e: &mut Vec<String>,
    text: String,
    compact: &str,
    whole: &mut Vec<String>,
)
    requires
        value@ is Object,
        call_ensures(collect_error_fragments, (value, fragments), ()),
        call_ensures(Json::get, (value, "error"), error),
        call_ensures(Json::get, (value, "message"), message),
        call_ensures(Json::get, (value, "details"), details),
        call_ensures(Json::get, (value, "detail"), detail),
        call_ensures(Json::get, (value, "reason"), reason),
        texts(old(a)@) == texts(old(fragments)@) && (error is Some ==> call_ensures(
            collect_error_fragments,
            (error->0, a),
            (),
        )) && (error is None ==> texts(final(a)@) == texts(old(a)@)),
        texts(old(b)@) == texts(final(a)@) && (message is Some ==> call_ensures(
            collect_error_fragments,
            (message->0, b),
            (),
        )) && (message is None ==> texts(final(b)@) == texts(old(b)@)),
        texts(old(c)@) == texts(final(b)@) && (details is Some ==> call_ensures(
            collect_error_fragments,
            (details->0, c),
            (),
        )) && (details is None ==> texts(final(c)@) == texts(old(c)@)),
        texts(old(d)@) == texts(final(c)@) && (detail is Some ==> call_ensures(
            collect_error_fragments,
            (detail->0, d),
            (),
        )) && (detail is None ==> texts(final(d)@) == texts(old(d)@)),
        texts(old(e)@) == texts(final(d)@) && (reason is Some ==> call_ensures(
            collect_error_fragments,
            (reason->0, e),
            (),
        )) && (reason is None ==> texts(final(e)@) == texts(old(e)@)),
        call_ensures(Json::to_text, (value,), text),
        compact@ == text@,
        texts(old(whole)@) == texts(final(e)@),
        call_ensures(push_error_fragment, (whole, compact), ()),
    ensures
        texts(final(e)@).len() != texts(old(fragments)@).len() ==> texts(final(fragments)@)
            == texts(final(e)@),
        texts(final(e)@).len() == texts(old(fragments)@).len() ==> texts(final(fragments)@)
            == texts(final(whole)@),
{
    let start = texts(old(fragments)@);
    let k0 = Seq::<Seq<char>>::empty();
    let k1 = k0.push("error"@);
    let k2 = k1.push("message"@);
    let k3 = k2.push("details"@);
    let k4 = k3.push("detail"@);
    let k5 = k4.push("reason"@);
    assert(k5 =~= error_keys());
    assert(collected_members(start, value@, k0) == start);
    one_more_member(start, value@, k0, "error"@);
    one_more_member(start, value@, k1, "message"@);
    one_more_member(start, value@, k2, "details"@);
    one_more_member(start, value@, k3, "detail"@);
    one_more_member(start, value@, k4, "reason"@);
}

proof fn one_more_member(start: Seq<Seq<char>>, value: JsonView, keys: Seq<Seq<char>>, key: Seq<char>)
    requires
        value is Object,
    ensures
        collected_members(start, value, keys.push(key)) == (match member(value, key) {
            Some(inner) => collected(collected_members(start, value, keys), inner),
            None => collected_members(start, value, keys),
        }),
{
    assert(keys.push(key).drop_last() =~= keys);
}

/// A number and a truth value say their compact text.
pub proof fn a_plain_value_says_its_text(
    value: &Json,
    fragments: &mut Vec<String>,
    text: String,
    compact: &str,
    whole: &mut Vec<String>,
)
    requires
        !(value@ is Object || value@ is Array || value@ is Text || value@ is Null),
        call_ensures(collect_error_fragments, (value, fragments), ()),
        call_ensures(Json::to_text, (value,), text),
        compact@ == text@,
        texts(old(whole)@) == texts(old(fragments)@),
        call_ensures(push_error_fragment, (whole, compact), ()),
    ensures
        texts(final(fragments)@) == texts(final(whole)@),
{
}

/// A rejection says what its body says: of an object the members `error`, `message` and
/// `details`, of any other value all of it, and the raw text where that is nothing. The
/// messages stand behind each other, with a semicolon and a space between, cut to six
/// hundred characters, behind what was tried and the status.
pub proof fn a_rejection_says_what_its_body_says(
    prefix: &str,
    status: u16,
    parsed: Option<Json>,
    raw: &str,
    r: String,
    error: Option<&Json>,
    message: Option<&Json>,
    details: Option<&Json>,
    a: &mut Vec<String>,
    b: &mut Vec<String>,
    c: &mut Vec<String>,
    all: &mut Vec<String>,
    line: String,
    long: &str,
    detail: String,
    code: String,
)
    requires
        call_ensures(error_message_of, (prefix, status, &parsed, raw), r),
        old(a)@.len() == 0,
        parsed is Some && parsed->0@ is Object ==> {
            &&& call_ensures(Json::get, (&parsed->0, "error"), error) && (error is Some ==> call_ensures(
            collect_error_fragments,
            (error->0, a),
            (),
        )) && (error is None ==> texts(final(a)@) == texts(old(a)@))
            &&& call_ensures(Json::get, (&parsed->0, "message"), message)
            &&& texts(old(b)@) == texts(final(a)@) && (message is Some ==> call_ensures(
            collect_error_fragments,
            (message->0, b),
            (),
        )) && (message is None ==> texts(final(b)@) == texts(old(b)@))
            &&& call_ensures(Json::get, (&parsed->0, "details"), details)
            &&& texts(old(c)@) == texts(final(b)@) && (details is Some ==> call_ensures(
            collect_error_fragments,
            (details->0, c),
            (),
        )) && (details is None ==> texts(final(c)@) == texts(old(c)@))
        },
        parsed is Some && !(parsed->0@ is Object) ==> call_ensures(
            collect_error_fragments,
            (&parsed->0, a),
            (),
        ) && texts(final(c)@) == texts(final(a)@),
        parsed is None ==> final(c)@.len() == 0,
        texts(old(all)@) == texts(final(c)@),
        final(c)@.len() == 0 ==> call_ensures(push_error_fragment, (all, raw), ()),
        final(c)@.len() > 0 ==> texts(final(all)@) == texts(old(all)@),
        call_ensures(join, (&*final(all), "; "), line),
        long@ == line@,
        call_ensures(truncate_chars, (long, 600), detail),
        call_ensures(decimal, (status as u64,), code),
    ensures
        detail@.len() == 0 ==> r@ == prefix@ + " ("@ + code@ + ")"@,
        detail@.len() > 0 ==> r@ == prefix@ + " ("@ + code@ + "): "@ + detail@,
{
    assert(texts(old(a)@) =~= Seq::<Seq<char>>::empty());
    assert(texts(final(c)@).len() == final(c)@.len());
    if parsed is Some && parsed->0@ is Object {
        let value = parsed->0@;
        let k0 = Seq::<Seq<char>>::empty();
        let k1 = k0.push("error"@);
        let k2 = k1.push("message"@);
        assert(k2.push("details"@) =~= response_keys());
        one_more_member(Seq::empty(), value, k0, "error"@);
        one_more_member(Seq::empty(), value, k1, "message"@);
        one_more_member(Seq::empty(), value, k2, "details"@);
        assert(response_fragments(Some(value)) == texts(final(c)@));
    } else if parsed is None {
        assert(texts(final(c)@) =~= Seq::<Seq<char>>::empty());
    }
}

/// A response is read as text where it is text, and its message is that of what it parses
/// as.
pub proof fn a_response_is_reported_as_it_parses(
    prefix: &str,
    status: u16,
    body: &[u8],
    raw: &str,
    parsed: Option<Json>,
    r: String,
    same: String,
    unknown: bool,
    said: bool,
)
    requires
        body@ == encode_utf8(raw@),
        call_ensures(Json::parse, (body,), parsed),
        call_ensures(edge_response_error_message, (prefix, status, body), r),
        call_ensures(error_message_of, (prefix, status, &parsed, raw), same),
        call_ensures(edge_response_outcome_unknown, (body,), unknown),
        call_ensures(outcome_unknown_of, (&parsed,), said),
    ensures
        r@ == same@,
        unknown == said,
{
    vstd::utf8::encode_utf8_valid_utf8(raw@);
    vstd::utf8::encode_utf8_decode_utf8(raw@);
}

} // verus!
