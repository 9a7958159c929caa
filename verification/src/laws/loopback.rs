//! Laws of the loopback callback.

use vstd::prelude::*;

use crate::auth::loopback::{
    first_line, param_within, read_callback, read_callback_bytes, CallbackRequest,
};
use crate::encoding::url_decode;
use crate::text::{after, before, find_from, find_from_is_first, split, split_words, texts};
use vstd::utf8::encode_utf8;

verus! {

/// A part of a query gives a value to a name.
pub open spec fn names(part: Seq<char>, name: Seq<char>) -> bool {
    part.len() > name.len() && part[name.len() as int] == '=' && forall|k: int|
        0 <= k < name.len() ==> part[k] == name[k]
}

proof fn a_named_part_splits_there(part: Seq<char>, name: Seq<char>)
    requires
        !name.contains('='),
    ensures
        names(part, name) == (part.contains('=') && before(part, '=') == name),
        names(part, name) ==> after(part, '=') == part.skip(name.len() as int + 1),
{
    find_from_is_first(part, '=', 0);
    let at = find_from(part, '=', 0);
    if names(part, name) {
        assert(part.contains('='));
        assert(at == name.len()) by {
            if at < name.len() {
                assert(part[at] == '=');
                assert(name[at] == '=');
                assert(name.contains('='));
            }
        }
        assert(before(part, '=') =~= name);
    }
    if part.contains('=') && before(part, '=') == name {
        let i = choose|i: int| 0 <= i < part.len() && part[i] == '=';
        assert(at < part.len());
        assert(name.len() == at);
        assert forall|k: int| 0 <= k < name.len() implies part[k] == name[k] by {
            assert(part.take(at)[k] == part[k]);
        }
    }
}

proof fn the_last_one_counts(parts: Seq<Seq<char>>, name: Seq<char>, i: int, n: int)
    requires
        !name.contains('='),
        0 <= i < n <= parts.len(),
        names(parts[i], name),
        forall|j: int| i < j < n ==> !names(#[trigger] parts[j], name),
    ensures
        param_within(parts, name, n) == Some(
            crate::encoding::utf8_lossy(
                crate::encoding::percent_decoded(encode_utf8(parts[i].skip(name.len() as int + 1))),
            ),
        ),
    decreases n,
{
    a_named_part_splits_there(parts[n - 1], name);
    if n - 1 > i {
        assert(!names(parts[n - 1], name));
        the_last_one_counts(parts, name, i, n - 1);
    }
}

proof fn none_is_found(parts: Seq<Seq<char>>, name: Seq<char>, n: int)
    requires
        !name.contains('='),
        0 <= n <= parts.len(),
        forall|j: int| 0 <= j < n ==> !names(#[trigger] parts[j], name),
    ensures
        param_within(parts, name, n) is None,
    decreases n,
{
    if n > 0 {
        a_named_part_splits_there(parts[n - 1], name);
        assert(!names(parts[n - 1], name));
        none_is_found(parts, name, n - 1);
    }
}

/// A request line is the text up to the first line feed, without the carriage return
/// before it.
pub open spec fn is_first_line(head: Seq<char>, line: Seq<char>) -> bool {
    &&& !line.contains('\n')
    &&& {
        ||| line == head
        ||| exists|rest: Seq<char>| head == #[trigger] (line + "\r\n"@ + rest)
        ||| (line.len() == 0 || line.last() != '\r') && exists|rest: Seq<char>|
            head == #[trigger] (line + "\n"@ + rest)
    }
}

proof fn the_line_ends_at_the_feed(s: Seq<char>, at: int)
    requires
        0 <= at <= s.len(),
        at < s.len() ==> s[at] == '\n',
        forall|j: int| 0 <= j < at ==> s[j] != '\n',
    ensures
        find_from(s, '\n', 0) == at,
{
    find_from_is_first(s, '\n', 0);
}

proof fn a_first_line_is_one(head: Seq<char>, line: Seq<char>)
    requires
        is_first_line(head, line),
    ensures
        first_line(head) == line,
{
    reveal_strlit("\r\n");
    reveal_strlit("\n");
    assert forall|j: int| 0 <= j < line.len() implies line[j] != '\n' by {
        if line[j] == '\n' {
            assert(line.contains('\n'));
        }
    }
    if line == head {
        the_line_ends_at_the_feed(head, head.len() as int);
        assert(first_line(head) =~= line);
    } else if exists|rest: Seq<char>| head == #[trigger] (line + "\r\n"@ + rest) {
        let rest = choose|rest: Seq<char>| head == #[trigger] (line + "\r\n"@ + rest);
        let at = line.len() as int + 1;
        assert(head[line.len() as int] == '\r');
        assert(head[at] == '\n');
        assert forall|j: int| 0 <= j < at implies head[j] != '\n' by {
            if j < line.len() {
                assert(head[j] == line[j]);
            }
        }
        the_line_ends_at_the_feed(head, at);
        assert(first_line(head) =~= line);
    } else {
        let rest = choose|rest: Seq<char>| head == #[trigger] (line + "\n"@ + rest);
        let at = line.len() as int;
        assert(head[at] == '\n');
        assert forall|j: int| 0 <= j < at implies head[j] != '\n' by {
            assert(head[j] == line[j]);
        }
        the_line_ends_at_the_feed(head, at);
        assert(first_line(head) =~= line);
    }
}

/// The path of a target ends at its first question mark; behind it comes the query.
pub open spec fn is_target(target: Seq<char>, path: Seq<char>, query: Seq<char>) -> bool {
    &&& !path.contains('?')
    &&& target == path && query.len() == 0 || target == path + "?"@ + query
}

proof fn a_target_splits_there(target: Seq<char>, path: Seq<char>, query: Seq<char>)
    requires
        is_target(target, path, query),
    ensures
        before(target, '?') == path,
        after(target, '?') == query,
{
    reveal_strlit("?");
    find_from_is_first(target, '?', 0);
    let at = find_from(target, '?', 0);
    assert forall|j: int| 0 <= j < path.len() implies path[j] != '?' by {
        if path[j] == '?' {
            assert(path.contains('?'));
        }
    }
    if at < path.len() {
        assert(target[at] == path[at]);
    }
    if target != path {
        assert(target[path.len() as int] == '?');
    }
    assert(at == path.len());
    assert(before(target, '?') =~= path);
    assert(after(target, '?') =~= query);
}

/// Only the callback is served: any other path is answered as not found, whatever its
/// query holds. A request line without a target has an empty path.
pub proof fn only_the_callback_is_served(
    head: &str,
    line: &str,
    parts: Vec<String>,
    path: Seq<char>,
    query: Seq<char>,
    r: CallbackRequest,
)
    requires
        call_ensures(read_callback, (head,), r),
        is_first_line(head@, line@),
        call_ensures(split_words, (line,), parts),
        parts@.len() > 1 ==> is_target(parts@[1]@, path, query),
        parts@.len() <= 1 ==> path.len() == 0 && query.len() == 0,
    ensures
        r is NotFound <==> path != "/callback"@,
{
    the_target_is_read(head, line, parts, path, query);
}

proof fn the_target_is_read(
    head: &str,
    line: &str,
    parts: Vec<String>,
    path: Seq<char>,
    query: Seq<char>,
)
    requires
        is_first_line(head@, line@),
        call_ensures(split_words, (line,), parts),
        parts@.len() > 1 ==> is_target(parts@[1]@, path, query),
        parts@.len() <= 1 ==> path.len() == 0 && query.len() == 0,
    ensures
        before(crate::auth::loopback::request_target(head@), '?') == path,
        after(crate::auth::loopback::request_target(head@), '?') == query,
{
    a_first_line_is_one(head@, line@);
    assert(texts(parts@).len() == parts@.len());
    if parts@.len() > 1 {
        assert(texts(parts@)[1] == parts@[1]@);
        a_target_splits_there(parts@[1]@, path, query);
    } else {
        assert(path =~= Seq::<char>::empty());
        assert(query =~= Seq::<char>::empty());
        a_target_splits_there(Seq::empty(), path, query);
    }
}

/// A callback carries the code and the state of its query, each decoded, and the last one
/// where it is repeated. The other parts of the query do not matter.
pub proof fn a_callback_carries_its_query(
    head: &str,
    line: &str,
    parts: Vec<String>,
    query: &str,
    fields: Vec<String>,
    i: int,
    code: &str,
    read_code: String,
    j: int,
    state: &str,
    read_state: String,
    r: CallbackRequest,
)
    requires
        call_ensures(read_callback, (head,), r),
        is_first_line(head@, line@),
        call_ensures(split_words, (line,), parts),
        parts@.len() > 1 && is_target(parts@[1]@, "/callback"@, query@),
        call_ensures(split, (query, '&'), fields),
        0 <= i < fields@.len() && fields@[i]@ == "code="@ + code@,
        forall|k: int| i < k < fields@.len() ==> !names((#[trigger] fields@[k])@, "code"@),
        0 <= j < fields@.len() && fields@[j]@ == "state="@ + state@,
        forall|k: int| j < k < fields@.len() ==> !names((#[trigger] fields@[k])@, "state"@),
        call_ensures(url_decode, (code,), read_code),
        call_ensures(url_decode, (state,), read_state),
    ensures
        r is Callback,
        r->code@ == read_code@,
        r->state@ == read_state@,
{
    reveal_strlit("code");
    reveal_strlit("code=");
    reveal_strlit("state");
    reveal_strlit("state=");
    the_target_is_read(head, line, parts, "/callback"@, query@);
    let all = texts(fields@);
    assert(all.len() == fields@.len());
    assert(all[i] == fields@[i]@);
    assert(all[j] == fields@[j]@);
    assert forall|k: int| i < k < all.len() implies !names(#[trigger] all[k], "code"@) by {
        assert(all[k] == fields@[k]@);
    }
    assert forall|k: int| j < k < all.len() implies !names(#[trigger] all[k], "state"@) by {
        assert(all[k] == fields@[k]@);
    }
    the_last_one_counts(all, "code"@, i, all.len() as int);
    the_last_one_counts(all, "state"@, j, all.len() as int);
    assert(all[i].skip(5) =~= code@);
    assert(all[j].skip(6) =~= state@);
}

/// A callback whose query lacks the code or the state is invalid.
pub proof fn a_callback_without_both_is_invalid(
    head: &str,
    line: &str,
    parts: Vec<String>,
    query: &str,
    fields: Vec<String>,
    r: CallbackRequest,
)
    requires
        call_ensures(read_callback, (head,), r),
        is_first_line(head@, line@),
        call_ensures(split_words, (line,), parts),
        parts@.len() > 1 && is_target(parts@[1]@, "/callback"@, query@),
        call_ensures(split, (query, '&'), fields),
        (forall|k: int| 0 <= k < fields@.len() ==> !names((#[trigger] fields@[k])@, "code"@)) || (
        forall|k: int| 0 <= k < fields@.len() ==> !names((#[trigger] fields@[k])@, "state"@)),
    ensures
        r is Invalid,
{
    reveal_strlit("code");
    reveal_strlit("state");
    the_target_is_read(head, line, parts, "/callback"@, query@);
    let all = texts(fields@);
    assert(all.len() == fields@.len());
    if forall|k: int| 0 <= k < fields@.len() ==> !names((#[trigger] fields@[k])@, "code"@) {
        assert forall|k: int| 0 <= k < all.len() implies !names(#[trigger] all[k], "code"@) by {
            assert(all[k] == fields@[k]@);
        }
        none_is_found(all, "code"@, all.len() as int);
    } else {
        assert forall|k: int| 0 <= k < all.len() implies !names(#[trigger] all[k], "state"@) by {
            assert(all[k] == fields@[k]@);
        }
        none_is_found(all, "state"@, all.len() as int);
    }
}

/// The bytes of a request ask what their text asks.
pub proof fn bytes_ask_what_their_text_asks(
    head: &str,
    bytes: &[u8],
    r: CallbackRequest,
    same: CallbackRequest,
)
    requires
        bytes@ == encode_utf8(head@),
        call_ensures(read_callback, (head,), r),
        call_ensures(read_callback_bytes, (bytes,), same),
    ensures
        r is NotFound == same is NotFound,
        r is Invalid == same is Invalid,
        r is Callback ==> same->code@ == r->code@ && same->state@ == r->state@,
{
    vstd::utf8::encode_utf8_valid_utf8(head@);
    vstd::utf8::encode_utf8_decode_utf8(head@);
}

} // verus!
