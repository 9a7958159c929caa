//! Laws of maps, sets and orders.

use vstd::prelude::*;

use crate::host::connectivity::{sync_statuses, DegradeGrace};
use crate::host::maps::{TextMap, TextSet};
use crate::host::order::{sort_rows, text_before, text_less};
use crate::host::snapshots::ClientStats;
use crate::text::texts;

verus! {

/// What was put under a key is found there, and nowhere else; what was taken out is gone.
pub proof fn a_map_gives_back_what_was_put<V>(
    new: TextMap<V>,
    map: &mut TextMap<V>,
    key: String,
    value: V,
    same: &str,
    other: &str,
    found: Option<&V>,
    was: Option<&V>,
    is: Option<&V>,
    later: &mut TextMap<V>,
    taken: Option<V>,
    again: bool,
    none: Option<&V>,
)
    requires
        call_ensures(TextMap::<V>::new, (), new),
        call_ensures(TextMap::<V>::get, (&new, other), none),
        call_ensures(TextMap::<V>::insert, (map, key, value), ()),
        same@ == key@,
        other@ != key@,
        call_ensures(TextMap::<V>::get, (&*final(map), same), found),
        call_ensures(TextMap::<V>::get, (&*old(map), other), was),
        call_ensures(TextMap::<V>::get, (&*final(map), other), is),
        *old(later) == *final(map),
        call_ensures(TextMap::<V>::remove, (later, same), taken),
        call_ensures(TextMap::<V>::contains, (&*final(later), same), again),
    ensures
        none is None,
        found is Some && *found->0 == value,
        is is Some == was is Some,
        is is Some ==> *is->0 == *was->0,
        taken == Some(value),
        !again,
        final(later).at(other@) == old(map).at(other@),
{
}

/// A set holds what was added, says whether it was new, and leaves the rest alone.
pub proof fn a_set_holds_what_was_added(
    new: TextSet,
    none: bool,
    set: &mut TextSet,
    key: String,
    same: &str,
    other: &str,
    added: bool,
    had: bool,
    has: bool,
    was: bool,
    is: bool,
    later: &mut TextSet,
    removed: bool,
    again: bool,
)
    requires
        call_ensures(TextSet::new, (), new),
        call_ensures(TextSet::contains, (&new, other), none),
        call_ensures(TextSet::insert, (set, key), added),
        same@ == key@,
        other@ != key@,
        call_ensures(TextSet::contains, (&*old(set), same), had),
        call_ensures(TextSet::contains, (&*final(set), same), has),
        call_ensures(TextSet::contains, (&*old(set), other), was),
        call_ensures(TextSet::contains, (&*final(set), other), is),
        *old(later) == *final(set),
        call_ensures(TextSet::remove, (later, same), removed),
        call_ensures(TextSet::contains, (&*final(later), same), again),
    ensures
        !none,
        added == !had,
        has,
        is == was,
        removed,
        !again,
        final(later).has(other@) == old(set).has(other@),
{
}

/// A chat that is no longer open loses its timer; an open one keeps it, and so do the
/// others.
pub proof fn only_open_chats_keep_a_timer(grace: &mut DegradeGrace, open: &Vec<String>, i: int, chat: Seq<char>)
    requires
        call_ensures(DegradeGrace::retain_chats, (grace, open), ()),
        0 <= i < open@.len(),
        forall|j: int| 0 <= j < open@.len() ==> (#[trigger] open@[j])@ != chat,
    ensures
        final(grace).os_path == old(grace).os_path && final(grace).registry == old(grace).registry,
        final(grace).chats.at(open@[i]@) == old(grace).chats.at(open@[i]@),
        final(grace).chats.at(chat) is None,
{
    let all = texts(open@);
    assert(all.len() == open@.len());
    assert(all[i] == open@[i]@);
    assert(all.contains(open@[i]@));
    assert(!all.contains(chat)) by {
        if all.contains(chat) {
            let j = choose|j: int| 0 <= j < all.len() && all[j] == chat;
            assert(open@[j]@ == chat);
        }
    }
}

proof fn a_common_start_does_not_count(p: Seq<char>, a: Seq<char>, b: Seq<char>)
    ensures
        text_less(p + a, p + b) == text_less(a, b),
    decreases p.len(),
{
    if p.len() > 0 {
        a_common_start_does_not_count(p.drop_first(), a, b);
        assert((p + a).drop_first() =~= p.drop_first() + a);
        assert((p + b).drop_first() =~= p.drop_first() + b);
    } else {
        assert(p + a =~= a);
        assert(p + b =~= b);
    }
}

/// Texts are ordered by their first difference; one that goes on comes behind its start,
/// and no text comes before itself.
pub proof fn the_first_difference_decides(
    a: &str,
    b: &str,
    start: Seq<char>,
    left: Seq<char>,
    right: Seq<char>,
    r: bool,
)
    requires
        a@ == start + left,
        b@ == start + right,
        call_ensures(text_before, (a, b), r),
    ensures
        left.len() > 0 && right.len() > 0 && left[0] != right[0] ==> r == (left[0]
            < right[0]),
        left.len() == 0 && right.len() > 0 ==> r,
        right.len() == 0 ==> !r,
{
    a_common_start_does_not_count(start, left, right);
}

/// Sorting keeps every row, and puts the smaller number first, and of two with the same
/// number the smaller text.
pub proof fn sorting_orders_rows<T>(
    rows: Vec<(i64, String, T)>,
    r: Vec<(i64, String, T)>,
    i: int,
    j: int,
    a: &str,
    b: &str,
    back: bool,
)
    requires
        call_ensures(sort_rows::<(i64, String, T)>, (rows,), r),
        0 <= i < j < r@.len(),
        a@ == r@[j].1@,
        b@ == r@[i].1@,
        call_ensures(text_before, (a, b), back),
    ensures
        r@.to_multiset() == rows@.to_multiset(),
        r@.len() == rows@.len(),
        r@[i].0 <= r@[j].0,
        r@[i].0 == r@[j].0 ==> !back,
{
    use_order(r@, i, j);
}

proof fn use_order<T>(rows: Seq<(i64, String, T)>, i: int, j: int)
    requires
        crate::host::order::rows_in_order(rows),
        0 <= i < j < rows.len(),
    ensures
        rows[i].0 <= rows[j].0,
        rows[i].0 == rows[j].0 ==> !text_less(rows[j].1@, rows[i].1@),
{
    assert(!crate::host::order::Ordered::less(rows[j], rows[i]));
}

/// The rooms of the open chats come in the order of their ids, each once.
pub proof fn rooms_come_by_their_ids(
    rows: Vec<(String, Option<ClientStats>)>,
    r: Vec<(String, Option<ClientStats>)>,
    i: int,
    j: int,
    a: &str,
    b: &str,
    back: bool,
)
    requires
        call_ensures(sync_statuses, (rows,), r),
        0 <= i < j < r@.len(),
        a@ == r@[j].0@,
        b@ == r@[i].0@,
        call_ensures(text_before, (a, b), back),
    ensures
        r@.to_multiset() == rows@.to_multiset(),
        !back,
{
    assert(!crate::host::order::Ordered::less(r@[j], r@[i]));
}

} // verus!
