//! Laws of texts.

use vstd::prelude::*;

use crate::text::{
    before_first, contains_text, decimal, find_from, find_from_is_first, find_text,
    find_text_is_first, is_blank, join, occurs_at, pieces, replace, replace_first, replaced,
    replaced_from, split, split_once, split_words, texts, trim, trim_end, trim_end_slashes,
    trim_start, white_space, without_end_slashes, word_len, word_len_bounds, words,
};

verus! {

/// A text stands in another from a place on, character by character.
pub open spec fn stands_at(s: Seq<char>, part: Seq<char>, at: int) -> bool {
    at + part.len() <= s.len() && forall|k: int| 0 <= k < part.len() ==> s[at + k] == part[k]
}

proof fn standing_is_occurring(s: Seq<char>, part: Seq<char>, at: int)
    requires
        0 <= at,
    ensures
        stands_at(s, part, at) == occurs_at(s, part, at),
{
    if at + part.len() <= s.len() {
        let window = s.subrange(at, at + part.len());
        if occurs_at(s, part, at) {
            assert forall|k: int| 0 <= k < part.len() implies s[at + k] == part[k] by {
                assert(window[k] == s[at + k]);
            }
        }
        if stands_at(s, part, at) {
            assert(window =~= part);
        }
    }
}

proof fn an_occurrence_moves_along(s: Seq<char>, part: Seq<char>, from: int, at: int)
    requires
        0 <= from <= s.len(),
        0 <= at,
    ensures
        occurs_at(s.skip(from), part, at) == occurs_at(s, part, from + at),
{
    if at + part.len() <= s.len() - from {
        assert(s.skip(from).subrange(at, at + part.len()) =~= s.subrange(
            from + at,
            from + at + part.len(),
        ));
    }
}

proof fn a_search_moves_along(s: Seq<char>, part: Seq<char>, from: int, at: int)
    requires
        0 <= from <= s.len(),
        0 <= at,
    ensures
        find_text(s.skip(from), part, at) == (match find_text(s, part, from + at) {
            Some(place) => Some(place - from),
            None => None,
        }),
    decreases s.len() + 1 - from - at,
{
    an_occurrence_moves_along(s, part, from, at);
    if at + part.len() <= s.len() - from && !occurs_at(s, part, from + at) {
        a_search_moves_along(s, part, from, at + 1);
    }
}

proof fn a_replacement_moves_along(
    s: Seq<char>,
    part: Seq<char>,
    with: Seq<char>,
    from: int,
    at: int,
)
    requires
        0 <= from <= s.len(),
        0 <= at <= s.len() - from,
        part.len() > 0,
    ensures
        replaced_from(s.skip(from), part, with, at) == replaced_from(s, part, with, from + at),
    decreases s.len() - from - at,
{
    a_search_moves_along(s, part, from, at);
    find_text_is_first(s, part, from + at);
    match find_text(s, part, from + at) {
        Some(place) => {
            a_replacement_moves_along(s, part, with, from, place - from + part.len());
            assert(s.skip(from).subrange(at, place - from) =~= s.subrange(from + at, place));
        },
        None => {
            assert(s.skip(from).skip(at) =~= s.skip(from + at));
        },
    }
}

/// What `replaced` makes of a text is found by walking it: nothing changes before the
/// first occurrence of the part, the part itself gives way, and so on behind it.
pub(crate) proof fn a_replacement_goes_on_behind(
    a: Seq<char>,
    part: Seq<char>,
    b: Seq<char>,
    with: Seq<char>,
)
    requires
        part.len() > 0,
        forall|j: int| 0 <= j < a.len() ==> !#[trigger] stands_at(a + part + b, part, j),
    ensures
        replaced(a + part + b, part, with) == a + with + replaced(b, part, with),
{
    let s = a + part + b;
    assert(s.subrange(a.len() as int, (a.len() + part.len()) as int) =~= part);
    assert(occurs_at(s, part, a.len() as int));
    find_text_is_first(s, part, 0);
    let found = find_text(s, part, 0);
    assert(found == Some(a.len() as int)) by {
        if found is None {
            assert(!occurs_at(s, part, a.len() as int));
        } else if found->0 < a.len() {
            let j = found->0;
            assert(occurs_at(s, part, j));
            standing_is_occurring(s, part, j);
        } else if found->0 > a.len() {
            assert(!occurs_at(s, part, a.len() as int));
        }
    }
    a_replacement_moves_along(s, part, with, (a.len() + part.len()) as int, 0);
    assert(s.skip((a.len() + part.len()) as int) =~= b);
    assert(s.subrange(0, a.len() as int) =~= a);
}

/// Replacing goes through a text from its start: what lies before the first occurrence
/// of the part stays, the part gives way to the new text, and what lies behind it is
/// replaced in the same way.
pub proof fn replacing_goes_from_left_to_right(
    whole: &str,
    part: &str,
    with: &str,
    behind: &str,
    head: Seq<char>,
    r: String,
    rest: String,
)
    requires
        part@.len() > 0,
        whole@ == head + part@ + behind@,
        forall|j: int| 0 <= j < head.len() ==> !#[trigger] stands_at(whole@, part@, j),
        call_ensures(replace, (whole, part, with), r),
        call_ensures(replace, (behind, part, with), rest),
    ensures
        r@ == head + with@ + rest@,
{
    a_replacement_goes_on_behind(head, part@, behind@, with@);
}

/// Replacing leaves a text alone that does not hold the part.
pub proof fn replacing_changes_nothing_else(s: &str, part: &str, with: &str, r: String, first: String)
    requires
        part@.len() > 0,
        forall|j: int| 0 <= j ==> !#[trigger] stands_at(s@, part@, j),
        call_ensures(replace, (s, part, with), r),
        call_ensures(replace_first, (s, part, with), first),
    ensures
        r@ == s@,
        first@ == s@,
{
    find_text_is_first(s@, part@, 0);
    if find_text(s@, part@, 0) is Some {
        let at = find_text(s@, part@, 0)->0;
        assert(occurs_at(s@, part@, at));
        standing_is_occurring(s@, part@, at);
    }
    assert(s@.skip(0) =~= s@);
}

/// Replacing the first occurrence leaves what stands before and behind it.
pub proof fn replacing_once_keeps_the_rest(
    whole: &str,
    part: &str,
    with: &str,
    head: Seq<char>,
    tail: Seq<char>,
    r: String,
)
    requires
        whole@ == head + part@ + tail,
        forall|j: int| 0 <= j < head.len() ==> !#[trigger] stands_at(whole@, part@, j),
        call_ensures(replace_first, (whole, part, with), r),
    ensures
        r@ == head + with@ + tail,
{
    let s = whole@;
    assert(s.subrange(head.len() as int, (head.len() + part@.len()) as int) =~= part@);
    assert(occurs_at(s, part@, head.len() as int));
    find_text_is_first(s, part@, 0);
    let found = find_text(s, part@, 0);
    assert(found == Some(head.len() as int)) by {
        if found is None {
            assert(!occurs_at(s, part@, head.len() as int));
        } else if found->0 < head.len() {
            let j = found->0;
            assert(occurs_at(s, part@, j));
            standing_is_occurring(s, part@, j);
        } else if found->0 > head.len() {
            assert(!occurs_at(s, part@, head.len() as int));
        }
    }
    assert(s.take(head.len() as int) =~= head);
    assert(s.skip((head.len() + part@.len()) as int) =~= tail);
}

/// The same character so many times.
pub open spec fn repeated(c: char, n: nat) -> Seq<char> {
    Seq::new(n, |i: int| c)
}

pub(crate) proof fn end_slashes(s: Seq<char>) -> (n: nat)
    ensures
        s == without_end_slashes(s) + repeated('/', n),
        without_end_slashes(s).len() > 0 ==> without_end_slashes(s).last() != '/',
    decreases s.len(),
{
    if s.len() > 0 && s.last() == '/' {
        let n = end_slashes(s.drop_last());
        let m = (n + 1) as nat;
        let base = without_end_slashes(s.drop_last());
        assert(s =~= s.drop_last().push('/'));
        assert(repeated('/', m) =~= repeated('/', n).push('/'));
        assert(base + repeated('/', m) =~= (base + repeated('/', n)).push('/'));
        m
    } else {
        assert(s =~= s + repeated('/', 0));
        0
    }
}

/// Trimming slashes takes slashes off the end, all of them, and nothing else.
pub proof fn only_end_slashes_go(s: &str, r: String) -> (n: nat)
    requires
        call_ensures(trim_end_slashes, (s,), r),
    ensures
        s@ == r@ + repeated('/', n),
        r@.len() > 0 ==> r@.last() != '/',
{
    end_slashes(s@)
}

pub(crate) proof fn start_trims(s: Seq<char>) -> (n: int)
    ensures
        0 <= n <= s.len(),
        trim_start(s) == s.skip(n),
        forall|i: int| 0 <= i < n ==> white_space(#[trigger] s[i]),
        trim_start(s).len() > 0 ==> !white_space(trim_start(s)[0]),
    decreases s.len(),
{
    if s.len() > 0 && white_space(s[0]) {
        let n = start_trims(s.drop_first());
        assert(s.drop_first().skip(n) =~= s.skip(n + 1));
        assert forall|i: int| 0 <= i < n + 1 implies white_space(#[trigger] s[i]) by {
            if i > 0 {
                assert(s.drop_first()[i - 1] == s[i]);
            }
        }
        n + 1
    } else {
        assert(s.skip(0) =~= s);
        0
    }
}

pub(crate) proof fn end_trims(s: Seq<char>) -> (n: int)
    ensures
        0 <= n <= s.len(),
        trim_end(s) == s.take(n),
        forall|i: int| n <= i < s.len() ==> white_space(#[trigger] s[i]),
        trim_end(s).len() > 0 ==> !white_space(trim_end(s).last()),
    decreases s.len(),
{
    if s.len() > 0 && white_space(s.last()) {
        let n = end_trims(s.drop_last());
        assert(s.drop_last().take(n) =~= s.take(n));
        assert forall|i: int| n <= i < s.len() implies white_space(#[trigger] s[i]) by {
            if i < s.len() - 1 {
                assert(s.drop_last()[i] == s[i]);
            }
        }
        n
    } else {
        assert(s.take(s.len() as int) =~= s);
        s.len() as int
    }
}

/// Trimming takes white space off both ends, all of it, and nothing else.
pub proof fn only_outer_white_space_goes(s: &str, r: String) -> (ends: (int, int))
    requires
        call_ensures(trim, (s,), r),
    ensures
        0 <= ends.0 <= ends.1 <= s@.len(),
        r@ == s@.subrange(ends.0, ends.1),
        forall|i: int|
            (0 <= i < ends.0 || ends.1 <= i < s@.len()) ==> white_space(#[trigger] s@[i]),
        r@.len() > 0 ==> !white_space(r@[0]) && !white_space(r@.last()),
{
    let a = start_trims(s@);
    let head = s@.skip(a);
    let n = end_trims(head);
    assert(head.take(n) =~= s@.subrange(a, a + n));
    assert forall|i: int| (0 <= i < a || a + n <= i < s@.len()) implies white_space(
        #[trigger] s@[i],
    ) by {
        if i >= a {
            assert(head[i - a] == s@[i]);
        }
    }
    if n > 0 {
        assert(head.take(n)[0] == head[0]);
    }
    (a, a + n)
}

/// A text is blank exactly when all of it is white space.
pub proof fn blank_is_all_white_space(s: &str, r: bool)
    requires
        call_ensures(is_blank, (s,), r),
    ensures
        r == (forall|i: int| 0 <= i < s@.len() ==> white_space(#[trigger] s@[i])),
{
    let a = start_trims(s@);
    let head = s@.skip(a);
    let n = end_trims(head);
    if n == 0 {
        assert forall|i: int| 0 <= i < s@.len() implies white_space(#[trigger] s@[i]) by {
            if i >= a {
                assert(head[i - a] == s@[i]);
            }
        }
    } else {
        assert(trim_end(head).last() == head[n - 1]);
        assert(head[n - 1] == s@[a + n - 1]);
    }
}

/// Splitting once gives the two sides of the first separator.
pub proof fn a_split_is_at_the_first_separator(s: &str, c: char, r: Option<(String, String)>)
    requires
        call_ensures(split_once, (s, c), r),
    ensures
        r is None == !s@.contains(c),
        r matches Some((a, b)) ==> s@ == a@ + seq![c] + b@ && !a@.contains(c),
{
    find_from_is_first(s@, c, 0);
    let at = find_from(s@, c, 0);
    if let Some((a, b)) = r {
        assert(at < s@.len()) by {
            let i = choose|i: int| 0 <= i < s@.len() && s@[i] == c;
        }
        assert(s@ =~= a@ + seq![c] + b@);
    }
}

/// The pieces put together with a separator between each two.
pub open spec fn rejoined(parts: Seq<Seq<char>>, c: char) -> Seq<char>
    decreases parts.len(),
{
    if parts.len() == 0 {
        Seq::empty()
    } else if parts.len() == 1 {
        parts[0]
    } else {
        parts[0] + seq![c] + rejoined(parts.drop_first(), c)
    }
}

pub(crate) proof fn pieces_rejoin(s: Seq<char>, c: char)
    ensures
        pieces(s, c).len() > 0,
        rejoined(pieces(s, c), c) == s,
        forall|i: int| 0 <= i < pieces(s, c).len() ==> !(#[trigger] pieces(s, c)[i]).contains(c),
    decreases s.len(),
{
    find_from_is_first(s, c, 0);
    let at = find_from(s, c, 0);
    let parts = pieces(s, c);
    if at < s.len() {
        let rest = s.skip(at + 1);
        pieces_rejoin(rest, c);
        assert(parts.drop_first() =~= pieces(rest, c));
        assert(s =~= s.take(at) + seq![c] + rest);
        assert forall|i: int| 0 <= i < parts.len() implies !(#[trigger] parts[i]).contains(c) by {
            if i > 0 {
                assert(parts[i] == pieces(rest, c)[i - 1]);
            }
        }
    }
}

/// Splitting cuts a text at every separator and loses nothing: no piece holds one, and
/// the pieces with a separator between each two are the text.
pub proof fn a_split_can_be_undone(s: &str, c: char, r: Vec<String>)
    requires
        call_ensures(split, (s, c), r),
    ensures
        r@.len() > 0,
        rejoined(texts(r@), c) == s@,
        forall|i: int| 0 <= i < r@.len() ==> !(#[trigger] r@[i])@.contains(c),
{
    pieces_rejoin(s@, c);
    assert(texts(r@).len() == r@.len());
    assert forall|i: int| 0 <= i < r@.len() implies !(#[trigger] r@[i])@.contains(c) by {
        assert(texts(r@)[i] == r@[i]@);
    }
}

/// Joining one more part puts the separator and the part behind the rest.
pub proof fn joining_one_more(parts: &Vec<String>, more: &Vec<String>, sep: &str, r: String, longer: String)
    requires
        more@.len() == parts@.len() + 1,
        more@.drop_last() == parts@,
        call_ensures(join, (parts, sep), r),
        call_ensures(join, (more, sep), longer),
    ensures
        parts@.len() == 0 ==> r@.len() == 0 && longer@ == more@.last()@,
        parts@.len() > 0 ==> longer@ == r@ + sep@ + more@.last()@,
{
    assert(texts(more@).drop_last() =~= texts(parts@));
    assert(texts(more@).last() == more@.last()@);
}

proof fn words_follow_each_other(a: Seq<char>, w: char, b: Seq<char>)
    requires
        white_space(w),
    ensures
        words(a + seq![w] + b) == words(a) + words(b),
        word_len(a + seq![w] + b) == word_len(a),
    decreases a.len(),
{
    let s = a + seq![w] + b;
    if a.len() == 0 {
        assert(s.drop_first() =~= b);
        assert(words(a) + words(b) =~= words(b));
    } else {
        let rest = a.drop_first();
        assert(s.drop_first() =~= rest + seq![w] + b);
        words_follow_each_other(rest, w, b);
        if !white_space(a[0]) {
            word_len_bounds(a);
            let n = word_len(a);
            words_follow_each_other(a.skip(n), w, b);
            assert(s.skip(n) =~= a.skip(n) + seq![w] + b);
            assert(s.take(n) =~= a.take(n));
            assert(words(a) + words(b) =~= seq![a.take(n)] + (words(a.skip(n)) + words(b)));
        }
    }
}

proof fn a_text_without_white_space_is_a_word(s: Seq<char>)
    requires
        forall|i: int| 0 <= i < s.len() ==> !white_space(#[trigger] s[i]),
    ensures
        word_len(s) == s.len(),
        s.len() > 0 ==> words(s) == seq![s],
    decreases s.len(),
{
    if s.len() > 0 {
        let rest = s.drop_first();
        assert forall|i: int| 0 <= i < rest.len() implies !white_space(#[trigger] rest[i]) by {
            assert(rest[i] == s[i + 1]);
        }
        a_text_without_white_space_is_a_word(rest);
        assert(!white_space(s[0]));
        assert(s.take(s.len() as int) =~= s);
        assert(s.skip(s.len() as int) =~= Seq::<char>::empty());
        reveal_with_fuel(words, 2);
        assert(words(s) =~= seq![s]);
    }
}

/// White space parts words: the words of a text are those on its left and those on its
/// right.
pub proof fn white_space_parts_words(
    left: &str,
    w: char,
    right: &str,
    text: &str,
    a: Vec<String>,
    b: Vec<String>,
    r: Vec<String>,
)
    requires
        white_space(w),
        text@ == left@ + seq![w] + right@,
        call_ensures(split_words, (left,), a),
        call_ensures(split_words, (right,), b),
        call_ensures(split_words, (text,), r),
    ensures
        texts(r@) == texts(a@) + texts(b@),
{
    words_follow_each_other(left@, w, right@);
}

/// A text without white space is one word, and the empty text holds none.
pub proof fn a_word_is_kept_whole(text: &str, r: Vec<String>)
    requires
        forall|i: int| 0 <= i < text@.len() ==> !white_space(#[trigger] text@[i]),
        call_ensures(split_words, (text,), r),
    ensures
        text@.len() == 0 ==> r@.len() == 0,
        text@.len() > 0 ==> r@.len() == 1 && r@[0]@ == text@,
{
    a_text_without_white_space_is_a_word(text@);
    assert(texts(r@).len() == r@.len());
    if text@.len() > 0 {
        assert(texts(r@)[0] == r@[0]@);
    }
}

/// White space is the space, the control characters from the tab to the carriage return,
/// and the other separators of Unicode; a visible ASCII character is none.
pub proof fn visible_ascii_is_no_white_space(c: char)
    requires
        (c as u32) < 0x80,
    ensures
        white_space(c) == (c == ' ' || c == '\t' || c == '\n' || c == '\r' || c as u32 == 0x0b
            || c as u32 == 0x0c),
{
}

/// A number of one digit is written as that digit, and every other one as the number
/// before its last digit, and that digit behind it.
pub proof fn a_number_ends_in_its_last_digit(m: u64, d: u64, n: u64, r: String, short: String)
    requires
        d < 10,
        n == 10 * m + d,
        call_ensures(decimal, (n,), r),
        call_ensures(decimal, (m,), short),
    ensures
        ({
            let last = "0123456789"@[d as int];
            &&& m == 0 ==> r@ == seq![last]
            &&& m > 0 ==> r@ == short@.push(last)
        }),
{
    reveal_strlit("0123456789");
    assert(n as nat / 10 == m as nat);
    assert(n as nat % 10 == d as nat);
}

/// What is before the first separator holds none, and behind it the text goes on with the
/// separator or ends.
pub proof fn what_is_before_ends_at_the_separator(s: &str, c: char, r: String)
    requires
        call_ensures(before_first, (s, c), r),
    ensures
        r@.len() <= s@.len() && r@ == s@.take(r@.len() as int),
        !r@.contains(c),
        r@.len() == s@.len() || s@[r@.len() as int] == c,
{
    find_from_is_first(s@, c, 0);
}

/// A list holds a text exactly where one of its texts has the same characters.
pub proof fn a_list_holds_its_texts(list: &Vec<String>, text: &str, r: bool, i: int)
    requires
        call_ensures(contains_text, (list, text), r),
    ensures
        0 <= i < list@.len() && list@[i]@ == text@ ==> r,
        r ==> exists|k: int| 0 <= k < list@.len() && (#[trigger] list@[k])@ == text@,
{
    let all = texts(list@);
    assert(all.len() == list@.len());
    if 0 <= i < list@.len() && list@[i]@ == text@ {
        assert(all[i] == text@);
    }
    if r {
        let k = choose|k: int| 0 <= k < all.len() && all[k] == text@;
        assert(list@[k]@ == text@);
    }
}

/// An empty part is found around every character: the new text goes behind each, and
/// before the first.
pub proof fn replacing_nothing_goes_between(
    s: &str,
    longer: &str,
    c: char,
    part: &str,
    with: &str,
    r: String,
    more: String,
)
    requires
        part@.len() == 0,
        longer@ == s@.push(c),
        call_ensures(replace, (s, part, with), r),
        call_ensures(replace, (longer, part, with), more),
    ensures
        s@.len() == 0 ==> r@ == with@,
        more@ == r@.push(c) + with@,
{
    assert(longer@.drop_last() =~= s@);
}

} // verus!
