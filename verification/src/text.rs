//! Text as sequences of characters: trimming, splitting, joining, decimal digits.

use vstd::prelude::*;

verus! {

/// `String::push` appends one character.
pub assume_specification[ String::push ](s: &mut String, c: char)
    ensures
        final(s)@ == old(s)@.push(c),
;

/// The characters with the Unicode `White_Space` property.
pub open spec fn white_space(c: char) -> bool {
    ||| '\u{9}' <= c <= '\u{d}'
    ||| c == ' '
    ||| c == '\u{85}'
    ||| c == '\u{a0}'
    ||| c == '\u{1680}'
    ||| '\u{2000}' <= c <= '\u{200a}'
    ||| c == '\u{2028}'
    ||| c == '\u{2029}'
    ||| c == '\u{202f}'
    ||| c == '\u{205f}'
    ||| c == '\u{3000}'
}

/// Calls `char::is_whitespace`, which holds of the characters with the Unicode
/// `White_Space` property. The contract lists them.
#[verifier::external_body]
pub(crate) fn is_white_space(c: char) -> (r: bool)
    ensures
        r == white_space(c),
{
    c.is_whitespace()
}

/// The characters of a text.
pub fn to_chars(s: &str) -> (r: Vec<char>)
    ensures
        r@ == s@,
{
    let mut out: Vec<char> = Vec::new();
    for c in it: s.chars()
        invariant
            out@ == it.seq().take(it.index() as int),
            it.seq() == s@,
    {
        out.push(c);
    }
    assert(s@.take(s@.len() as int) =~= s@);
    out
}

/// The text made of `chars[from..to]`.
pub fn from_chars(chars: &[char], from: usize, to: usize) -> (r: String)
    requires
        from <= to <= chars@.len(),
    ensures
        r@ == chars@.subrange(from as int, to as int),
{
    let mut out = String::new();
    let mut i: usize = from;
    while i < to
        invariant
            from <= i <= to <= chars@.len(),
            out@ == chars@.subrange(from as int, i as int),
        decreases to - i,
    {
        out.push(chars[i]);
        assert(chars@.subrange(from as int, i + 1) =~= chars@.subrange(from as int, i as int).push(
            chars@[i as int],
        ));
        i = i + 1;
    }
    out
}

/// Equality of two texts.
pub fn text_eq(a: &str, b: &str) -> (r: bool)
    ensures
        r == (a@ == b@),
{
    a.to_owned() == b.to_owned()
}

/// Equality of two optional texts.
pub fn option_text_eq(a: &Option<String>, b: &Option<String>) -> (r: bool)
    ensures
        r == same_option_text(*a, *b),
{
    match (a, b) {
        (Some(a), Some(b)) => *a == *b,
        (None, None) => true,
        _ => false,
    }
}

/// Two optional texts hold the same characters, or both hold none.
pub open spec fn same_option_text(a: Option<String>, b: Option<String>) -> bool {
    match (a, b) {
        (Some(a), Some(b)) => a@ == b@,
        (None, None) => true,
        _ => false,
    }
}

/// The characters of an optional text.
pub open spec fn option_text(a: Option<String>) -> Option<Seq<char>> {
    match a {
        Some(a) => Some(a@),
        None => None,
    }
}

/// A copy of an optional text.
pub fn clone_option(a: &Option<String>) -> (r: Option<String>)
    ensures
        r == *a,
{
    match a {
        Some(a) => Some(a.clone()),
        None => None,
    }
}

pub fn join2(a: &str, b: &str) -> (r: String)
    ensures
        r@ == a@ + b@,
{
    a.to_owned().concat(b)
}

pub fn join3(a: &str, b: &str, c: &str) -> (r: String)
    ensures
        r@ == a@ + b@ + c@,
{
    a.to_owned().concat(b).concat(c)
}

pub fn join4(a: &str, b: &str, c: &str, d: &str) -> (r: String)
    ensures
        r@ == a@ + b@ + c@ + d@,
{
    a.to_owned().concat(b).concat(c).concat(d)
}

pub fn join5(a: &str, b: &str, c: &str, d: &str, e: &str) -> (r: String)
    ensures
        r@ == a@ + b@ + c@ + d@ + e@,
{
    a.to_owned().concat(b).concat(c).concat(d).concat(e)
}

/// The decimal digits of a number, without leading zeros; `0` for zero.
pub open spec fn decimal_digits(n: nat) -> Seq<char>
    decreases n,
{
    let last = (('0' as nat) + n % 10) as char;
    if n < 10 {
        seq![last]
    } else {
        decimal_digits(n / 10).push(last)
    }
}

fn digit(d: u64) -> (r: char)
    requires
        d < 10,
    ensures
        r == (('0' as nat) + d) as char,
{
    match d {
        0 => '0',
        1 => '1',
        2 => '2',
        3 => '3',
        4 => '4',
        5 => '5',
        6 => '6',
        7 => '7',
        8 => '8',
        _ => '9',
    }
}

/// A number in decimal.
pub fn decimal(n: u64) -> (r: String)
    ensures
        r@ == decimal_digits(n as nat),
    decreases n,
{
    let last = digit(n % 10);
    if n < 10 {
        let mut out = String::new();
        out.push(last);
        assert(out@ =~= seq![last]);
        out
    } else {
        let mut out = decimal(n / 10);
        out.push(last);
        out
    }
}

/// What is left once the leading white space is gone.
pub open spec fn trim_start(s: Seq<char>) -> Seq<char>
    decreases s.len(),
{
    if s.len() > 0 && white_space(s[0]) {
        trim_start(s.drop_first())
    } else {
        s
    }
}

/// What is left once the trailing white space is gone.
pub open spec fn trim_end(s: Seq<char>) -> Seq<char>
    decreases s.len(),
{
    if s.len() > 0 && white_space(s.last()) {
        trim_end(s.drop_last())
    } else {
        s
    }
}

/// The text without the white space at either end.
pub open spec fn trimmed(s: Seq<char>) -> Seq<char> {
    trim_end(trim_start(s))
}

/// The text without white space at either end.
pub fn trim(s: &str) -> (r: String)
    ensures
        r@ == trimmed(s@),
{
    let chars = to_chars(s);
    let mut from: usize = 0;
    assert(s@.skip(0) =~= s@);
    while from < chars.len() && is_white_space(chars[from])
        invariant
            chars@ == s@,
            from <= chars@.len(),
            trim_start(s@.skip(from as int)) == trim_start(s@),
        decreases chars@.len() - from,
    {
        assert(s@.skip(from as int).drop_first() =~= s@.skip(from + 1));
        from = from + 1;
    }
    let ghost head = s@.skip(from as int);
    assert(trim_start(s@) == head);
    let mut to: usize = chars.len();
    assert(s@.subrange(from as int, to as int) =~= head);
    while from < to && is_white_space(chars[to - 1])
        invariant
            chars@ == s@,
            from <= to <= chars@.len(),
            trim_end(s@.subrange(from as int, to as int)) == trim_end(head),
        decreases to,
    {
        assert(s@.subrange(from as int, to as int).drop_last() =~= s@.subrange(
            from as int,
            to - 1,
        ));
        to = to - 1;
    }
    from_chars(&chars, from, to)
}

/// Nothing but white space.
pub open spec fn blank(s: Seq<char>) -> bool {
    trimmed(s).len() == 0
}

pub fn is_blank(s: &str) -> (r: bool)
    ensures
        r == blank(s@),
{
    trim(s).as_str().is_empty()
}

/// The text without the slashes at its end.
pub open spec fn without_end_slashes(s: Seq<char>) -> Seq<char>
    decreases s.len(),
{
    if s.len() > 0 && s.last() == '/' {
        without_end_slashes(s.drop_last())
    } else {
        s
    }
}

/// Drops every slash at the end of a text.
pub fn trim_end_slashes(s: &str) -> (r: String)
    ensures
        r@ == without_end_slashes(s@),
{
    let chars = to_chars(s);
    let mut to: usize = chars.len();
    assert(s@.take(to as int) =~= s@);
    while 0 < to && chars[to - 1] == '/'
        invariant
            chars@ == s@,
            to <= chars@.len(),
            without_end_slashes(s@.take(to as int)) == without_end_slashes(s@),
        decreases to,
    {
        assert(s@.take(to as int).drop_last() =~= s@.take(to - 1));
        to = to - 1;
    }
    assert(s@.subrange(0, to as int) =~= s@.take(to as int));
    from_chars(&chars, 0, to)
}

/// The place of the first `c` at or after `from`, or the length where there is none.
pub open spec fn find_from(s: Seq<char>, c: char, from: int) -> int
    decreases s.len() - from,
{
    if from >= s.len() || s[from] == c {
        if from >= s.len() {
            s.len() as int
        } else {
            from
        }
    } else {
        find_from(s, c, from + 1)
    }
}

/// What `find_from` finds is the first `c` at or after `from`.
pub proof fn find_from_is_first(s: Seq<char>, c: char, from: int)
    requires
        0 <= from <= s.len(),
    ensures
        from <= find_from(s, c, from) <= s.len(),
        find_from(s, c, from) < s.len() ==> s[find_from(s, c, from)] == c,
        forall|j: int| from <= j < find_from(s, c, from) ==> s[j] != c,
    decreases s.len() - from,
{
    if from < s.len() && s[from] != c {
        find_from_is_first(s, c, from + 1);
    }
}

pub fn find(chars: &[char], c: char, from: usize) -> (r: usize)
    requires
        from <= chars@.len(),
    ensures
        r == find_from(chars@, c, from as int),
        from <= r <= chars@.len(),
        r < chars@.len() ==> chars@[r as int] == c,
        forall|j: int| from <= j < r ==> chars@[j] != c,
{
    let mut i: usize = from;
    while i < chars.len() && chars[i] != c
        invariant
            from <= i <= chars@.len(),
            find_from(chars@, c, i as int) == find_from(chars@, c, from as int),
            forall|j: int| from <= j < i ==> chars@[j] != c,
        decreases chars@.len() - i,
    {
        i = i + 1;
    }
    i
}

/// The text before the first `c`, or all of it where there is none.
pub open spec fn before(s: Seq<char>, c: char) -> Seq<char> {
    s.take(find_from(s, c, 0))
}

/// The text after the first `c`, empty where there is none.
pub open spec fn after(s: Seq<char>, c: char) -> Seq<char> {
    let at = find_from(s, c, 0);
    if at < s.len() {
        s.skip(at + 1)
    } else {
        Seq::empty()
    }
}

/// The text before the first `c`, or all of it where there is none.
pub fn before_first(s: &str, c: char) -> (r: String)
    ensures
        r@ == before(s@, c),
{
    let chars = to_chars(s);
    let at = find(&chars, c, 0);
    assert(s@.subrange(0, at as int) =~= s@.take(at as int));
    from_chars(&chars, 0, at)
}

/// The two sides of the first `c`; none where there is no `c`.
pub fn split_once(s: &str, c: char) -> (r: Option<(String, String)>)
    ensures
        match r {
            Some((a, b)) => s@.contains(c) && a@ == before(s@, c) && b@ == after(s@, c),
            None => !s@.contains(c),
        },
{
    let chars = to_chars(s);
    let at = find(&chars, c, 0);
    if at < chars.len() {
        assert(s@[at as int] == c);
        assert(s@.subrange(0, at as int) =~= s@.take(at as int));
        assert(s@.subrange(at + 1, s@.len() as int) =~= s@.skip(at + 1));
        Some((from_chars(&chars, 0, at), from_chars(&chars, at + 1, chars.len())))
    } else {
        None
    }
}

/// The pieces between the separators `c`: one more than there are separators.
pub open spec fn pieces(s: Seq<char>, c: char) -> Seq<Seq<char>>
    decreases s.len(),
{
    let at = find_from(s, c, 0);
    if 0 <= at < s.len() {
        seq![s.take(at)] + pieces(s.skip(at + 1), c)
    } else {
        seq![s]
    }
}

/// The characters of each text of a list.
pub open spec fn texts(v: Seq<String>) -> Seq<Seq<char>> {
    v.map_values(|t: String| t@)
}

proof fn find_from_skip(s: Seq<char>, c: char, from: int, k: int)
    requires
        0 <= from,
        0 <= k,
        from + k <= s.len(),
    ensures
        find_from(s, c, from + k) == find_from(s.skip(from), c, k) + from,
    decreases s.len() - from - k,
{
    if from + k < s.len() && s[from + k] != c {
        find_from_skip(s, c, from, k + 1);
    }
}

/// Cuts a text at every `c`.
pub fn split(s: &str, c: char) -> (r: Vec<String>)
    ensures
        texts(r@) == pieces(s@, c),
        r@.len() >= 1,
{
    let chars = to_chars(s);
    let mut out: Vec<String> = Vec::new();
    let mut from: usize = 0;
    assert(s@.skip(0) =~= s@);
    assert(texts(out@) + pieces(s@, c) =~= pieces(s@, c));
    loop
        invariant
            chars@ == s@,
            from <= chars@.len(),
            texts(out@) + pieces(s@.skip(from as int), c) == pieces(s@, c),
        decreases chars@.len() - from,
    {
        let at = find(&chars, c, from);
        let piece = from_chars(&chars, from, at);
        let ghost rest = s@.skip(from as int);
        proof {
            find_from_skip(s@, c, from as int, 0);
        }
        assert(piece@ =~= rest.take(at - from));
        let ghost before_push = out@;
        out.push(piece);
        assert(texts(out@) =~= texts(before_push).push(piece@));
        if at < chars.len() {
            assert(rest.skip(at - from + 1) =~= s@.skip(at + 1));
            assert(texts(before_push) + (seq![piece@] + pieces(s@.skip(at + 1), c)) =~= texts(out@)
                + pieces(s@.skip(at + 1), c));
            from = at + 1;
        } else {
            assert(rest.take(at - from) =~= rest);
            assert(texts(before_push) + seq![piece@] =~= texts(out@));
            return out;
        }
    }
}

/// How many characters come before the first white space.
pub open spec fn word_len(s: Seq<char>) -> int
    decreases s.len(),
{
    if s.len() == 0 || white_space(s[0]) {
        0
    } else {
        1 + word_len(s.drop_first())
    }
}

/// The maximal runs of characters that are not white space.
pub open spec fn words(s: Seq<char>) -> Seq<Seq<char>>
    decreases s.len(),
{
    if s.len() == 0 {
        Seq::empty()
    } else if white_space(s[0]) {
        words(s.drop_first())
    } else if 0 < word_len(s) <= s.len() {
        seq![s.take(word_len(s))] + words(s.skip(word_len(s)))
    } else {
        Seq::empty()
    }
}

/// A text without white space within its first `word_len` characters.
pub proof fn word_len_bounds(s: Seq<char>)
    ensures
        0 <= word_len(s) <= s.len(),
        s.len() > 0 && !white_space(s[0]) ==> word_len(s) > 0,
        forall|i: int| 0 <= i < word_len(s) ==> !white_space(s[i]),
    decreases s.len(),
{
    if s.len() > 0 && !white_space(s[0]) {
        word_len_bounds(s.drop_first());
        assert forall|i: int| 0 <= i < word_len(s) implies !white_space(s[i]) by {
            if i > 0 {
                assert(s[i] == s.drop_first()[i - 1]);
            }
        }
    }
}

/// The words of a text.
pub fn split_words(s: &str) -> (r: Vec<String>)
    ensures
        texts(r@) == words(s@),
{
    let chars = to_chars(s);
    let mut out: Vec<String> = Vec::new();
    let mut from: usize = 0;
    assert(s@.skip(0) =~= s@);
    assert(texts(out@) + words(s@) =~= words(s@));
    while from < chars.len()
        invariant
            chars@ == s@,
            from <= chars@.len(),
            texts(out@) + words(s@.skip(from as int)) == words(s@),
        decreases chars@.len() - from,
    {
        let ghost rest = s@.skip(from as int);
        assert(rest[0] == s@[from as int]);
        if is_white_space(chars[from]) {
            assert(rest.drop_first() =~= s@.skip(from + 1));
            from = from + 1;
        } else {
            let mut to: usize = from;
            while to < chars.len() && !is_white_space(chars[to])
                invariant
                    chars@ == s@,
                    from <= to <= chars@.len(),
                    word_len(s@.skip(from as int)) == (to - from) + word_len(s@.skip(to as int)),
                decreases chars@.len() - to,
            {
                assert(s@.skip(to as int).drop_first() =~= s@.skip(to + 1));
                assert(s@.skip(to as int)[0] == s@[to as int]);
                to = to + 1;
            }
            proof {
                word_len_bounds(rest);
                if to < s@.len() {
                    assert(s@.skip(to as int)[0] == s@[to as int]);
                }
            }
            assert(word_len(rest) == to - from);
            let word = from_chars(&chars, from, to);
            assert(word@ =~= rest.take(to - from));
            let ghost before_push = out@;
            out.push(word);
            assert(texts(out@) =~= texts(before_push).push(word@));
            assert(rest.skip(to - from) =~= s@.skip(to as int));
            assert(texts(before_push) + (seq![word@] + words(s@.skip(to as int))) =~= texts(out@)
                + words(s@.skip(to as int)));
            from = to;
        }
    }
    assert(s@.skip(s@.len() as int) =~= Seq::<char>::empty());
    assert(texts(out@) + Seq::<Seq<char>>::empty() =~= texts(out@));
    out
}

/// The parts of a list with a separator between each two.
pub open spec fn joined(parts: Seq<Seq<char>>, sep: Seq<char>) -> Seq<char>
    decreases parts.len(),
{
    if parts.len() == 0 {
        Seq::empty()
    } else if parts.len() == 1 {
        parts[0]
    } else {
        joined(parts.drop_last(), sep) + sep + parts.last()
    }
}

/// Joins the parts of a list with a separator between each two.
pub fn join(parts: &Vec<String>, sep: &str) -> (r: String)
    ensures
        r@ == joined(texts(parts@), sep@),
{
    let mut out = String::new();
    let mut i: usize = 0;
    assert(texts(parts@.take(0)) =~= Seq::<Seq<char>>::empty());
    while i < parts.len()
        invariant
            i <= parts@.len(),
            out@ == joined(texts(parts@.take(i as int)), sep@),
        decreases parts@.len() - i,
    {
        let ghost done = texts(parts@.take(i as int));
        let ghost next = texts(parts@.take(i + 1));
        assert(next.drop_last() =~= done);
        assert(next.last() == parts@[i as int]@);
        if i > 0 {
            out.append(sep);
            out.append(parts[i].as_str());
        } else {
            out.append(parts[i].as_str());
            assert(out@ =~= parts@[0]@);
        }
        i = i + 1;
    }
    assert(parts@.take(parts@.len() as int) =~= parts@);
    out
}

/// Whether a list of texts holds one with the given characters.
pub fn contains_text(list: &Vec<String>, text: &str) -> (r: bool)
    ensures
        r == texts(list@).contains(text@),
{
    let mut i: usize = 0;
    while i < list.len()
        invariant
            i <= list@.len(),
            forall|j: int| 0 <= j < i ==> list@[j]@ != text@,
        decreases list@.len() - i,
    {
        if text_eq(list[i].as_str(), text) {
            assert(texts(list@)[i as int] == text@);
            return true;
        }
        i = i + 1;
    }
    assert forall|j: int| 0 <= j < list@.len() implies texts(list@)[j] != text@ by {}
    false
}

/// A text occurs in another at a place.
pub open spec fn occurs_at(s: Seq<char>, part: Seq<char>, at: int) -> bool {
    0 <= at && at + part.len() <= s.len() && s.subrange(at, at + part.len()) == part
}

/// The first place from `from` on at which a text occurs in another.
pub open spec fn find_text(s: Seq<char>, part: Seq<char>, from: int) -> Option<int>
    decreases s.len() + 1 - from,
{
    if from < 0 || from + part.len() > s.len() {
        None
    } else if occurs_at(s, part, from) {
        Some(from)
    } else {
        find_text(s, part, from + 1)
    }
}

/// What is found is an occurrence, and there is none before it.
pub proof fn find_text_is_first(s: Seq<char>, part: Seq<char>, from: int)
    requires
        0 <= from,
    ensures
        match find_text(s, part, from) {
            Some(at) => from <= at && occurs_at(s, part, at) && forall|j: int|
                from <= j < at ==> !#[trigger] occurs_at(s, part, j),
            None => forall|j: int| from <= j ==> !#[trigger] occurs_at(s, part, j),
        },
    decreases s.len() + 1 - from,
{
    if from + part.len() <= s.len() && !occurs_at(s, part, from) {
        find_text_is_first(s, part, from + 1);
    }
}

fn part_at(chars: &[char], part: &[char], at: usize) -> (r: bool)
    requires
        at + part@.len() <= chars@.len(),
    ensures
        r == occurs_at(chars@, part@, at as int),
{
    let end: usize = chars.len();
    let mut i: usize = 0;
    while i < part.len()
        invariant
            i <= part@.len(),
            end == chars@.len(),
            at + part@.len() <= end,
            forall|j: int| 0 <= j < i ==> chars@[at + j] == part@[j],
        decreases part@.len() - i,
    {
        if chars[at + i] != part[i] {
            assert(chars@.subrange(at as int, at + part@.len())[i as int] != part@[i as int]);
            return false;
        }
        i = i + 1;
    }
    assert(chars@.subrange(at as int, at + part@.len()) =~= part@);
    true
}

/// The first place from `from` on at which a text occurs in another.
pub fn find_part(chars: &[char], part: &[char], from: usize) -> (r: Option<usize>)
    ensures
        match r {
            Some(at) => find_text(chars@, part@, from as int) == Some(at as int) && from <= at && at
                + part@.len() <= chars@.len(),
            None => find_text(chars@, part@, from as int) is None,
        },
{
    let end: usize = chars.len();
    let len: usize = part.len();
    if len > end {
        return None;
    }
    let last: usize = end - len;
    let mut at: usize = from;
    while at <= last
        invariant
            end == chars@.len(),
            len == part@.len(),
            last == end - len,
            from <= at,
            find_text(chars@, part@, from as int) == find_text(chars@, part@, at as int),
        decreases last + 1 - at,
    {
        if part_at(chars, part, at) {
            return Some(at);
        }
        if at == usize::MAX {
            return None;
        }
        at = at + 1;
    }
    None
}

/// The text with the first occurrence of a part replaced.
pub open spec fn replaced_first(s: Seq<char>, part: Seq<char>, with: Seq<char>) -> Seq<char> {
    match find_text(s, part, 0) {
        Some(at) => s.take(at) + with + s.skip(at + part.len()),
        None => s,
    }
}

pub fn replace_first(s: &str, part: &str, with: &str) -> (r: String)
    ensures
        r@ == replaced_first(s@, part@, with@),
{
    let chars = to_chars(s);
    let wanted = to_chars(part);
    let end: usize = chars.len();
    match find_part(&chars, &wanted, 0) {
        Some(at) => {
            let head = from_chars(&chars, 0, at);
            let tail = from_chars(&chars, at + wanted.len(), end);
            assert(s@.subrange(0, at as int) =~= s@.take(at as int));
            assert(s@.subrange(at + part@.len(), s@.len() as int) =~= s@.skip(at + part@.len()));
            join3(head.as_str(), with, tail.as_str())
        },
        None => s.to_owned(),
    }
}

/// The text from `from` on, with every occurrence of a part replaced, left to right
/// and without overlap.
pub open spec fn replaced_from(
    s: Seq<char>,
    part: Seq<char>,
    with: Seq<char>,
    from: int,
) -> Seq<char>
    decreases s.len() - from,
{
    if part.len() == 0 || from < 0 {
        s
    } else {
        match find_text(s, part, from) {
            Some(at) => if from <= at && at + part.len() <= s.len() {
                s.subrange(from, at) + with + replaced_from(s, part, with, at + part.len())
            } else {
                s
            },
            None => s.skip(from),
        }
    }
}

/// A text put before each character of another, and after its last.
pub open spec fn interleaved(s: Seq<char>, with: Seq<char>) -> Seq<char>
    decreases s.len(),
{
    if s.len() == 0 {
        with
    } else {
        interleaved(s.drop_last(), with).push(s.last()) + with
    }
}

/// The text with every occurrence of a part replaced, left to right and without
/// overlap. An empty part occurs around every character.
pub open spec fn replaced(s: Seq<char>, part: Seq<char>, with: Seq<char>) -> Seq<char> {
    if part.len() == 0 {
        interleaved(s, with)
    } else {
        replaced_from(s, part, with, 0)
    }
}

pub fn replace(s: &str, part: &str, with: &str) -> (r: String)
    ensures
        r@ == replaced(s@, part@, with@),
{
    let chars = to_chars(s);
    let wanted = to_chars(part);
    if wanted.is_empty() {
        let mut out = with.to_owned();
        let mut i: usize = 0;
        while i < chars.len()
            invariant
                i <= chars@.len(),
                out@ == interleaved(chars@.take(i as int), with@),
            decreases chars@.len() - i,
        {
            assert(chars@.take(i + 1).drop_last() =~= chars@.take(i as int));
            out.push(chars[i]);
            out = out.concat(with);
            i = i + 1;
        }
        assert(chars@.take(i as int) =~= s@);
        return out;
    }
    let end: usize = chars.len();
    let mut out = String::new();
    let mut from: usize = 0;
    assert(out@ + replaced_from(s@, part@, with@, 0) =~= replaced_from(s@, part@, with@, 0));
    loop
        invariant
            chars@ == s@,
            wanted@ == part@,
            part@.len() > 0,
            end == s@.len(),
            from <= end,
            out@ + replaced_from(s@, part@, with@, from as int) == replaced(s@, part@, with@),
        decreases s@.len() - from,
    {
        match find_part(&chars, &wanted, from) {
            Some(at) => {
                let head = from_chars(&chars, from, at);
                let ghost before = out@;
                let ghost rest = replaced_from(s@, part@, with@, at + part@.len());
                out = out.concat(head.as_str()).concat(with);
                assert(out@ + rest =~= before + (s@.subrange(from as int, at as int) + with@ + rest));
                from = at + wanted.len();
            },
            None => {
                let tail = from_chars(&chars, from, end);
                assert(s@.subrange(from as int, s@.len() as int) =~= s@.skip(from as int));
                return out.concat(tail.as_str());
            },
        }
    }
}

} // verus!
