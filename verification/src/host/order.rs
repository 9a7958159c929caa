//! Orders: texts by their characters, rows by a number and then a text.

use vstd::prelude::*;
use vstd::seq_lib::{to_multiset_build, to_multiset_remove};

use crate::text::to_chars;

verus! {

/// A text comes before another: at the first difference it has the smaller character,
/// or it ends there. (UTF-8 keeps this order, so it is that of the bytes, too.)
pub open spec fn text_less(a: Seq<char>, b: Seq<char>) -> bool
    decreases a.len(),
{
    if b.len() == 0 {
        false
    } else if a.len() == 0 {
        true
    } else if a[0] != b[0] {
        a[0] < b[0]
    } else {
        text_less(a.drop_first(), b.drop_first())
    }
}

pub fn text_before(a: &str, b: &str) -> (r: bool)
    ensures
        r == text_less(a@, b@),
{
    let left = to_chars(a);
    let right = to_chars(b);
    let mut i: usize = 0;
    assert(left@.skip(0) =~= left@);
    assert(right@.skip(0) =~= right@);
    while i < left.len() && i < right.len()
        invariant
            left@ == a@,
            right@ == b@,
            i <= left@.len(),
            i <= right@.len(),
            text_less(a@, b@) == text_less(left@.skip(i as int), right@.skip(i as int)),
        decreases left@.len() - i,
    {
        let ghost x = left@.skip(i as int);
        let ghost y = right@.skip(i as int);
        assert(x[0] == left@[i as int]);
        assert(y[0] == right@[i as int]);
        if left[i] != right[i] {
            return left[i] < right[i];
        }
        assert(x.drop_first() =~= left@.skip(i + 1));
        assert(y.drop_first() =~= right@.skip(i + 1));
        i = i + 1;
    }
    left.len() == i && i < right.len()
}

/// The order of texts is a strict total one.
pub proof fn text_order(a: Seq<char>, b: Seq<char>, c: Seq<char>)
    ensures
        !text_less(a, a),
        text_less(a, b) && text_less(b, c) ==> text_less(a, c),
        text_less(a, b) || text_less(b, a) || a == b,
    decreases a.len(),
{
    if a.len() > 0 {
        let rest = a.drop_first();
        if b.len() > 0 && c.len() > 0 {
            text_order(rest, b.drop_first(), c.drop_first());
        } else if b.len() > 0 {
            text_order(rest, b.drop_first(), c);
        } else {
            text_order(rest, rest, rest);
        }
        if b.len() > 0 && a[0] == b[0] && rest == b.drop_first() {
            assert(a =~= seq![a[0]] + rest);
            assert(b =~= seq![b[0]] + b.drop_first());
        }
    } else if b.len() == 0 {
        assert(a =~= b);
    }
}

/// Rows that can be put in order.
pub trait Ordered: Sized {
    /// The row comes before another.
    spec fn less(self, other: Self) -> bool;

    proof fn less_is_an_order(a: Self, b: Self, c: Self)
        ensures
            a.less(b) && b.less(c) ==> a.less(c),
            !(a.less(b) && b.less(a)),
    ;

    fn is_before(&self, other: &Self) -> (r: bool)
        ensures
            r == self.less(*other),
    ;
}

/// Rows in the order of a number, and then of a text.
impl<T> Ordered for (i64, String, T) {
    open spec fn less(self, other: Self) -> bool {
        self.0 < other.0 || (self.0 == other.0 && text_less(self.1@, other.1@))
    }

    proof fn less_is_an_order(a: Self, b: Self, c: Self) {
        text_order(a.1@, b.1@, c.1@);
        text_order(a.1@, b.1@, a.1@);
    }

    fn is_before(&self, other: &Self) -> (r: bool) {
        self.0 < other.0 || (self.0 == other.0 && text_before(self.1.as_str(), other.1.as_str()))
    }
}

/// Rows in the order of a text.
impl<T> Ordered for (String, T) {
    open spec fn less(self, other: Self) -> bool {
        text_less(self.0@, other.0@)
    }

    proof fn less_is_an_order(a: Self, b: Self, c: Self) {
        text_order(a.0@, b.0@, c.0@);
        text_order(a.0@, b.0@, a.0@);
    }

    fn is_before(&self, other: &Self) -> (r: bool) {
        text_before(self.0.as_str(), other.0.as_str())
    }
}

/// No row comes before an earlier one.
pub open spec fn rows_in_order<R: Ordered>(rows: Seq<R>) -> bool {
    forall|i: int, j: int| 0 <= i < j < rows.len() ==> !(#[trigger] rows[j]).less(#[trigger] rows[i])
}

/// The rows in order.
pub fn sort_rows<R: Ordered>(rows: Vec<R>) -> (r: Vec<R>)
    ensures
        rows_in_order(r@),
        r@.to_multiset() == rows@.to_multiset(),
        r@.len() == rows@.len(),
{
    let mut rest = rows;
    let mut out: Vec<R> = Vec::new();
    assert(out@.to_multiset().add(rest@.to_multiset()) =~= rows@.to_multiset()) by {
        assert(out@ =~= Seq::empty());
        Seq::<R>::empty().to_multiset_ensures();
    }
    while rest.len() > 0
        invariant
            rows_in_order(out@),
            out@.to_multiset().add(rest@.to_multiset()) == rows@.to_multiset(),
            out@.len() + rest@.len() == rows@.len(),
        decreases rest@.len(),
    {
        let ghost waiting = rest@;
        let ghost before = out@;
        match rest.pop() {
            None => {},
            Some(row) => {
                let mut at: usize = 0;
                while at < out.len() && !row.is_before(&out[at])
                    invariant
                        out@ == before,
                        at <= out@.len(),
                        forall|j: int| 0 <= j < at ==> !row.less(#[trigger] out@[j]),
                    decreases out@.len() - at,
                {
                    at = at + 1;
                }
                proof {
                    assert forall|j: int| at <= j < before.len() implies !(
                    #[trigger] before[j]).less(row) by {
                        R::less_is_an_order(before[j], row, before[at as int]);
                        if j > at {
                            assert(!before[j].less(before[at as int]));
                        }
                    }
                }
                out.insert(at, row);
                proof {
                    let all = before.insert(at as int, row);
                    assert forall|i: int, j: int| 0 <= i < j < all.len() implies !(
                    #[trigger] all[j]).less(#[trigger] all[i]) by {
                        let x = if i < at {
                            i
                        } else {
                            i - 1
                        };
                        let y = if j < at {
                            j
                        } else {
                            j - 1
                        };
                        if i == at {
                            assert(all[j] == before[j - 1]);
                        } else if j == at {
                            assert(all[i] == before[i]);
                        } else {
                            assert(all[i] == before[x] && all[j] == before[y]);
                        }
                    }
                    assert(all.remove(at as int) =~= before);
                    to_multiset_remove(all, at as int);
                    all.to_multiset_ensures();
                    assert(all[at as int] == row);
                    assert(all.contains(row));
                    assert(all.to_multiset() =~= before.to_multiset().insert(row));
                    assert(waiting =~= rest@.push(row));
                    to_multiset_build(rest@, row);
                    assert(out@.to_multiset().add(rest@.to_multiset())
                        =~= before.to_multiset().add(waiting.to_multiset()));
                }
            },
        }
    }
    proof {
        assert(rest@ =~= Seq::empty());
        Seq::<R>::empty().to_multiset_ensures();
        assert(out@.to_multiset() =~= rows@.to_multiset());
    }
    out
}

} // verus!
