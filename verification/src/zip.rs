//! Pairing two sequences up to the end of the longer one.
use vstd::prelude::*;

verus! {

/// The pairs of the items of `a` and `b` by position, up to the end of the
/// longer one; a missing item is `None`.
pub open spec fn zip_longest_seq<T, U>(a: Seq<T>, b: Seq<U>) -> Seq<(Option<T>, Option<U>)> {
    Seq::new(
        if a.len() >= b.len() { a.len() } else { b.len() },
        |i: int|
            (
                if i < a.len() { Some(a[i]) } else { None },
                if i < b.len() { Some(b[i]) } else { None },
            ),
    )
}

/// Pairing up to the end of the longer of two sequences.
pub trait ZipLongest<T>: Sized {
    spec fn items(&self) -> Seq<T>;

    fn zip_longest<U>(self, other: Vec<U>) -> (r: Vec<(Option<T>, Option<U>)>)
        ensures
            r@ == zip_longest_seq(self.items(), other@),
    ;
}

/// The part of `s` from position `k` on (empty where `k` is past the end).
pub open spec fn rest<T>(s: Seq<T>, k: int) -> Seq<T> {
    if k <= s.len() { s.subrange(k, s.len() as int) } else { Seq::empty() }
}

impl<T> ZipLongest<T> for Vec<T> {
    open spec fn items(&self) -> Seq<T> {
        self@
    }

    fn zip_longest<U>(self, other: Vec<U>) -> (r: Vec<(Option<T>, Option<U>)>) {
        let ghost a = self@;
        let ghost b = other@;
        let mut xs = self;
        let mut ys = other;
        let mut r: Vec<(Option<T>, Option<U>)> = Vec::new();
        assert(rest(a, 0) =~= a);
        assert(rest(b, 0) =~= b);
        while xs.len() > 0 || ys.len() > 0
            invariant
                xs@ == rest(a, r@.len() as int),
                ys@ == rest(b, r@.len() as int),
                r@.len() <= a.len() || r@.len() <= b.len(),
                forall|i: int| 0 <= i < r@.len() ==> #[trigger] r@[i] == zip_longest_seq(a, b)[i],
            decreases xs@.len() + ys@.len(),
        {
            let ghost k = r@.len() as int;
            let x = if xs.len() > 0 {
                Some(xs.remove(0))
            } else {
                None
            };
            let y = if ys.len() > 0 {
                Some(ys.remove(0))
            } else {
                None
            };
            r.push((x, y));
            assert(xs@ =~= rest(a, k + 1));
            assert(ys@ =~= rest(b, k + 1));
            assert(r@[k] == zip_longest_seq(a, b)[k]);
        }
        assert(r@ =~= zip_longest_seq(a, b));
        r
    }
}

} // verus!
