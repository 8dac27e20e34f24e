use vstd::prelude::*;

verus! {

/// ASCII case folding of one character, as a code point.
pub open spec fn fold(c: char) -> u32 {
    if 'A' <= c && c <= 'Z' {
        ((c as u32) + 32) as u32
    } else {
        c as u32
    }
}

/// Equality of two character sequences up to ASCII case.
pub open spec fn eq_ci(a: Seq<char>, b: Seq<char>) -> bool {
    &&& a.len() == b.len()
    &&& forall|i: int| 0 <= i < a.len() ==> fold(#[trigger] a[i]) == fold(b[i])
}

pub fn fold_char(c: char) -> (r: u32)
    ensures
        r == fold(c),
{
    if 'A' <= c && c <= 'Z' {
        (c as u32) + 32
    } else {
        c as u32
    }
}

/// Compares `a[start..start + b.len()]` with `b` up to ASCII case.
pub fn eq_ci_at(a: &str, start: usize, b: &str) -> (r: bool)
    requires
        start + b@.len() <= a@.len(),
    ensures
        r == eq_ci(a@.subrange(start as int, start + b@.len()), b@),
{
    let m = a.unicode_len();
    let n = b.unicode_len();
    let mut k: usize = 0;
    while k < n
        invariant
            n == b@.len(),
            m == a@.len(),
            start + n <= a@.len(),
            0 <= k <= n,
            forall|j: int| 0 <= j < k ==> fold(a@[start + j]) == fold(b@[j]),
        decreases n - k,
    {
        if fold_char(a.get_char(start + k)) != fold_char(b.get_char(k)) {
            assert(a@.subrange(start as int, start + n)[k as int] == a@[start + k]);
            return false;
        }
        k = k + 1;
    }
    assert forall|i: int| 0 <= i < n implies fold(
        #[trigger] a@.subrange(start as int, start + n)[i],
    ) == fold(b@[i]) by {
        assert(a@.subrange(start as int, start + n)[i] == a@[start + i]);
    }
    true
}

} // verus!
