//! Extension routing: which source files are eligible, and what they become.
use vstd::prelude::*;
use crate::text::{eq_ci, eq_ci_at};

verus! {

/// The output format that an eligible source file is converted to.
#[derive(Clone, Copy, Debug, PartialEq, Eq, Structural)]
pub enum TargetFormat {
    Flac,
    Ogg,
}

impl TargetFormat {
    /// The file extension of the format, without the dot.
    pub open spec fn spec_extension(self) -> Seq<char> {
        match self {
            TargetFormat::Flac => seq!['f', 'l', 'a', 'c'],
            TargetFormat::Ogg => seq!['o', 'g', 'g'],
        }
    }

    pub fn extension(&self) -> (r: &'static str)
        ensures
            r@ == self.spec_extension(),
    {
        proof {
            reveal_strlit("flac");
            reveal_strlit("ogg");
        }
        match self {
            TargetFormat::Flac => "flac",
            TargetFormat::Ogg => "ogg",
        }
    }
}

pub open spec fn mflac() -> Seq<char> {
    seq!['m', 'f', 'l', 'a', 'c']
}

pub open spec fn mgg() -> Seq<char> {
    seq!['m', 'g', 'g']
}

/// The fixed mapping table, looked up without regard to ASCII case.
pub open spec fn route_of_extension(ext: Seq<char>) -> Option<TargetFormat> {
    if eq_ci(ext, mflac()) {
        Some(TargetFormat::Flac)
    } else if eq_ci(ext, mgg()) {
        Some(TargetFormat::Ogg)
    } else {
        None
    }
}

/// Index of the last `c` in `s`, or -1.
pub open spec fn last_index_of(s: Seq<char>, c: char) -> int
    decreases s.len(),
{
    if s.len() == 0 {
        -1
    } else if s.last() == c {
        s.len() - 1
    } else {
        last_index_of(s.drop_last(), c)
    }
}

/// Index of the dot that separates stem and extension of a file name, if any:
/// the last dot, unless it is the first character.
pub open spec fn ext_dot(name: Seq<char>) -> Option<int> {
    let i = last_index_of(name, '.');
    if i > 0 {
        Some(i)
    } else {
        None
    }
}

/// The extension of a file name: what follows its last dot.
pub open spec fn extension_of(name: Seq<char>) -> Option<Seq<char>> {
    match ext_dot(name) {
        Some(i) => Some(name.subrange(i + 1, name.len() as int)),
        None => None,
    }
}

/// The stem of a file name: the name without its extension and dot.
pub open spec fn stem_of(name: Seq<char>) -> Seq<char> {
    match ext_dot(name) {
        Some(i) => name.subrange(0, i),
        None => name,
    }
}

/// Route of a file name: ineligible (`None`) without an extension or with an
/// unmapped one.
pub open spec fn spec_route(name: Seq<char>) -> Option<TargetFormat> {
    match extension_of(name) {
        Some(ext) => route_of_extension(ext),
        None => None,
    }
}

proof fn lemma_last_index_bounds(s: Seq<char>, c: char)
    ensures
        -1 <= last_index_of(s, c) < s.len(),
        last_index_of(s, c) >= 0 ==> s[last_index_of(s, c)] == c,
        forall|j: int| last_index_of(s, c) < j < s.len() ==> s[j] != c,
    decreases s.len(),
{
    if s.len() > 0 && s.last() != c {
        lemma_last_index_bounds(s.drop_last(), c);
        assert forall|j: int| last_index_of(s, c) < j < s.len() implies s[j] != c by {
            if j < s.len() - 1 {
                assert(s[j] == s.drop_last()[j]);
            }
        }
    }
}

/// Position of the separating dot of `name`, or `None`.
fn find_ext_dot(name: &str) -> (r: Option<usize>)
    ensures
        match r {
            Some(i) => ext_dot(name@) == Some(i as int),
            None => ext_dot(name@) is None,
        },
{
    proof {
        lemma_last_index_bounds(name@, '.');
    }
    let n = name.unicode_len();
    let mut i: usize = n;
    while i > 0
        invariant
            n == name@.len(),
            i <= n,
            forall|j: int| i <= j < n ==> name@[j] != '.',
        decreases i,
    {
        if name.get_char(i - 1) == '.' {
            proof {
                lemma_last_index_bounds(name@, '.');
                let k = last_index_of(name@, '.');
                if k != i - 1 {
                    assert(name@[i - 1] == '.');
                    assert(k >= i - 1);
                }
            }
            if i - 1 > 0 {
                return Some(i - 1);
            } else {
                return None;
            }
        }
        i = i - 1;
    }
    proof {
        let k = last_index_of(name@, '.');
        if k >= 0 {
            assert(name@[k] == '.');
        }
    }
    None
}

/// The extension of a file name, if it has one.
pub fn extension(name: &str) -> (r: Option<&str>)
    ensures
        match r {
            Some(e) => extension_of(name@) == Some(e@),
            None => extension_of(name@) is None,
        },
{
    match find_ext_dot(name) {
        Some(i) => {
            proof {
                lemma_last_index_bounds(name@, '.');
            }
            let n = name.unicode_len();
            Some(name.substring_char(i + 1, n))
        },
        None => None,
    }
}

/// The stem of a file name.
pub fn stem(name: &str) -> (r: &str)
    ensures
        r@ == stem_of(name@),
{
    match find_ext_dot(name) {
        Some(i) => {
            proof {
                lemma_last_index_bounds(name@, '.');
            }
            name.substring_char(0, i)
        },
        None => {
            let n = name.unicode_len();
            proof {
                assert(name@.subrange(0, n as int) == name@);
            }
            name.substring_char(0, n)
        },
    }
}

/// Looks an extension up in the mapping table, ignoring ASCII case.
pub fn route_extension(ext: &str) -> (r: Option<TargetFormat>)
    ensures
        r == route_of_extension(ext@),
{
    proof {
        reveal_strlit("mflac");
        reveal_strlit("mgg");
    }
    let n = ext.unicode_len();
    if n == 5 && eq_ci_at(ext, 0, "mflac") {
        proof {
            assert(ext@.subrange(0, 5) == ext@);
        }
        Some(TargetFormat::Flac)
    } else if n == 3 && eq_ci_at(ext, 0, "mgg") {
        proof {
            assert(ext@.subrange(0, 3) == ext@);
        }
        Some(TargetFormat::Ogg)
    } else {
        proof {
            if n == 5 {
                assert(ext@.subrange(0, 5) == ext@);
            }
            if n == 3 {
                assert(ext@.subrange(0, 3) == ext@);
            }
        }
        None
    }
}

/// Routes a file name (the last component of a path) to its output format;
/// `None` marks it ineligible.
pub fn route(name: &str) -> (r: Option<TargetFormat>)
    ensures
        r == spec_route(name@),
{
    match extension(name) {
        Some(e) => route_extension(e),
        None => None,
    }
}

proof fn lemma_last_index_skips(p: Seq<char>, q: Seq<char>, c: char)
    requires
        !q.contains(c),
    ensures
        last_index_of(p + q, c) == last_index_of(p, c),
    decreases q.len(),
{
    if q.len() > 0 {
        assert((p + q).last() == q.last());
        assert((p + q).drop_last() == p + q.drop_last());
        assert(!q.drop_last().contains(c)) by {
            if q.drop_last().contains(c) {
                let i = choose|i: int| 0 <= i < q.drop_last().len() && q.drop_last()[i] == c;
                assert(q[i] == c);
            }
        }
        lemma_last_index_skips(p, q.drop_last(), c);
    } else {
        assert(p + q == p);
    }
}

/// A file name with a non-empty stem and the dot-free extension `ext` routes
/// as `ext` does: to FLAC for `mflac`, to Ogg for `mgg` (in any ASCII case),
/// and to nothing for any other extension.
pub proof fn lemma_route_by_extension(stem: Seq<char>, ext: Seq<char>)
    requires
        stem.len() > 0,
        !ext.contains('.'),
    ensures
        spec_route(stem + seq!['.'] + ext) == route_of_extension(ext),
        (route_of_extension(ext) == Some(TargetFormat::Flac)) == eq_ci(ext, mflac()),
        (route_of_extension(ext) == Some(TargetFormat::Ogg)) == eq_ci(ext, mgg()),
        route_of_extension(ext) is None == (!eq_ci(ext, mflac()) && !eq_ci(ext, mgg())),
{
    let p = stem + seq!['.'];
    let name = p + ext;
    lemma_last_index_skips(p, ext, '.');
    assert(p.last() == '.');
    assert(last_index_of(p, '.') == stem.len() as int);
    assert(name.subrange(stem.len() + 1 as int, name.len() as int) =~= ext);
    if eq_ci(ext, mflac()) {
        assert(!eq_ci(ext, mgg()));
    }
}

} // verus!
