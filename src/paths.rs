//! Placing a file name in a directory.
use vstd::prelude::*;

verus! {

/// Path conventions of the host: which characters separate components, and
/// which one is written when joining.
#[derive(Clone, Copy, Debug, PartialEq, Eq, Structural)]
pub enum PathStyle {
    /// `/` only.
    Unix,
    /// `\` is written; `/` is accepted as well.
    Windows,
}

impl PathStyle {
    pub open spec fn spec_separator(self) -> char {
        match self {
            PathStyle::Unix => '/',
            PathStyle::Windows => '\\',
        }
    }

    pub open spec fn is_separator(self, c: char) -> bool {
        c == '/' || c == self.spec_separator()
    }

    pub fn separator(&self) -> (r: &'static str)
        ensures
            r@ == seq![self.spec_separator()],
    {
        proof {
            reveal_strlit("/");
            reveal_strlit("\\");
        }
        match self {
            PathStyle::Unix => "/",
            PathStyle::Windows => "\\",
        }
    }
}

/// `name` placed in `dir`: a separator is added unless `dir` is empty or
/// already ends with one.
pub open spec fn join_path(dir: Seq<char>, name: Seq<char>, style: PathStyle) -> Seq<char> {
    if dir.len() == 0 || style.is_separator(dir.last()) {
        dir + name
    } else {
        dir + seq![style.spec_separator()] + name
    }
}

/// The path of `name` inside directory `dir`.
pub fn join(dir: &str, name: &str, style: PathStyle) -> (r: String)
    ensures
        r@ == join_path(dir@, name@, style),
{
    let n = dir.unicode_len();
    if n == 0 || dir.get_char(n - 1) == '/' || (style == PathStyle::Windows && dir.get_char(n - 1)
        == '\\') {
        dir.to_owned().concat(name)
    } else {
        dir.to_owned().concat(style.separator()).concat(name)
    }
}

} // verus!
