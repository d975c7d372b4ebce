//! Path text and how a component is adjoined to it.
//!
//! Paths are held as their text, with `/` as the separator, and joined by the
//! rule that `std::path::Path::join` follows on Unix.

use vstd::prelude::*;

verus! {

/// The path separator.
pub open spec fn sep() -> char {
    '/'
}

/// A path is absolute when it starts at the root.
pub open spec fn is_absolute(p: Seq<char>) -> bool {
    p.len() > 0 && p[0] == sep()
}

/// The text of `base` with `component` adjoined: an absolute component replaces
/// the base; otherwise a separator is put between the two unless the base is
/// empty or already ends in one.
pub open spec fn joined(base: Seq<char>, component: Seq<char>) -> Seq<char> {
    if is_absolute(component) {
        component
    } else if base.len() == 0 || base.last() == sep() {
        base + component
    } else {
        base + seq![sep()] + component
    }
}

/// `base` with `component` adjoined, as `Path::join` does it on Unix.
pub fn join_path(base: &str, component: &str) -> (r: String)
    ensures
        r@ == joined(base@, component@),
{
    let comp_len = component.unicode_len();
    if comp_len > 0 && component.get_char(0) == '/' {
        return String::from_str(component);
    }
    let base_len = base.unicode_len();
    let mut r = String::from_str(base);
    if base_len > 0 && base.get_char(base_len - 1) != '/' {
        let s = "/";
        proof {
            reveal_strlit("/");
        }
        r.append(s);
    }
    r.append(component);
    r
}

/// Adjoining a relative component keeps the base as the start of the path.
pub proof fn lemma_join_extends(base: Seq<char>, component: Seq<char>)
    requires
        !is_absolute(component),
    ensures
        base.is_prefix_of(joined(base, component)),
{
    assert(joined(base, component).subrange(0, base.len() as int) =~= base);
}

} // verus!
