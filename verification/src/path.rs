//! Where the daemon may open a response FIFO: inside `/tmp`, with no `..`
//! component that could lead back out of it.

use vstd::prelude::*;
use crate::text::str_starts_with;

verus! {

/// The prefix every response FIFO path starts with.
pub open spec fn tmp_dir() -> Seq<char> {
    "/tmp/"@
}

/// A `..` component starts at position `i` of path `p`: two dots with a `/`
/// (or the start) before them and a `/` (or the end) after them.
pub open spec fn parent_component_at(p: Seq<char>, i: int) -> bool {
    &&& 0 <= i
    &&& i + 2 <= p.len()
    &&& p[i] == '.'
    &&& p[i + 1] == '.'
    &&& (i == 0 || p[i - 1] == '/')
    &&& (i + 2 == p.len() || p[i + 2] == '/')
}

/// Whether the path has a `..` component anywhere.
pub open spec fn has_parent_component(p: Seq<char>) -> bool {
    exists|i: int| parent_component_at(p, i)
}

/// A path lies inside `/tmp` when it starts with `/tmp/` and no `..`
/// component leads back out of it.
pub open spec fn inside_tmp_spec(p: Seq<char>) -> bool {
    tmp_dir().is_prefix_of(p) && !has_parent_component(p)
}

/// A path without any `.` has no `..` component.
pub proof fn lemma_no_dot_no_parent(p: Seq<char>)
    requires
        forall|k: int| 0 <= k < p.len() ==> p[k] != '.',
    ensures
        !has_parent_component(p),
{
    assert forall|i: int| !parent_component_at(p, i) by {
        if 0 <= i < p.len() {
            assert(p[i] != '.');
        }
    }
}

/// The characters of a string, one by one.
fn chars_of(s: &str) -> (v: Vec<char>)
    ensures
        v@ == s@,
{
    broadcast use vstd::string::axiom_spec_iter;
    let mut v: Vec<char> = Vec::new();
    for c in it: s.chars()
        invariant
            it.seq() == s@,
            v@ == s@.take(it.index() as int),
    {
        v.push(c);
    }
    v
}

/// Decides whether a path has a `..` component.
pub fn has_parent_component_exec(path: &str) -> (r: bool)
    ensures
        r == has_parent_component(path@),
{
    let v = chars_of(path);
    let n = v.len();
    let mut i: usize = 0;
    while i < n
        invariant
            v@ == path@,
            n == v@.len(),
            i <= n,
            forall|j: int| 0 <= j < i ==> !parent_component_at(path@, j),
        decreases n - i,
    {
        if i + 1 < n && v[i] == '.' && v[i + 1] == '.' && (i == 0 || v[i - 1] == '/') && (i + 2
            == n || v[i + 2] == '/') {
            assert(parent_component_at(path@, i as int));
            return true;
        }
        assert(!parent_component_at(path@, i as int));
        i = i + 1;
    }
    assert forall|j: int| !parent_component_at(path@, j) by {
        if 0 <= j < n {
        }
    }
    false
}

/// Decides whether a path lies inside `/tmp`.
pub fn inside_tmp(path: &str) -> (ok: bool)
    ensures
        ok == inside_tmp_spec(path@),
{
    str_starts_with(path, "/tmp/") && !has_parent_component_exec(path)
}

} // verus!
