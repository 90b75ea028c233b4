//! Text helpers shared by the filter, the registry and the pipeline: equality
//! of string slices and the split of an entity identifier into kind and name.

use vstd::prelude::*;
use vstd::std_specs::iter::IteratorSpec;
use vstd::string::*;

verus! {

/// `i` is the position of the first `.` in `s`.
pub open spec fn is_first_dot(s: Seq<char>, i: int) -> bool {
    &&& 0 <= i < s.len()
    &&& s[i] == '.'
    &&& forall|j: int| 0 <= j < i ==> s[j] != '.'
}

/// The kind and the name of an identifier `"<kind>.<name>"`: what stands
/// before and after its first `.`; `None` where it holds no `.`.
pub open spec fn split_id(s: Seq<char>) -> Option<(Seq<char>, Seq<char>)> {
    if exists|i: int| is_first_dot(s, i) {
        let i = choose|i: int| is_first_dot(s, i);
        Some((s.take(i), s.skip(i + 1)))
    } else {
        None
    }
}

/// The first `.` of a text is unique.
pub proof fn lemma_first_dot_unique(s: Seq<char>, i: int, j: int)
    requires
        is_first_dot(s, i),
        is_first_dot(s, j),
    ensures
        i == j,
{
    if i < j {
        assert(s[i] != '.');
    } else if j < i {
        assert(s[j] != '.');
    }
}

/// Whether two string slices hold the same characters, decided on their
/// UTF-8 bytes.
pub fn same_text(a: &str, b: &str) -> (r: bool)
    ensures
        r == (a@ == b@),
{
    let x = a.as_bytes();
    let y = b.as_bytes();
    proof {
        vstd::utf8::encode_utf8_decode_utf8(a@);
        vstd::utf8::encode_utf8_decode_utf8(b@);
    }
    if x.len() != y.len() {
        return false;
    }
    let mut i: usize = 0;
    while i < x.len()
        invariant
            x@ == a.spec_bytes(),
            y@ == b.spec_bytes(),
            x@.len() == y@.len(),
            i <= x@.len(),
            forall|j: int| 0 <= j < i ==> x@[j] == y@[j],
        decreases x.len() - i,
    {
        if x[i] != y[i] {
            return false;
        }
        i += 1;
    }
    proof {
        assert(x@ =~= y@);
    }
    true
}

/// Splits an entity identifier on its first `.` into kind and name.
pub fn split_entity_id<'a>(id: &'a str) -> (r: Option<(&'a str, &'a str)>)
    ensures
        match r {
            Some((kind, name)) => split_id(id@) == Some((kind@, name@)),
            None => split_id(id@) is None,
        },
{
    broadcast use vstd::string::group_string_axioms;

    let total: usize = id.unicode_len();
    let mut rest = id.chars();
    let mut i: usize = 0;
    loop
        invariant
            total == id@.len(),
            i <= total,
            rest.remaining() == id@.skip(i as int),
            forall|j: int| 0 <= j < i ==> id@[j] != '.',
        decreases total - i,
    {
        let ghost before = rest;
        match rest.next() {
            None => {
                proof {
                    assert(before.remaining().len() == 0);
                    assert(i == total);
                    assert forall|k: int| !is_first_dot(id@, k) by {
                        if 0 <= k < id@.len() {
                            assert(id@[k] != '.');
                        }
                    }
                }
                return None;
            },
            Some(c) => {
                proof {
                    assert(before.remaining().len() > 0);
                    assert(c == id@.skip(i as int)[0]);
                    assert(rest.remaining() =~= id@.skip(i as int + 1));
                }
                if c == '.' {
                    proof {
                        assert(is_first_dot(id@, i as int));
                        let k = choose|k: int| is_first_dot(id@, k);
                        lemma_first_dot_unique(id@, k, i as int);
                    }
                    let kind = id.substring_char(0, i);
                    let name = id.substring_char(i + 1, total);
                    return Some((kind, name));
                }
                i += 1;
            },
        }
    }
}

} // verus!
