//! Metadata tests over a declaration's attached annotations: visibility,
//! documentation presence, and the deprecation heuristic.

use vstd::prelude::*;
use crate::decl::{Annotation, Visibility};

verus! {

/// ASCII case folding of one character; characters outside `A..=Z` are kept.
pub open spec fn lower_char(c: char) -> char {
    if 65 <= c as u32 && c as u32 <= 90 {
        ((c as u32 + 32) as u8) as char
    } else {
        c
    }
}

/// Folds one character to lower case, ASCII letters only.
pub fn to_lower_char(c: char) -> (r: char)
    ensures
        r == lower_char(c),
{
    let u = c as u32;
    if 65 <= u && u <= 90 {
        ((u + 32) as u8) as char
    } else {
        c
    }
}

/// The deprecation keyword, case-folded, occurs in `h` starting at index `i`.
pub open spec fn deprecated_at(h: Seq<char>, i: int) -> bool {
    &&& 0 <= i
    &&& i + "deprecated"@.len() <= h.len()
    &&& forall|j: int|
        0 <= j < "deprecated"@.len() ==> lower_char(h[i + j]) == "deprecated"@[j]
}

/// `h` contains the deprecation keyword, compared without regard to ASCII case.
pub open spec fn text_marks_deprecated(h: Seq<char>) -> bool {
    exists|i: int| deprecated_at(h, i)
}

/// The character of the deprecation keyword at index `j`.
fn needle_char(j: usize) -> (c: char)
    requires
        j < "deprecated"@.len(),
    ensures
        c == "deprecated"@[j as int],
{
    proof {
        reveal_strlit("deprecated");
    }
    if j == 0 {
        'd'
    } else if j == 1 {
        'e'
    } else if j == 2 {
        'p'
    } else if j == 3 {
        'r'
    } else if j == 4 {
        'e'
    } else if j == 5 {
        'c'
    } else if j == 6 {
        'a'
    } else if j == 7 {
        't'
    } else if j == 8 {
        'e'
    } else {
        'd'
    }
}

/// The ten characters of `s` starting at `i` spell the deprecation keyword,
/// compared without regard to ASCII case.
fn window_matches(s: &str, i: usize) -> (r: bool)
    requires
        i + 10 <= s@.len(),
        s@.len() <= usize::MAX,
    ensures
        r == deprecated_at(s@, i as int),
{
    proof {
        reveal_strlit("deprecated");
    }
    let mut j: usize = 0;
    while j < 10
        invariant
            j <= 10,
            i + 10 <= s@.len() <= usize::MAX,
            "deprecated"@.len() == 10,
            forall|jj: int|
                0 <= jj < j ==> lower_char(s@[i + jj]) == "deprecated"@[jj],
        decreases 10 - j,
    {
        let c = s.get_char(i + j);
        if to_lower_char(c) != needle_char(j) {
            return false;
        }
        j += 1;
    }
    true
}

/// Decides whether `s` contains the deprecation keyword, without regard to
/// ASCII case.
pub fn contains_deprecated(s: &str) -> (r: bool)
    ensures
        r == text_marks_deprecated(s@),
{
    proof {
        reveal_strlit("deprecated");
    }
    let n = s.unicode_len();
    if n < 10 {
        proof {
            assert forall|i: int| !deprecated_at(s@, i) by {}
        }
        return false;
    }
    let mut i: usize = 0;
    while i <= n - 10
        invariant
            10 <= n,
            n as nat == s@.len(),
            i <= n - 9,
            "deprecated"@.len() == 10,
            forall|k: int| 0 <= k < i ==> !deprecated_at(s@, k),
        decreases n - i,
    {
        if window_matches(s, i) {
            return true;
        }
        i += 1;
    }
    proof {
        assert forall|k: int| !deprecated_at(s@, k) by {
            if 0 <= k && k + 10 <= s@.len() {
                assert(k < i);
            }
        }
    }
    false
}

/// The declaration's visibility marker makes it externally visible.
pub open spec fn spec_is_public(vis: Visibility) -> bool {
    vis is Public
}

/// Check if a declaration is public.
pub fn is_public(vis: &Visibility) -> (r: bool)
    ensures
        r == spec_is_public(*vis),
{
    matches!(vis, Visibility::Public)
}

/// The annotation is a documentation annotation.
pub open spec fn ann_is_doc(a: Annotation) -> bool {
    a.name@ == "doc"@
}

/// At least one documentation annotation is attached.
pub open spec fn spec_has_docstring(attrs: Seq<Annotation>) -> bool {
    exists|i: int| 0 <= i < attrs.len() && ann_is_doc(attrs[i])
}

/// Check if a declaration carries any documentation annotation.
pub fn has_docstring(attrs: &Vec<Annotation>) -> (r: bool)
    ensures
        r == spec_has_docstring(attrs@),
{
    let key = "doc".to_owned();
    let mut i: usize = 0;
    while i < attrs.len()
        invariant
            i <= attrs@.len(),
            key@ == "doc"@,
            forall|k: int| 0 <= k < i ==> !ann_is_doc(attrs@[k]),
        decreases attrs@.len() - i,
    {
        if attrs[i].name == key {
            return true;
        }
        i += 1;
    }
    false
}

/// The annotation marks its declaration deprecated: either it is the dedicated
/// deprecation marker, or it carries a string value that contains the
/// deprecation keyword.
pub open spec fn ann_marks_deprecated(a: Annotation) -> bool {
    ||| a.name@ == "deprecated"@
    ||| match a.value {
        Some(v) => text_marks_deprecated(v@),
        None => false,
    }
}

/// Some attached annotation marks the declaration deprecated.
pub open spec fn spec_is_deprecated(attrs: Seq<Annotation>) -> bool {
    exists|i: int| 0 <= i < attrs.len() && ann_marks_deprecated(attrs[i])
}

/// Check if a declaration is marked deprecated, by the dedicated marker or by
/// the deprecation keyword inside any annotation's string value.
pub fn is_deprecated(attrs: &Vec<Annotation>) -> (r: bool)
    ensures
        r == spec_is_deprecated(attrs@),
{
    let key = "deprecated".to_owned();
    let mut i: usize = 0;
    while i < attrs.len()
        invariant
            i <= attrs@.len(),
            key@ == "deprecated"@,
            forall|k: int| 0 <= k < i ==> !ann_marks_deprecated(attrs@[k]),
        decreases attrs@.len() - i,
    {
        if attrs[i].name == key {
            return true;
        }
        match &attrs[i].value {
            Some(v) => {
                if contains_deprecated(v.as_str()) {
                    return true;
                }
            },
            None => {},
        }
        i += 1;
    }
    false
}

} // verus!
