//! Text helpers over `str` and `String` with their meaning in `Seq<char>`.
use vstd::prelude::*;

verus! {

/// The character sequences of a sequence of strings.
pub open spec fn views(v: Seq<String>) -> Seq<Seq<char>> {
    v.map_values(|s: String| s@)
}

/// A context trail rendered outermost frame first, each frame followed by
/// `": "`. The trail is stored innermost frame first.
pub open spec fn rendered_trail(t: Seq<Seq<char>>) -> Seq<char>
    decreases t.len(),
{
    if t.len() == 0 {
        Seq::empty()
    } else {
        rendered_trail(t.subrange(1, t.len() as int)) + t[0] + ": "@
    }
}

/// Renders a context trail, outermost frame first.
pub fn render_trail(trail: &Vec<String>) -> (r: String)
    ensures
        r@ == rendered_trail(views(trail@)),
{
    let ghost t = views(trail@);
    let mut out = String::new();
    let mut i: usize = trail.len();
    while i > 0
        invariant
            i <= trail@.len(),
            t == views(trail@),
            out@ == rendered_trail(t.subrange(i as int, t.len() as int)),
        decreases i,
    {
        let ghost before = t.subrange(i as int, t.len() as int);
        let ghost after = t.subrange(i - 1, t.len() as int);
        assert(after.subrange(1, after.len() as int) =~= before);
        assert(after[0] == trail@[i - 1]@);
        out.append(trail[i - 1].as_str());
        out.append(": ");
        i = i - 1;
    }
    assert(t.subrange(0, t.len() as int) =~= t);
    out
}

/// Whether `i` is the index of the first `';'` of `s`, or its length when it
/// holds none.
pub open spec fn first_semicolon(s: Seq<char>, i: int) -> bool {
    &&& 0 <= i <= s.len()
    &&& forall|j: int| 0 <= j < i ==> s[j] != ';'
    &&& i < s.len() ==> s[i] == ';'
}

/// The primary media type of a content type: what stands before the first
/// `';'`, parameters such as a boundary left out.
pub open spec fn media_type_of(s: Seq<char>) -> Seq<char> {
    s.take(choose|i: int| first_semicolon(s, i))
}

/// The primary media type is everything before the first `';'`.
pub proof fn media_type_before_first_semicolon(s: Seq<char>, i: int)
    requires
        first_semicolon(s, i),
    ensures
        media_type_of(s) == s.take(i),
{
    let k = choose|k: int| first_semicolon(s, k);
    assert(k == i) by {
        if k < i {
            assert(s[k] != ';');
        } else if k > i {
            assert(s[i] != ';');
        }
    }
}

/// The primary media type of a content type.
pub fn media_type(content_type: &str) -> (r: &str)
    ensures
        r@ == media_type_of(content_type@),
{
    let n = content_type.unicode_len();
    let mut i: usize = 0;
    while i < n && content_type.get_char(i) != ';'
        invariant
            i <= n,
            n == content_type@.len(),
            forall|j: int| 0 <= j < i ==> content_type@[j] != ';',
        decreases n - i,
    {
        i = i + 1;
    }
    proof {
        media_type_before_first_semicolon(content_type@, i as int);
    }
    content_type.substring_char(0, i)
}

/// Whether two strings hold the same characters.
pub fn same_text(a: &str, b: &str) -> (r: bool)
    ensures
        r == (a@ == b@),
{
    let n = a.unicode_len();
    if n != b.unicode_len() {
        return false;
    }
    let mut i: usize = 0;
    while i < n
        invariant
            i <= n,
            n == a@.len(),
            n == b@.len(),
            forall|j: int| 0 <= j < i ==> a@[j] == b@[j],
        decreases n - i,
    {
        if a.get_char(i) != b.get_char(i) {
            return false;
        }
        i = i + 1;
    }
    assert(a@ =~= b@);
    true
}

/// Whether `s` starts with `p`.
pub fn starts_with(s: &str, p: &str) -> (r: bool)
    ensures
        r == (p@.len() <= s@.len() && s@.take(p@.len() as int) == p@),
{
    let n = p.unicode_len();
    if n > s.unicode_len() {
        return false;
    }
    let mut i: usize = 0;
    while i < n
        invariant
            i <= n,
            n == p@.len(),
            n <= s@.len(),
            forall|j: int| 0 <= j < i ==> s@[j] == p@[j],
        decreases n - i,
    {
        if s.get_char(i) != p.get_char(i) {
            assert(s@.take(n as int)[i as int] != p@[i as int]);
            return false;
        }
        i = i + 1;
    }
    assert(s@.take(n as int) =~= p@);
    true
}

/// Whether `s` holds the character `c`.
pub fn contains_char(s: &str, c: char) -> (r: bool)
    ensures
        r == s@.contains(c),
{
    let n = s.unicode_len();
    let mut i: usize = 0;
    while i < n
        invariant
            i <= n,
            n == s@.len(),
            forall|j: int| 0 <= j < i ==> s@[j] != c,
        decreases n - i,
    {
        if s.get_char(i) == c {
            return true;
        }
        i = i + 1;
    }
    false
}

/// Whether `p` occurs in `s` at index `i`.
pub open spec fn occurs_at(s: Seq<char>, p: Seq<char>, i: int) -> bool {
    0 <= i && i + p.len() <= s.len() && s.subrange(i, i + p.len()) == p
}

/// Whether `i` is the first index at which `p` occurs in `s`.
pub open spec fn first_occurrence(s: Seq<char>, p: Seq<char>, i: int) -> bool {
    occurs_at(s, p, i) && forall|j: int| 0 <= j < i ==> !occurs_at(s, p, j)
}

/// The boundary parameter of a multipart content type: what follows the
/// first `boundary=` up to the next `';'` or the end.
pub open spec fn boundary_of(s: Seq<char>) -> Option<Seq<char>> {
    let p = "boundary="@;
    if exists|i: int| first_occurrence(s, p, i) {
        let i = choose|i: int| first_occurrence(s, p, i);
        Some(media_type_of(s.skip(i + p.len())))
    } else {
        None
    }
}

/// Whether `p` occurs in `s` at index `i`.
fn occurs_at_index(s: &str, p: &str, i: usize) -> (r: bool)
    requires
        i + p@.len() <= s@.len(),
        s@.len() <= usize::MAX,
    ensures
        r == occurs_at(s@, p@, i as int),
{
    let n = p.unicode_len();
    let mut k: usize = 0;
    while k < n
        invariant
            k <= n,
            n == p@.len(),
            i + n <= s@.len(),
            s@.len() <= usize::MAX,
            forall|j: int| 0 <= j < k ==> s@[i + j] == p@[j],
        decreases n - k,
    {
        if s.get_char(i + k) != p.get_char(k) {
            assert(s@.subrange(i as int, i + n)[k as int] != p@[k as int]);
            return false;
        }
        k = k + 1;
    }
    assert(s@.subrange(i as int, i + n) =~= p@);
    true
}

/// The boundary parameter of a multipart content type, if it has one.
pub fn boundary(content_type: &str) -> (r: Option<&str>)
    ensures
        r is Some <==> boundary_of(content_type@) is Some,
        r matches Some(b) ==> Some(b@) == boundary_of(content_type@),
{
    let p = "boundary=";
    proof {
        reveal_strlit("boundary=");
    }
    let ghost s = content_type@;
    let n = content_type.unicode_len();
    let m = p.unicode_len();
    if n < m {
        assert(!exists|i: int| first_occurrence(s, p@, i));
        return None;
    }
    let mut i: usize = 0;
    while i <= n - m
        invariant
            s == content_type@,
            p@ == "boundary="@,
            n == s.len(),
            m == p@.len(),
            m > 0,
            m <= n,
            i <= n - m + 1,
            forall|j: int| 0 <= j < i ==> !occurs_at(s, p@, j),
        decreases n - i,
    {
        if occurs_at_index(content_type, p, i) {
            assert(first_occurrence(s, p@, i as int));
            let ghost k = choose|k: int| first_occurrence(s, p@, k);
            assert(k == i) by {
                if k < i {
                    assert(!occurs_at(s, p@, k));
                } else if k > i {
                    assert(!occurs_at(s, p@, i as int));
                }
            }
            let rest = content_type.substring_char(i + m, n);
            assert(rest@ =~= s.skip(i + m));
            assert(exists|j: int| first_occurrence(s, "boundary="@, j));
            return Some(media_type(rest));
        }
        i = i + 1;
    }
    assert forall|j: int| !first_occurrence(s, p@, j) by {
        if 0 <= j < i {
        } else if j >= i {
            assert(!occurs_at(s, p@, j));
        }
    }
    None
}

} // verus!
