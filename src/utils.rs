//! Naming rules: project names from repository URLs, and slugs from names.
use vstd::prelude::*;
use crate::text::{chars_of, text_from};

verus! {

/// What `str::to_lowercase` returns for a string.
pub uninterp spec fn lower_of(s: Seq<char>) -> Seq<char>;

/// What `char::is_alphanumeric` answers for a character.
pub uninterp spec fn alnum(c: char) -> bool;

/// ASCII letters and digits.
pub open spec fn ascii_alnum(c: char) -> bool {
    ('a' <= c <= 'z') || ('A' <= c <= 'Z') || ('0' <= c <= '9')
}

/// Relies on `str::to_lowercase`: the result depends on the characters alone.
#[verifier::external_body]
fn lowercase(s: &str) -> (r: String)
    ensures
        r@ == lower_of(s@),
{
    s.to_lowercase()
}

/// Relies on `char::is_alphanumeric` (Unicode `Alphabetic` or `Numeric`);
/// among ASCII characters these are exactly the letters and digits.
#[verifier::external_body]
fn is_alphanumeric(c: char) -> (r: bool)
    ensures
        r == alnum(c),
        (c as u32) < 128 ==> (r == ascii_alnum(c)),
{
    c.is_alphanumeric()
}

/// A character that may stand in a slug unchanged.
pub open spec fn slug_char_kept(c: char) -> bool {
    alnum(c) || c == '-'
}

/// Each character kept or replaced by `-`.
pub open spec fn dash_map(s: Seq<char>) -> Seq<char> {
    s.map_values(|c: char| if slug_char_kept(c) { c } else { '-' })
}

/// `s` without its leading `c` characters.
pub open spec fn trim_start_char(s: Seq<char>, c: char) -> Seq<char>
    decreases s.len(),
{
    if s.len() > 0 && s[0] == c {
        trim_start_char(s.drop_first(), c)
    } else {
        s
    }
}

/// `s` without its trailing `c` characters.
pub open spec fn trim_end_char(s: Seq<char>, c: char) -> Seq<char>
    decreases s.len(),
{
    if s.len() > 0 && s.last() == c {
        trim_end_char(s.drop_last(), c)
    } else {
        s
    }
}

/// The slug of an already lower-cased name.
pub open spec fn slug_of(l: Seq<char>) -> Seq<char> {
    trim_end_char(trim_start_char(dash_map(l), '-'), '-')
}

/// The slug of a project name.
pub open spec fn slugify_spec(name: Seq<char>) -> Seq<char> {
    slug_of(lower_of(name))
}

/// `.git`
pub open spec fn git_suffix() -> Seq<char> {
    seq!['.', 'g', 'i', 't']
}

/// `s` with every trailing `.git` removed, repeatedly.
pub open spec fn trim_git(s: Seq<char>) -> Seq<char>
    decreases s.len(),
{
    if s.len() >= 4 && s.subrange(s.len() - 4, s.len() as int) == git_suffix() {
        trim_git(s.subrange(0, s.len() - 4))
    } else {
        s
    }
}

/// The part of `s` after its last `/` (all of `s` when it has none).
pub open spec fn last_segment(s: Seq<char>) -> Seq<char>
    decreases s.len(),
{
    if s.len() == 0 {
        s
    } else if s.last() == '/' {
        Seq::empty()
    } else {
        last_segment(s.drop_last()).push(s.last())
    }
}

/// The project name of a repository URL.
pub open spec fn repo_name_spec(url: Seq<char>) -> Seq<char> {
    last_segment(trim_git(trim_end_char(url, '/')))
}

proof fn lemma_trim_start_from(s: Seq<char>, c: char, i: int)
    requires
        0 <= i < s.len(),
        s[i] == c,
    ensures
        trim_start_char(s.subrange(i, s.len() as int), c) == trim_start_char(
            s.subrange(i + 1, s.len() as int),
            c,
        ),
{
    assert(s.subrange(i, s.len() as int).drop_first() == s.subrange(i + 1, s.len() as int));
}

proof fn lemma_trim_end_to(s: Seq<char>, c: char, j: int)
    requires
        0 < j <= s.len(),
        s[j - 1] == c,
    ensures
        trim_end_char(s.subrange(0, j), c) == trim_end_char(s.subrange(0, j - 1), c),
{
    assert(s.subrange(0, j).drop_last() == s.subrange(0, j - 1));
}

/// Every character kept, and no `-` at either end.
pub open spec fn slug_shaped(r: Seq<char>) -> bool {
    &&& forall|i: int| 0 <= i < r.len() ==> slug_char_kept(#[trigger] r[i])
    &&& r.len() > 0 ==> r[0] != '-' && r.last() != '-'
}

/// Lower-case ASCII letters, digits and `-`.
pub open spec fn slug_ascii_char(c: char) -> bool {
    ('a' <= c <= 'z') || ('0' <= c <= '9') || c == '-'
}

/// ASCII text with no upper-case letter.
pub open spec fn ascii_lower_text(l: Seq<char>) -> bool {
    forall|i: int| 0 <= i < l.len() ==> (#[trigger] l[i] as u32) < 128 && !('A' <= l[i] <= 'Z')
}

proof fn lemma_trim_start_suffix(s: Seq<char>, c: char) -> (k: int)
    ensures
        0 <= k <= s.len(),
        trim_start_char(s, c) == s.subrange(k, s.len() as int),
        k < s.len() ==> s[k] != c,
    decreases s.len(),
{
    if s.len() > 0 && s[0] == c {
        let k0 = lemma_trim_start_suffix(s.drop_first(), c);
        assert(s.drop_first().subrange(k0, s.len() - 1) == s.subrange(k0 + 1, s.len() as int));
        k0 + 1
    } else {
        assert(s.subrange(0, s.len() as int) == s);
        0
    }
}

proof fn lemma_trim_end_prefix(s: Seq<char>, c: char) -> (k: int)
    ensures
        0 <= k <= s.len(),
        trim_end_char(s, c) == s.subrange(0, k),
        k > 0 ==> s[k - 1] != c,
    decreases s.len(),
{
    if s.len() > 0 && s.last() == c {
        let k0 = lemma_trim_end_prefix(s.drop_last(), c);
        assert(s.drop_last().subrange(0, k0) == s.subrange(0, k0));
        k0
    } else {
        assert(s.subrange(0, s.len() as int) == s);
        s.len() as int
    }
}

proof fn lemma_slug_range(l: Seq<char>) -> (bounds: (int, int))
    ensures
        0 <= bounds.0 <= bounds.1 <= l.len(),
        slug_of(l) == dash_map(l).subrange(bounds.0, bounds.1),
        slug_shaped(slug_of(l)),
{
    let m = dash_map(l);
    let a = lemma_trim_start_suffix(m, '-');
    let t = m.subrange(a, m.len() as int);
    let b = lemma_trim_end_prefix(t, '-');
    let r = slug_of(l);
    assert(r == m.subrange(a, a + b));
    assert forall|i: int| 0 <= i < r.len() implies slug_char_kept(#[trigger] r[i]) by {
        assert(r[i] == m[a + i]);
    }
    if r.len() > 0 {
        assert(r[0] == t[0]);
        assert(r.last() == t[b - 1]);
    }
    (a, a + b)
}

/// A slug is made of kept characters only (alphanumerics and `-`), never
/// starts or ends with `-`, and slugging it again changes nothing.
pub proof fn lemma_slug_idempotent(l: Seq<char>)
    ensures
        slug_shaped(slug_of(l)),
        slug_of(slug_of(l)) == slug_of(l),
{
    let _ = lemma_slug_range(l);
    let r = slug_of(l);
    assert(dash_map(r) == r);
    if r.len() > 0 {
        assert(trim_start_char(r, '-') == r);
        assert(trim_end_char(r, '-') == r);
    } else {
        assert(dash_map(r).len() == 0);
    }
}

/// Slug of an already lower-cased name: every character that is neither
/// alphanumeric nor `-` becomes `-`, then leading and trailing `-` go.
pub fn slug_from_lowered(lowered: &str) -> (r: String)
    ensures
        r@ == slug_of(lowered@),
        slug_shaped(r@),
        ascii_lower_text(lowered@) ==> forall|i: int|
            0 <= i < r@.len() ==> slug_ascii_char(#[trigger] r@[i]),
{
    let cs = chars_of(lowered);
    let n = cs.len();
    let mut mapped: Vec<char> = Vec::new();
    let mut k: usize = 0;
    while k < n
        invariant
            cs@ == lowered@,
            n == cs@.len(),
            k <= n,
            mapped@ == dash_map(lowered@).subrange(0, k as int),
            ascii_lower_text(lowered@) ==> forall|q: int|
                0 <= q < k ==> slug_ascii_char(#[trigger] mapped@[q]),
        decreases n - k,
    {
        let c = cs[k];
        let d = if is_alphanumeric(c) || c == '-' {
            c
        } else {
            '-'
        };
        mapped.push(d);
        proof {
            assert(dash_map(lowered@).subrange(0, k + 1) == dash_map(lowered@).subrange(
                0,
                k as int,
            ).push(d));
        }
        k = k + 1;
    }
    let ghost m = dash_map(lowered@);
    proof {
        assert(mapped@ == m.subrange(0, n as int));
        assert(m.subrange(0, n as int) == m);
    }
    let mut i: usize = 0;
    while i < n && mapped[i] == '-'
        invariant
            mapped@ == m,
            n == m.len(),
            i <= n,
            trim_start_char(m, '-') == trim_start_char(m.subrange(i as int, n as int), '-'),
        decreases n - i,
    {
        proof {
            lemma_trim_start_from(m, '-', i as int);
        }
        i = i + 1;
    }
    let ghost t = m.subrange(i as int, n as int);
    proof {
        if i < n {
            assert(t.len() > 0 && t[0] != '-');
        }
        assert(trim_start_char(m, '-') == t);
    }
    let mut j: usize = n;
    while j > i && mapped[j - 1] == '-'
        invariant
            mapped@ == m,
            n == m.len(),
            i <= j <= n,
            t == m.subrange(i as int, n as int),
            trim_end_char(t, '-') == trim_end_char(m.subrange(i as int, j as int), '-'),
        decreases j,
    {
        proof {
            let u = m.subrange(i as int, j as int);
            assert(u.drop_last() == m.subrange(i as int, j - 1));
        }
        j = j - 1;
    }
    proof {
        let u = m.subrange(i as int, j as int);
        if j > i {
            assert(u.last() != '-');
        }
        assert(trim_end_char(u, '-') == u);
    }
    let r = text_from(&mapped, i, j);
    proof {
        let _ = lemma_slug_range(lowered@);
        assert(r@ == m.subrange(i as int, j as int));
        if ascii_lower_text(lowered@) {
            assert forall|q: int| 0 <= q < r@.len() implies slug_ascii_char(#[trigger] r@[q]) by {
                assert(r@[q] == mapped@[i + q]);
            }
        }
    }
    r
}

/// URL-safe slug of a project name: lower-cased, each character that is
/// neither alphanumeric nor `-` replaced by `-`, leading and trailing `-`
/// removed.
pub fn slugify(name: &str) -> (r: String)
    ensures
        r@ == slugify_spec(name@),
{
    let lowered = lowercase(name);
    slug_from_lowered(&lowered)
}

/// Project name of a git repository URL: trailing `/` removed, then
/// trailing `.git`, then the last path segment.
pub fn repo_name(url: &str) -> (r: String)
    ensures
        r@ == repo_name_spec(url@),
{
    let cs = chars_of(url);
    let ghost s = url@;
    let n = cs.len();
    let mut e: usize = n;
    proof {
        assert(s.subrange(0, n as int) == s);
    }
    while e > 0 && cs[e - 1] == '/'
        invariant
            cs@ == s,
            n == s.len(),
            e <= n,
            trim_end_char(s, '/') == trim_end_char(s.subrange(0, e as int), '/'),
        decreases e,
    {
        proof {
            lemma_trim_end_to(s, '/', e as int);
        }
        e = e - 1;
    }
    let ghost a = s.subrange(0, e as int);
    proof {
        if e > 0 {
            assert(a.last() != '/');
        }
        assert(trim_end_char(s, '/') == a);
    }
    while e >= 4 && cs[e - 4] == '.' && cs[e - 3] == 'g' && cs[e - 2] == 'i' && cs[e - 1] == 't'
        invariant
            cs@ == s,
            n == s.len(),
            e <= n,
            trim_git(a) == trim_git(s.subrange(0, e as int)),
        decreases e,
    {
        proof {
            let u = s.subrange(0, e as int);
            assert(u.subrange(u.len() - 4, u.len() as int) =~= git_suffix());
            assert(u.subrange(0, u.len() - 4) == s.subrange(0, e - 4));
        }
        e = e - 4;
    }
    let ghost b = s.subrange(0, e as int);
    proof {
        if e >= 4 {
            let sub = b.subrange(b.len() - 4, b.len() as int);
            if sub == git_suffix() {
                assert(sub[0] == b[e - 4]);
                assert(sub[1] == b[e - 3]);
                assert(sub[2] == b[e - 2]);
                assert(sub[3] == b[e - 1]);
            }
        }
        assert(trim_git(a) == b);
    }
    let mut st: usize = e;
    while st > 0 && cs[st - 1] != '/'
        invariant
            cs@ == s,
            n == s.len(),
            st <= e <= n,
            b == s.subrange(0, e as int),
            last_segment(b) == last_segment(s.subrange(0, st as int)) + s.subrange(
                st as int,
                e as int,
            ),
        decreases st,
    {
        proof {
            let u = s.subrange(0, st as int);
            assert(u.drop_last() == s.subrange(0, st - 1));
            assert(s.subrange(st - 1, e as int) == seq![u.last()] + s.subrange(st as int, e as int));
            assert(last_segment(s.subrange(0, st - 1)).push(u.last()) + s.subrange(st as int, e as int)
                == last_segment(s.subrange(0, st - 1)) + s.subrange(st - 1, e as int));
        }
        st = st - 1;
    }
    proof {
        let u = s.subrange(0, st as int);
        assert(last_segment(u) == Seq::<char>::empty());
        assert(Seq::<char>::empty() + s.subrange(st as int, e as int) == s.subrange(st as int, e as int));
    }
    text_from(&cs, st, e)
}

} // verus!
