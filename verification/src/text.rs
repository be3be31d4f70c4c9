use vstd::prelude::*;
use vstd::string::*;

verus! {

broadcast use vstd::string::group_string_axioms;

/// The characters of `s`, in order.
pub fn chars_of(s: &str) -> (v: Vec<char>)
    ensures
        v@ == s@,
{
    let mut v: Vec<char> = Vec::new();
    for c in it: s.chars()
        invariant
            v@ == it.seq().take(it.index() as int),
    {
        v.push(c);
    }
    v
}


/// Whether two texts are equal.
pub fn text_equals(a: &str, b: &str) -> (r: bool)
    ensures
        r == (a@ == b@),
{
    let x = chars_of(a);
    let y = chars_of(b);
    if x.len() != y.len() {
        return false;
    }
    let mut i: usize = 0;
    while i < x.len()
        invariant
            x@ == a@,
            y@ == b@,
            x@.len() == y@.len(),
            i <= x@.len(),
            forall|j: int| 0 <= j < i ==> x@[j] == y@[j],
        decreases x.len() - i,
    {
        if x[i] != y[i] {
            return false;
        }
        i = i + 1;
    }
    assert(x@ =~= y@);
    true
}

/// `s` without its leading run of `c`.
pub open spec fn strip_leading(s: Seq<char>, c: char) -> Seq<char>
    decreases s.len(),
{
    if s.len() > 0 && s[0] == c {
        strip_leading(s.drop_first(), c)
    } else {
        s
    }
}

/// `s` without its trailing run of `c`.
pub open spec fn strip_trailing(s: Seq<char>, c: char) -> Seq<char>
    decreases s.len(),
{
    if s.len() > 0 && s.last() == c {
        strip_trailing(s.drop_last(), c)
    } else {
        s
    }
}

/// `s` with every leading and trailing `c` removed.
pub open spec fn trim_char(s: Seq<char>, c: char) -> Seq<char> {
    strip_trailing(strip_leading(s, c), c)
}

/// Stripping the leading run of `c` leaves the suffix from the first
/// character that is not `c`.
pub proof fn lemma_strip_leading(s: Seq<char>, c: char, i: int)
    requires
        0 <= i <= s.len(),
        forall|j: int| 0 <= j < i ==> s[j] == c,
        i == s.len() || s[i] != c,
    ensures
        strip_leading(s, c) == s.subrange(i, s.len() as int),
    decreases i,
{
    if i > 0 {
        lemma_strip_leading(s.drop_first(), c, i - 1);
        assert(s.drop_first().subrange(i - 1, s.len() - 1) =~= s.subrange(i, s.len() as int));
    } else {
        assert(s.subrange(0, s.len() as int) =~= s);
    }
}

/// Stripping the trailing run of `c` leaves the prefix up to the last
/// character that is not `c`.
pub proof fn lemma_strip_trailing(s: Seq<char>, c: char, j: int)
    requires
        0 <= j <= s.len(),
        forall|m: int| j <= m < s.len() ==> s[m] == c,
        j == 0 || s[j - 1] != c,
    ensures
        strip_trailing(s, c) == s.subrange(0, j),
    decreases s.len() - j,
{
    if j < s.len() {
        lemma_strip_trailing(s.drop_last(), c, j);
        assert(s.drop_last().subrange(0, j) =~= s.subrange(0, j));
    } else {
        assert(s.subrange(0, s.len() as int) =~= s);
    }
}

/// Stripping a leading run leaves a text that does not start with `c`.
pub proof fn lemma_strip_leading_edge(s: Seq<char>, c: char)
    ensures
        strip_leading(s, c).len() == 0 || strip_leading(s, c)[0] != c,
    decreases s.len(),
{
    if s.len() > 0 && s[0] == c {
        lemma_strip_leading_edge(s.drop_first(), c);
    }
}

/// Stripping a trailing run leaves a prefix of the text that does not end
/// with `c`.
pub proof fn lemma_strip_trailing_edge(s: Seq<char>, c: char)
    ensures
        strip_trailing(s, c).len() <= s.len(),
        s.subrange(0, strip_trailing(s, c).len() as int) == strip_trailing(s, c),
        strip_trailing(s, c).len() == 0 || strip_trailing(s, c).last() != c,
    decreases s.len(),
{
    if s.len() > 0 && s.last() == c {
        lemma_strip_trailing_edge(s.drop_last(), c);
        let r = strip_trailing(s, c);
        assert(s.drop_last().subrange(0, r.len() as int) =~= s.subrange(0, r.len() as int));
    } else {
        assert(s.subrange(0, s.len() as int) =~= s);
    }
}

/// Trimming leaves a text that neither starts nor ends with `c`, so trimming
/// it again changes nothing.
pub proof fn law_trim_idempotent(s: Seq<char>, c: char)
    ensures
        trim_char(s, c).len() == 0 || (trim_char(s, c)[0] != c && trim_char(s, c).last() != c),
        trim_char(trim_char(s, c), c) == trim_char(s, c),
{
    let t = strip_leading(s, c);
    let u = trim_char(s, c);
    lemma_strip_leading_edge(s, c);
    lemma_strip_trailing_edge(t, c);
    if u.len() > 0 {
        assert(u[0] == t.subrange(0, u.len() as int)[0]);
    }
    assert(strip_leading(u, c) == u);
    assert(strip_trailing(u, c) == u);
}

/// Removing every `c` leaves no `c`, and removing them again changes nothing.
pub proof fn law_without_char(s: Seq<char>, c: char)
    ensures
        forall|i: int| 0 <= i < without_char(s, c).len() ==> without_char(s, c)[i] != c,
        without_char(without_char(s, c), c) == without_char(s, c),
    decreases s.len(),
{
    if s.len() > 0 {
        law_without_char(s.drop_last(), c);
        let prev = without_char(s.drop_last(), c);
        if s.last() != c {
            let r = prev.push(s.last());
            assert(r.drop_last() =~= prev);
        }
    }
}

/// `s` with every leading and trailing `/` removed.
pub fn trim_slashes(s: &str) -> (r: String)
    ensures
        r@ == trim_char(s@, '/'),
{
    let v = chars_of(s);
    let n = v.len();
    let mut i: usize = 0;
    while i < n && v[i] == '/'
        invariant
            n == v@.len(),
            i <= n,
            forall|j: int| 0 <= j < i ==> v@[j] == '/',
        decreases n - i,
    {
        i = i + 1;
    }
    let mut j: usize = n;
    while j > i && v[j - 1] == '/'
        invariant
            n == v@.len(),
            i <= j <= n,
            forall|m: int| j <= m < n ==> v@[m] == '/',
        decreases j,
    {
        j = j - 1;
    }
    proof {
        lemma_strip_leading(s@, '/', i as int);
        let rest = s@.subrange(i as int, n as int);
        if j == i {
            assert forall|m: int| 0 <= m < rest.len() implies rest[m] == '/' by {
                assert(rest[m] == s@[i + m]);
            }
            lemma_strip_trailing(rest, '/', 0);
        } else {
            assert(rest[j - i - 1] == s@[j - 1]);
            assert forall|m: int| j - i <= m < rest.len() implies rest[m] == '/' by {
                assert(rest[m] == s@[i + m]);
            }
            lemma_strip_trailing(rest, '/', j - i);
        }
        assert(rest.subrange(0, j - i) =~= s@.subrange(i as int, j as int));
    }
    String::from_str(s.substring_char(i, j))
}

/// The text `base/name`.
pub fn join_path(base: &str, name: &str) -> (r: String)
    ensures
        r@ == base@ + "/"@ + name@,
{
    let mut r = String::from_str(base);
    r.append("/");
    r.append(name);
    r
}

/// `s` with every `c` removed.
pub open spec fn without_char(s: Seq<char>, c: char) -> Seq<char>
    decreases s.len(),
{
    if s.len() == 0 {
        s
    } else if s.last() == c {
        without_char(s.drop_last(), c)
    } else {
        without_char(s.drop_last(), c).push(s.last())
    }
}

/// `s` with every space removed.
pub fn remove_spaces(s: &str) -> (r: String)
    ensures
        r@ == without_char(s@, ' '),
{
    let v = chars_of(s);
    let mut r = String::new();
    let mut i: usize = 0;
    assert(s@.take(0) =~= Seq::<char>::empty());
    while i < v.len()
        invariant
            v@ == s@,
            i <= v@.len(),
            r@ == without_char(s@.take(i as int), ' '),
        decreases v.len() - i,
    {
        assert(s@.take(i + 1).drop_last() =~= s@.take(i as int));
        if v[i] != ' ' {
            let piece = s.substring_char(i, i + 1);
            r.append(piece);
            assert(piece@ =~= seq![v@[i as int]]);
        }
        i = i + 1;
    }
    assert(s@.take(v.len() as int) =~= s@);
    r
}

/// What `str::to_lowercase` gives for a text: its lower-case equivalent under
/// the Unicode `Lowercase` property, which may change the number of characters.
pub uninterp spec fn lowercase(s: Seq<char>) -> Seq<char>;

/// Trusted: `str::to_lowercase`. The contract claims only that the result is
/// the lower-case form `lowercase` of the argument, a function of the text alone.
#[verifier::external_body]
pub(crate) fn to_lowercase(s: &str) -> (r: String)
    ensures
        r@ == lowercase(s@),
{
    s.to_lowercase()
}

} // verus!
