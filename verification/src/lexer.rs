use vstd::prelude::*;

use crate::platform::PlatformKind;
use crate::text::chars_of;

verus! {

/// Number of literal platform patterns that the scanner knows.
pub const PATTERN_COUNT: usize = 16;

/// The literal patterns of the platform scanner, each with the kind that it
/// names. Input is matched after lower-casing, so every pattern is lower case.
pub open spec fn pattern(k: int) -> (Seq<char>, PlatformKind) {
    if k == 0 {
        ("atari 2600"@, PlatformKind::A26)
    } else if k == 1 {
        ("atari 5200"@, PlatformKind::A52)
    } else if k == 2 {
        ("atari 7800"@, PlatformKind::A78)
    } else if k == 3 {
        ("amiga"@, PlatformKind::AMIGA)
    } else if k == 4 {
        (" gba "@, PlatformKind::GBA)
    } else if k == 5 {
        ("game boy advance"@, PlatformKind::GBA)
    } else if k == 6 {
        (" gbc "@, PlatformKind::GBC)
    } else if k == 7 {
        ("gameboy color"@, PlatformKind::GBC)
    } else if k == 8 {
        ("game boy color"@, PlatformKind::GBC)
    } else if k == 9 {
        ("nintendo - game boy"@, PlatformKind::GB)
    } else if k == 10 {
        ("nintendo entertainment system"@, PlatformKind::NES)
    } else if k == 11 {
        ("super nintendo entertainment system"@, PlatformKind::SNES)
    } else if k == 12 {
        (" dos "@, PlatformKind::DOS)
    } else if k == 13 {
        ("ibm - pc and compatibles"@, PlatformKind::DOS)
    } else if k == 14 {
        ("nintendo - wii"@, PlatformKind::WII)
    } else {
        ("nintendo 64"@, PlatformKind::N64)
    }
}

/// Every pattern is non-empty, so a match always moves the scanner forward.
pub proof fn lemma_patterns_nonempty()
    ensures
        forall|k: int| 0 <= k < PATTERN_COUNT ==> (#[trigger] pattern(k)).0.len() > 0,
{
    reveal_strlit("atari 2600");
    reveal_strlit("atari 5200");
    reveal_strlit("atari 7800");
    reveal_strlit("amiga");
    reveal_strlit(" gba ");
    reveal_strlit("game boy advance");
    reveal_strlit(" gbc ");
    reveal_strlit("gameboy color");
    reveal_strlit("game boy color");
    reveal_strlit("nintendo - game boy");
    reveal_strlit("nintendo entertainment system");
    reveal_strlit("super nintendo entertainment system");
    reveal_strlit(" dos ");
    reveal_strlit("ibm - pc and compatibles");
    reveal_strlit("nintendo - wii");
    reveal_strlit("nintendo 64");
}

/// `p` occurs in `s` at position `i`.
pub open spec fn occurs_at(s: Seq<char>, i: int, p: Seq<char>) -> bool {
    &&& 0 <= i
    &&& i + p.len() <= s.len()
    &&& s.subrange(i, i + p.len()) == p
}

/// The first pattern, from the `k`-th on, that occurs in `s` at `i`.
pub open spec fn first_match_from(s: Seq<char>, i: int, k: int) -> Option<int>
    decreases PATTERN_COUNT - k,
{
    if k < 0 || k >= PATTERN_COUNT {
        None
    } else if occurs_at(s, i, pattern(k).0) {
        Some(k)
    } else {
        first_match_from(s, i, k + 1)
    }
}

/// The pattern that occurs in `s` at `i`, if any.
pub open spec fn match_at(s: Seq<char>, i: int) -> Option<int> {
    first_match_from(s, i, 0)
}

/// The kind of the last platform token that a left-to-right scan of `s`
/// produces from position `i` on. At each position the pattern that occurs
/// there is taken as a token and the scan resumes after it; where none occurs,
/// one character is skipped.
pub open spec fn last_platform_from(s: Seq<char>, i: int) -> Option<PlatformKind>
    decreases s.len() - i,
{
    if i < 0 || i >= s.len() {
        None
    } else {
        match match_at(s, i) {
            Some(k) => {
                proof {
                    lemma_first_match_in_range(s, i, 0);
                    lemma_patterns_nonempty();
                }
                match last_platform_from(s, i + pattern(k).0.len()) {
                    Some(later) => Some(later),
                    None => Some(pattern(k).1),
                }
            },
            None => last_platform_from(s, i + 1),
        }
    }
}

/// The kind of the last platform token in `s`.
pub open spec fn last_platform(s: Seq<char>) -> Option<PlatformKind> {
    last_platform_from(s, 0)
}

/// A pattern found from the `k`-th on is one of the table that occurs at `i`.
pub proof fn lemma_first_match_in_range(s: Seq<char>, i: int, k: int)
    ensures
        first_match_from(s, i, k) matches Some(j) ==> k <= j < PATTERN_COUNT && occurs_at(
            s,
            i,
            pattern(j).0,
        ),
    decreases PATTERN_COUNT - k,
{
    if 0 <= k < PATTERN_COUNT && !occurs_at(s, i, pattern(k).0) {
        lemma_first_match_in_range(s, i, k + 1);
    }
}


/// Soundness of the scan: a kind that the scan reports from position `i` on
/// is the kind of a pattern that occurs in the text at or after `i`.
pub proof fn lemma_scan_sound(s: Seq<char>, i: int)
    ensures
        last_platform_from(s, i) matches Some(kind) ==> exists|at: int, k: int|
            #![trigger occurs_at(s, at, pattern(k).0)]
            i <= at && 0 <= k < PATTERN_COUNT && occurs_at(s, at, pattern(k).0) && pattern(k).1
                == kind,
    decreases s.len() - i,
{
    if 0 <= i < s.len() {
        lemma_first_match_in_range(s, i, 0);
        lemma_patterns_nonempty();
        match match_at(s, i) {
            Some(k) => {
                lemma_scan_sound(s, i + pattern(k).0.len());
                if last_platform_from(s, i + pattern(k).0.len()) is None {
                    assert(occurs_at(s, i, pattern(k).0));
                }
            },
            None => {
                lemma_scan_sound(s, i + 1);
            },
        }
    }
}

/// A name names a platform only through a pattern that occurs in it: the
/// kind found is the kind of some pattern occurring in the text, and a text
/// in which no pattern occurs names no platform.
pub proof fn law_platform_only_from_patterns(s: Seq<char>)
    ensures
        last_platform(s) matches Some(kind) ==> exists|at: int, k: int|
            #![trigger occurs_at(s, at, pattern(k).0)]
            0 <= k < PATTERN_COUNT && occurs_at(s, at, pattern(k).0) && pattern(k).1 == kind,
        (forall|at: int, k: int| 0 <= k < PATTERN_COUNT ==> !#[trigger] occurs_at(s, at, pattern(k).0))
            ==> last_platform(s) is None,
{
    lemma_scan_sound(s, 0);
}

/// `a` is a prefix of `b`, compared character by character.
pub open spec fn is_prefix_of(a: Seq<char>, b: Seq<char>) -> bool
    decreases a.len(),
{
    a.len() == 0 || (b.len() > 0 && a[0] == b[0] && is_prefix_of(a.drop_first(), b.drop_first()))
}

/// A text that occurs at the start of another is a prefix of it.
pub proof fn lemma_occurs_at_start_is_prefix(a: Seq<char>, b: Seq<char>)
    requires
        occurs_at(b, 0, a),
    ensures
        is_prefix_of(a, b),
    decreases a.len(),
{
    if a.len() > 0 {
        assert(b.subrange(0, a.len() as int)[0] == a[0]);
        assert(b.drop_first().subrange(0, a.len() - 1) =~= a.drop_first()) by {
            assert forall|m: int| 0 <= m < a.len() - 1 implies b.drop_first().subrange(
                0,
                a.len() - 1,
            )[m] == a.drop_first()[m] by {
                assert(b.subrange(0, a.len() as int)[m + 1] == a[m + 1]);
            }
        }
        lemma_occurs_at_start_is_prefix(a.drop_first(), b.drop_first());
    }
}

/// No pattern of the table is a prefix of another one.
pub proof fn lemma_no_pattern_prefix_of_another(k: int, j: int)
    requires
        0 <= j < PATTERN_COUNT,
        0 <= k < PATTERN_COUNT,
        j != k,
    ensures
        !occurs_at(pattern(k).0, 0, pattern(j).0),
{
    reveal_strlit("atari 2600");
    reveal_strlit("atari 5200");
    reveal_strlit("atari 7800");
    reveal_strlit("amiga");
    reveal_strlit(" gba ");
    reveal_strlit("game boy advance");
    reveal_strlit(" gbc ");
    reveal_strlit("gameboy color");
    reveal_strlit("game boy color");
    reveal_strlit("nintendo - game boy");
    reveal_strlit("nintendo entertainment system");
    reveal_strlit("super nintendo entertainment system");
    reveal_strlit(" dos ");
    reveal_strlit("ibm - pc and compatibles");
    reveal_strlit("nintendo - wii");
    reveal_strlit("nintendo 64");
    reveal_with_fuel(is_prefix_of, 12);
    if occurs_at(pattern(k).0, 0, pattern(j).0) {
        lemma_occurs_at_start_is_prefix(pattern(j).0, pattern(k).0);
    }
}

/// No pattern of the table is a prefix of a later one, so the first pattern
/// found at the start of a pattern's own text is that pattern.
pub proof fn lemma_no_earlier_prefix(k: int, j: int)
    requires
        0 <= j < k < PATTERN_COUNT,
    ensures
        !occurs_at(pattern(k).0, 0, pattern(j).0),
{
    lemma_no_pattern_prefix_of_another(k, j);
}

/// At most one pattern occurs at any one position of a text.
pub proof fn lemma_one_pattern_per_position(s: Seq<char>, p: int, j: int, k: int)
    requires
        0 <= j < PATTERN_COUNT,
        0 <= k < PATTERN_COUNT,
        occurs_at(s, p, pattern(j).0),
        occurs_at(s, p, pattern(k).0),
    ensures
        j == k,
{
    if j != k {
        let a = pattern(j).0;
        let b = pattern(k).0;
        if a.len() <= b.len() {
            assert(b.subrange(0, a.len() as int) =~= s.subrange(p, p + a.len()));
            lemma_no_pattern_prefix_of_another(k, j);
        } else {
            assert(a.subrange(0, b.len() as int) =~= s.subrange(p, p + b.len()));
            lemma_no_pattern_prefix_of_another(j, k);
        }
    }
}

/// Where no pattern occurs from `i` on, the scan from `i` finds nothing.
pub proof fn lemma_scan_finds_nothing(s: Seq<char>, i: int)
    requires
        forall|q: int, j: int|
            i <= q && 0 <= j < PATTERN_COUNT ==> !#[trigger] occurs_at(s, q, pattern(j).0),
    ensures
        last_platform_from(s, i) is None,
    decreases s.len() - i,
{
    if 0 <= i < s.len() {
        lemma_first_match_in_range(s, i, 0);
        assert(match_at(s, i) is None);
        lemma_scan_finds_nothing(s, i + 1);
    }
}

/// The last pattern in a text decides its platform: where a pattern occurs at
/// `p`, no pattern occurrence that starts before `p` reaches past `p`, and no
/// pattern occurs after its end, the text names that pattern's platform,
/// whatever else comes before it.
pub proof fn law_last_pattern_decides(s: Seq<char>, p: int, k: int)
    requires
        0 <= k < PATTERN_COUNT,
        occurs_at(s, p, pattern(k).0),
        forall|q: int, j: int|
            q < p && 0 <= j < PATTERN_COUNT && #[trigger] occurs_at(s, q, pattern(j).0) ==> q
                + pattern(j).0.len() <= p,
        forall|q: int, j: int|
            p + pattern(k).0.len() <= q && 0 <= j < PATTERN_COUNT ==> !#[trigger] occurs_at(
                s,
                q,
                pattern(j).0,
            ),
    ensures
        last_platform(s) == Some(pattern(k).1),
{
    lemma_scan_reaches(s, p, k, 0);
}

/// From any position up to `p`, the scan of `law_last_pattern_decides` ends
/// with the pattern at `p`.
pub proof fn lemma_scan_reaches(s: Seq<char>, p: int, k: int, i: int)
    requires
        0 <= k < PATTERN_COUNT,
        0 <= i <= p,
        occurs_at(s, p, pattern(k).0),
        forall|q: int, j: int|
            q < p && 0 <= j < PATTERN_COUNT && #[trigger] occurs_at(s, q, pattern(j).0) ==> q
                + pattern(j).0.len() <= p,
        forall|q: int, j: int|
            p + pattern(k).0.len() <= q && 0 <= j < PATTERN_COUNT ==> !#[trigger] occurs_at(
                s,
                q,
                pattern(j).0,
            ),
    ensures
        last_platform_from(s, i) == Some(pattern(k).1),
    decreases p - i,
{
    lemma_patterns_nonempty();
    lemma_first_match_in_range(s, i, 0);
    if i == p {
        assert forall|j: int| 0 <= j < k implies !occurs_at(s, p, #[trigger] pattern(j).0) by {
            if occurs_at(s, p, pattern(j).0) {
                lemma_one_pattern_per_position(s, p, j, k);
            }
        }
        lemma_first_match_skip(s, p, k);
        assert(match_at(s, p) == Some(k));
        lemma_scan_finds_nothing(s, p + pattern(k).0.len());
    } else {
        match match_at(s, i) {
            Some(j) => {
                assert(occurs_at(s, i, pattern(j).0));
                lemma_scan_reaches(s, p, k, i + pattern(j).0.len());
            },
            None => {
                lemma_scan_reaches(s, p, k, i + 1);
            },
        }
    }
}

/// One of the token texts of platform `kind` occurs in `s` at `at`.
pub open spec fn token_occurs(s: Seq<char>, at: int, kind: PlatformKind) -> bool {
    match kind {
        PlatformKind::A26 => occurs_at(s, at, "atari 2600"@),
        PlatformKind::A52 => occurs_at(s, at, "atari 5200"@),
        PlatformKind::A78 => occurs_at(s, at, "atari 7800"@),
        PlatformKind::AMIGA => occurs_at(s, at, "amiga"@),
        PlatformKind::GBA => occurs_at(s, at, " gba "@) || occurs_at(s, at, "game boy advance"@),
        PlatformKind::GBC => occurs_at(s, at, " gbc "@) || occurs_at(s, at, "gameboy color"@)
            || occurs_at(s, at, "game boy color"@),
        PlatformKind::GB => occurs_at(s, at, "nintendo - game boy"@),
        PlatformKind::NES => occurs_at(s, at, "nintendo entertainment system"@),
        PlatformKind::SNES => occurs_at(s, at, "super nintendo entertainment system"@),
        PlatformKind::DOS => occurs_at(s, at, " dos "@) || occurs_at(
            s,
            at,
            "ibm - pc and compatibles"@,
        ),
        PlatformKind::WII => occurs_at(s, at, "nintendo - wii"@),
        PlatformKind::N64 => occurs_at(s, at, "nintendo 64"@),
    }
}

/// A text names a platform only through one of that platform's token texts
/// occurring in it in full.
pub proof fn law_platform_needs_its_token(s: Seq<char>)
    ensures
        last_platform(s) matches Some(kind) ==> exists|at: int| #[trigger] token_occurs(s, at, kind),
{
    law_platform_only_from_patterns(s);
    if let Some(kind) = last_platform(s) {
        let (at, k) = choose|at: int, k: int|
            #![trigger occurs_at(s, at, pattern(k).0)]
            0 <= k < PATTERN_COUNT && occurs_at(s, at, pattern(k).0) && pattern(k).1 == kind;
        assert(token_occurs(s, at, kind));
    }
}

/// Each platform pattern on its own names the platform that it stands for.
pub proof fn law_pattern_names_its_platform(k: int)
    requires
        0 <= k < PATTERN_COUNT,
    ensures
        last_platform(pattern(k).0) == Some(pattern(k).1),
{
    let p = pattern(k).0;
    lemma_patterns_nonempty();
    assert forall|j: int| 0 <= j < k implies !occurs_at(p, 0, #[trigger] pattern(j).0) by {
        lemma_no_earlier_prefix(k, j);
    }
    lemma_first_match_skip(p, 0, k);
    assert(p.subrange(0, p.len() as int) =~= p);
    assert(match_at(p, 0) == Some(k));
    assert(last_platform_from(p, p.len() as int) is None);
}

/// Once the patterns before `k` are known not to occur at `i`, the search for
/// the first match may start at `k`.
pub proof fn lemma_first_match_skip(s: Seq<char>, i: int, k: int)
    requires
        0 <= k <= PATTERN_COUNT,
        forall|j: int| 0 <= j < k ==> !occurs_at(s, i, #[trigger] pattern(j).0),
    ensures
        first_match_from(s, i, 0) == first_match_from(s, i, k),
    decreases k,
{
    if k > 0 {
        lemma_first_match_skip(s, i, k - 1);
    }
}

fn pattern_entry(k: usize) -> (r: (&'static str, PlatformKind))
    requires
        k < PATTERN_COUNT,
    ensures
        r.0@ == pattern(k as int).0,
        r.1 == pattern(k as int).1,
{
    if k == 0 {
        ("atari 2600", PlatformKind::A26)
    } else if k == 1 {
        ("atari 5200", PlatformKind::A52)
    } else if k == 2 {
        ("atari 7800", PlatformKind::A78)
    } else if k == 3 {
        ("amiga", PlatformKind::AMIGA)
    } else if k == 4 {
        (" gba ", PlatformKind::GBA)
    } else if k == 5 {
        ("game boy advance", PlatformKind::GBA)
    } else if k == 6 {
        (" gbc ", PlatformKind::GBC)
    } else if k == 7 {
        ("gameboy color", PlatformKind::GBC)
    } else if k == 8 {
        ("game boy color", PlatformKind::GBC)
    } else if k == 9 {
        ("nintendo - game boy", PlatformKind::GB)
    } else if k == 10 {
        ("nintendo entertainment system", PlatformKind::NES)
    } else if k == 11 {
        ("super nintendo entertainment system", PlatformKind::SNES)
    } else if k == 12 {
        (" dos ", PlatformKind::DOS)
    } else if k == 13 {
        ("ibm - pc and compatibles", PlatformKind::DOS)
    } else if k == 14 {
        ("nintendo - wii", PlatformKind::WII)
    } else {
        ("nintendo 64", PlatformKind::N64)
    }
}

/// Whether `p` occurs in `s` at position `i`.
fn occurs_at_exec(s: &Vec<char>, i: usize, p: &Vec<char>) -> (r: bool)
    ensures
        r == occurs_at(s@, i as int, p@),
{
    if i > s.len() || p.len() > s.len() - i {
        return false;
    }
    let mut j: usize = 0;
    while j < p.len()
        invariant
            i + p.len() <= s.len(),
            j <= p.len(),
            forall|m: int| 0 <= m < j ==> s@[i + m] == p@[m],
        decreases p.len() - j,
    {
        if s[i + j] != p[j] {
            assert(s@.subrange(i as int, i + p.len())[j as int] != p@[j as int]);
            return false;
        }
        j = j + 1;
    }
    assert(s@.subrange(i as int, i + p.len()) =~= p@);
    true
}

/// The pattern that occurs in `s` at `i`, looked up in the table `pats`.
fn match_at_exec(s: &Vec<char>, i: usize, pats: &Vec<(Vec<char>, PlatformKind)>) -> (hit: Option<
    usize,
>)
    requires
        pats@.len() == PATTERN_COUNT,
        forall|j: int|
            0 <= j < PATTERN_COUNT ==> (#[trigger] pats@[j]).0@ == pattern(j).0 && pats@[j].1
                == pattern(j).1,
    ensures
        match hit {
            Some(h) => h < PATTERN_COUNT && match_at(s@, i as int) == Some(h as int),
            None => match_at(s@, i as int) is None,
        },
{
    let mut k: usize = 0;
    while k < PATTERN_COUNT
        invariant
            k <= PATTERN_COUNT,
            pats@.len() == PATTERN_COUNT,
            forall|j: int|
                0 <= j < PATTERN_COUNT ==> (#[trigger] pats@[j]).0@ == pattern(j).0
                    && pats@[j].1 == pattern(j).1,
            forall|j: int| 0 <= j < k ==> !occurs_at(s@, i as int, #[trigger] pattern(j).0),
        decreases PATTERN_COUNT - k,
    {
        if occurs_at_exec(s, i, &pats[k].0) {
            proof {
                lemma_first_match_skip(s@, i as int, k as int);
            }
            return Some(k);
        }
        k = k + 1;
    }
    proof {
        lemma_first_match_skip(s@, i as int, PATTERN_COUNT as int);
    }
    None
}

/// The platform that `text` names: the kind of the last platform pattern
/// found by scanning it from left to right (see `last_platform`). The text is
/// matched as it is; callers lower-case it first.
pub fn platform_in(text: &str) -> (r: Option<PlatformKind>)
    ensures
        r == last_platform(text@),
{
    let s = chars_of(text);
    let mut pats: Vec<(Vec<char>, PlatformKind)> = Vec::new();
    let mut k: usize = 0;
    while k < PATTERN_COUNT
        invariant
            k <= PATTERN_COUNT,
            pats@.len() == k,
            forall|j: int|
                0 <= j < k ==> (#[trigger] pats@[j]).0@ == pattern(j).0 && pats@[j].1 == pattern(
                    j,
                ).1,
        decreases PATTERN_COUNT - k,
    {
        let (lit, kind) = pattern_entry(k);
        pats.push((chars_of(lit), kind));
        k = k + 1;
    }
    let mut found: Option<PlatformKind> = None;
    let mut i: usize = 0;
    while i < s.len()
        invariant
            s@ == text@,
            i <= s.len(),
            pats@.len() == PATTERN_COUNT,
            forall|j: int|
                0 <= j < PATTERN_COUNT ==> (#[trigger] pats@[j]).0@ == pattern(j).0
                    && pats@[j].1 == pattern(j).1,
            last_platform(s@) == (match last_platform_from(s@, i as int) {
                Some(later) => Some(later),
                None => found,
            }),
        decreases s.len() - i,
    {
        let hit = match_at_exec(&s, i, &pats);
        proof {
            lemma_patterns_nonempty();
        }
        match hit {
            Some(h) => {
                let len = pats[h].0.len();
                assert(occurs_at(s@, i as int, pattern(h as int).0)) by {
                    lemma_first_match_in_range(s@, i as int, 0);
                }
                found = Some(pats[h].1);
                i = i + len;
            },
            None => {
                i = i + 1;
            },
        }
    }
    found
}

} // verus!
