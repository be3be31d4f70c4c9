use vstd::prelude::*;
use vstd::string::*;

use crate::lexer::{last_platform, platform_in};
use crate::text::{lowercase, to_lowercase};

verus! {

/// The game platforms that the index knows about.
#[derive(PartialEq, Eq, Structural, Clone, Copy, Debug)]
pub enum PlatformKind {
    AMIGA,
    A26,
    A52,
    A78,
    GB,
    GBA,
    GBC,
    NES,
    SNES,
    WII,
    N64,
    DOS,
}

/// The display name of a platform kind: the variant's own name.
pub open spec fn kind_name_spec(kind: PlatformKind) -> Seq<char> {
    match kind {
        PlatformKind::AMIGA => "AMIGA"@,
        PlatformKind::A26 => "A26"@,
        PlatformKind::A52 => "A52"@,
        PlatformKind::A78 => "A78"@,
        PlatformKind::GB => "GB"@,
        PlatformKind::GBA => "GBA"@,
        PlatformKind::GBC => "GBC"@,
        PlatformKind::NES => "NES"@,
        PlatformKind::SNES => "SNES"@,
        PlatformKind::WII => "WII"@,
        PlatformKind::N64 => "N64"@,
        PlatformKind::DOS => "DOS"@,
    }
}

impl PlatformKind {
    /// The platform that a name or path names: the last platform pattern found
    /// when the lower-cased name is scanned (see `lexer::last_platform`).
    pub fn from_name(input: String) -> (r: Option<PlatformKind>)
        ensures
            r == last_platform(lowercase(input@)),
    {
        let lowered = to_lowercase(input.as_str());
        platform_in(lowered.as_str())
    }

    /// The name under which the kind is shown, e.g. `"SNES"`.
    pub fn name(&self) -> (s: String)
        ensures
            s@ == kind_name_spec(*self),
    {
        let lit = match self {
            PlatformKind::AMIGA => "AMIGA",
            PlatformKind::A26 => "A26",
            PlatformKind::A52 => "A52",
            PlatformKind::A78 => "A78",
            PlatformKind::GB => "GB",
            PlatformKind::GBA => "GBA",
            PlatformKind::GBC => "GBC",
            PlatformKind::NES => "NES",
            PlatformKind::SNES => "SNES",
            PlatformKind::WII => "WII",
            PlatformKind::N64 => "N64",
            PlatformKind::DOS => "DOS",
        };
        String::from_str(lit)
    }
}


/// A platform as it is attached to an indexed file: a ranking weight, its
/// kind, and search tags.
#[derive(PartialEq, Eq, Debug, Clone)]
pub struct Platform {
    pub weight: usize,
    pub kind: PlatformKind,
    pub tags: Vec<String>,
}

/// The catalogue of platforms that carry ranking data: weight and tags of each
/// kind that has an entry. Kinds without an entry are not ranked.
pub open spec fn catalog(kind: PlatformKind) -> Option<(usize, Seq<Seq<char>>)> {
    match kind {
        PlatformKind::GB => Some((100usize, seq!["game boy"@, "gameboy"@, "nintendo"@])),
        PlatformKind::GBA => Some(
            (99usize, seq!["game boy advanced"@, "gameboy advanced"@, "nintendo"@]),
        ),
        PlatformKind::GBC => Some((98usize, seq!["game boy color"@, "gameboy color"@, "nintendo"@])),
        PlatformKind::NES => Some((97usize, seq!["nintendo entertainment system"@, "nintendo"@])),
        PlatformKind::SNES => Some(
            (96usize, seq!["super nintendo entertainment system"@, "nintendo"@]),
        ),
        PlatformKind::WII => Some((95usize, seq!["nintendo"@, "superduperteststring"@])),
        _ => None,
    }
}

/// A platform as a mathematical value.
pub struct PlatformView {
    pub weight: usize,
    pub kind: PlatformKind,
    pub tags: Seq<Seq<char>>,
}

impl View for Platform {
    type V = PlatformView;

    open spec fn view(&self) -> PlatformView {
        PlatformView { weight: self.weight, kind: self.kind, tags: self.tags.deep_view() }
    }
}

/// An optional platform as a mathematical value.
pub open spec fn platform_opt_view(p: Option<Platform>) -> Option<PlatformView> {
    match p {
        Some(p) => Some(p@),
        None => None,
    }
}

/// The catalogue's platform for `kind`, if the kind has an entry.
pub open spec fn catalog_platform(kind: PlatformKind) -> Option<PlatformView> {
    match catalog(kind) {
        Some((weight, tags)) => Some(PlatformView { weight, kind, tags }),
        None => None,
    }
}

/// A catalogue platform is filed under its own kind, and no two ranked kinds
/// share a weight, so the ranking orders ranked platforms strictly.
pub proof fn law_catalog_consistent(a: PlatformKind, b: PlatformKind)
    ensures
        catalog_platform(a) matches Some(p) ==> p.kind == a,
        catalog_platform(a) is Some && catalog_platform(b) is Some && a != b ==> catalog_platform(
            a,
        ).unwrap().weight != catalog_platform(b).unwrap().weight,
{
}

/// Distinct kinds are shown under distinct names.
pub proof fn law_kind_names_distinct(a: PlatformKind, b: PlatformKind)
    ensures
        kind_name_spec(a) == kind_name_spec(b) ==> a == b,
{
    reveal_strlit("AMIGA");
    reveal_strlit("A26");
    reveal_strlit("A52");
    reveal_strlit("A78");
    reveal_strlit("GB");
    reveal_strlit("GBA");
    reveal_strlit("GBC");
    reveal_strlit("NES");
    reveal_strlit("SNES");
    reveal_strlit("WII");
    reveal_strlit("N64");
    reveal_strlit("DOS");
    if kind_name_spec(a) == kind_name_spec(b) {
        let x = kind_name_spec(a);
        let y = kind_name_spec(b);
        assert(x.len() == y.len());
        if x.len() > 0 {
            assert(x[0] == y[0]);
        }
        if x.len() > 1 {
            assert(x[1] == y[1]);
        }
        if x.len() > 2 {
            assert(x[2] == y[2]);
        }
    }
}

/// Distinct ranked kinds carry distinct tag lists, and every ranked kind is
/// tagged `nintendo`.
pub proof fn law_catalog_tags_distinct(a: PlatformKind, b: PlatformKind)
    ensures
        catalog_platform(a) is Some && catalog_platform(b) is Some && a != b ==> catalog_platform(
            a,
        ).unwrap().tags != catalog_platform(b).unwrap().tags,
        catalog_platform(a) matches Some(p) ==> p.tags.contains("nintendo"@),
{
    reveal_strlit("game boy");
    reveal_strlit("gameboy");
    reveal_strlit("nintendo");
    reveal_strlit("game boy advanced");
    reveal_strlit("gameboy advanced");
    reveal_strlit("game boy color");
    reveal_strlit("gameboy color");
    reveal_strlit("nintendo entertainment system");
    reveal_strlit("super nintendo entertainment system");
    reveal_strlit("superduperteststring");
    if let Some(p) = catalog_platform(a) {
        let t = p.tags;
        if t[0] == "nintendo"@ {
            assert(t.contains("nintendo"@));
        } else if t.len() == 3 {
            assert(t[2] == "nintendo"@);
            assert(t.contains("nintendo"@));
        } else {
            assert(t[1] == "nintendo"@);
            assert(t.contains("nintendo"@));
        }
        if let Some(q) = catalog_platform(b) {
            if a != b && t == q.tags {
                assert(t[0] == q.tags[0]);
                assert(t[0].len() == q.tags[0].len());
                assert(t[0][0] == q.tags[0][0]);
            }
        }
    }
}

fn two_tags(a: &str, b: &str) -> (v: Vec<String>)
    ensures
        v.deep_view() == seq![a@, b@],
{
    let mut v: Vec<String> = Vec::new();
    v.push(String::from_str(a));
    v.push(String::from_str(b));
    assert(v.deep_view() =~= seq![a@, b@]);
    v
}

fn three_tags(a: &str, b: &str, c: &str) -> (v: Vec<String>)
    ensures
        v.deep_view() == seq![a@, b@, c@],
{
    let mut v: Vec<String> = Vec::new();
    v.push(String::from_str(a));
    v.push(String::from_str(b));
    v.push(String::from_str(c));
    assert(v.deep_view() =~= seq![a@, b@, c@]);
    v
}

impl Platform {
    /// The catalogue's platform for `kind`, if the kind has an entry.
    pub fn for_kind(kind: &PlatformKind) -> (r: Option<Platform>)
        ensures
            platform_opt_view(r) == catalog_platform(*kind),
    {
        match kind {
            PlatformKind::GB => Some(
                Platform {
                    weight: 100,
                    tags: three_tags("game boy", "gameboy", "nintendo"),
                    kind: PlatformKind::GB,
                },
            ),
            PlatformKind::GBA => Some(
                Platform {
                    weight: 99,
                    tags: three_tags("game boy advanced", "gameboy advanced", "nintendo"),
                    kind: PlatformKind::GBA,
                },
            ),
            PlatformKind::GBC => Some(
                Platform {
                    weight: 98,
                    tags: three_tags("game boy color", "gameboy color", "nintendo"),
                    kind: PlatformKind::GBC,
                },
            ),
            PlatformKind::NES => Some(
                Platform {
                    weight: 97,
                    tags: two_tags("nintendo entertainment system", "nintendo"),
                    kind: PlatformKind::NES,
                },
            ),
            PlatformKind::SNES => Some(
                Platform {
                    weight: 96,
                    tags: two_tags("super nintendo entertainment system", "nintendo"),
                    kind: PlatformKind::SNES,
                },
            ),
            PlatformKind::WII => Some(
                Platform {
                    weight: 95,
                    tags: two_tags("nintendo", "superduperteststring"),
                    kind: PlatformKind::WII,
                },
            ),
            _ => None,
        }
    }
}

} // verus!
