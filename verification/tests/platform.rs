use romsearch::platform::{Platform, PlatformKind};

fn tags(p: &Platform) -> Vec<&str> {
    p.tags.iter().map(|t| t.as_str()).collect()
}

#[test]
fn for_kind_game_boy() {
    let p = Platform::for_kind(&PlatformKind::GB).unwrap();
    assert_eq!(p.weight, 100);
    assert_eq!(p.kind, PlatformKind::GB);
    assert_eq!(tags(&p), vec!["game boy", "gameboy", "nintendo"]);
}

#[test]
fn for_kind_every_ranked_kind() {
    let expected = vec![
        (PlatformKind::GB, 100),
        (PlatformKind::GBA, 99),
        (PlatformKind::GBC, 98),
        (PlatformKind::NES, 97),
        (PlatformKind::SNES, 96),
        (PlatformKind::WII, 95),
    ];
    for (kind, weight) in expected {
        let p = Platform::for_kind(&kind).unwrap();
        assert_eq!(p.kind, kind);
        assert_eq!(p.weight, weight);
    }
    assert_eq!(
        tags(&Platform::for_kind(&PlatformKind::SNES).unwrap()),
        vec!["super nintendo entertainment system", "nintendo"]
    );
    assert_eq!(
        tags(&Platform::for_kind(&PlatformKind::WII).unwrap()),
        vec!["nintendo", "superduperteststring"]
    );
}

#[test]
fn for_kind_unranked_kinds() {
    for kind in [
        PlatformKind::AMIGA,
        PlatformKind::A26,
        PlatformKind::A52,
        PlatformKind::A78,
        PlatformKind::N64,
        PlatformKind::DOS,
    ] {
        assert!(Platform::for_kind(&kind).is_none());
    }
}

#[test]
fn kind_names() {
    assert_eq!(PlatformKind::SNES.name(), "SNES");
    assert_eq!(PlatformKind::A26.name(), "A26");
    assert_eq!(PlatformKind::AMIGA.name(), "AMIGA");
    assert_eq!(PlatformKind::N64.name(), "N64");
}

#[test]
fn from_name_folder_paths() {
    let cases = vec![
        ("No-Intro/Nintendo - Super Nintendo Entertainment System/Game.zip", Some(PlatformKind::SNES)),
        ("No-Intro/Nintendo - Nintendo Entertainment System (Headered)/x.zip", Some(PlatformKind::NES)),
        ("No-Intro/Nintendo - Nintendo 64 (BigEndian)/x.zip", Some(PlatformKind::N64)),
        ("No-Intro/Nintendo - Game Boy Color/x.zip", Some(PlatformKind::GB)),
        ("No-Intro/Nintendo - Wii (Digital)/x.zip", Some(PlatformKind::WII)),
        ("No-Intro/Atari - 2600/x.zip", None),
        ("TOSEC/Atari 2600 collection", Some(PlatformKind::A26)),
        ("TOSEC/Commodore Amiga/Games", Some(PlatformKind::AMIGA)),
        ("Redump/IBM - PC and Compatibles/x.zip", Some(PlatformKind::DOS)),
        ("Sega - Mega Drive/x.zip", None),
        ("", None),
    ];
    for (name, expected) in cases {
        assert_eq!(PlatformKind::from_name(name.to_string()), expected, "{}", name);
    }
}

#[test]
fn from_name_is_case_insensitive() {
    assert_eq!(PlatformKind::from_name("NINTENDO 64".to_string()), Some(PlatformKind::N64));
    assert_eq!(PlatformKind::from_name("GameBoy Color".to_string()), Some(PlatformKind::GBC));
    assert_eq!(PlatformKind::from_name("AMIGA".to_string()), Some(PlatformKind::AMIGA));
}

#[test]
fn from_name_last_platform_wins() {
    assert_eq!(
        PlatformKind::from_name("amiga then atari 7800".to_string()),
        Some(PlatformKind::A78)
    );
    assert_eq!(
        PlatformKind::from_name("atari 7800 then amiga".to_string()),
        Some(PlatformKind::AMIGA)
    );
}

#[test]
fn from_name_spaced_abbreviations() {
    assert_eq!(PlatformKind::from_name("mariogba edition".to_string()), None);
    assert_eq!(PlatformKind::from_name("mario gba".to_string()), None);
    assert_eq!(PlatformKind::from_name("mario gba edition".to_string()), Some(PlatformKind::GBA));
    assert_eq!(PlatformKind::from_name("mario  gba x".to_string()), Some(PlatformKind::GBA));
    assert_eq!(PlatformKind::from_name("x gbc y".to_string()), Some(PlatformKind::GBC));
    assert_eq!(PlatformKind::from_name("x dos y".to_string()), Some(PlatformKind::DOS));
    assert_eq!(PlatformKind::from_name(" gba ".to_string()), Some(PlatformKind::GBA));
}

#[test]
fn from_name_tokens_do_not_overlap() {
    // "nintendo - game boy" is taken as a whole, so "game boy advance" that
    // starts inside it is not seen.
    assert_eq!(
        PlatformKind::from_name("nintendo - game boy advance".to_string()),
        Some(PlatformKind::GB)
    );
    assert_eq!(
        PlatformKind::from_name("super nintendo entertainment system".to_string()),
        Some(PlatformKind::SNES)
    );
    // A failed partial match skips one character only.
    assert_eq!(PlatformKind::from_name("atariatari 2600".to_string()), Some(PlatformKind::A26));
    assert_eq!(PlatformKind::from_name("nintendo nintendo 64".to_string()), Some(PlatformKind::N64));
}

#[test]
fn each_pattern_names_its_platform() {
    let patterns = vec![
        ("atari 2600", PlatformKind::A26),
        ("atari 5200", PlatformKind::A52),
        ("atari 7800", PlatformKind::A78),
        ("amiga", PlatformKind::AMIGA),
        (" gba ", PlatformKind::GBA),
        ("game boy advance", PlatformKind::GBA),
        (" gbc ", PlatformKind::GBC),
        ("gameboy color", PlatformKind::GBC),
        ("game boy color", PlatformKind::GBC),
        ("nintendo - game boy", PlatformKind::GB),
        ("nintendo entertainment system", PlatformKind::NES),
        ("super nintendo entertainment system", PlatformKind::SNES),
        (" dos ", PlatformKind::DOS),
        ("ibm - pc and compatibles", PlatformKind::DOS),
        ("nintendo - wii", PlatformKind::WII),
        ("nintendo 64", PlatformKind::N64),
    ];
    for (text, kind) in patterns {
        assert_eq!(romsearch::lexer::platform_in(text), Some(kind), "{}", text);
    }
}

#[test]
fn platform_in_matches_text_as_given() {
    assert_eq!(romsearch::lexer::platform_in("NINTENDO 64"), None);
    assert_eq!(romsearch::lexer::platform_in("nintendo 64"), Some(PlatformKind::N64));
    assert_eq!(romsearch::lexer::platform_in("no platform here"), None);
}

#[test]
fn catalog_weights_are_distinct() {
    let kinds = [
        PlatformKind::GB,
        PlatformKind::GBA,
        PlatformKind::GBC,
        PlatformKind::NES,
        PlatformKind::SNES,
        PlatformKind::WII,
    ];
    let weights: Vec<usize> = kinds.iter().map(|k| Platform::for_kind(k).unwrap().weight).collect();
    for i in 0..weights.len() {
        for j in 0..weights.len() {
            if i != j {
                assert_ne!(weights[i], weights[j]);
            }
        }
    }
}
