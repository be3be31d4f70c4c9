use std::hash::{DefaultHasher, Hash, Hasher};

use romsearch::listing::{file_record, read_listing, row_kind, ListingRow, RowKind};
use romsearch::platform::PlatformKind;
use romsearch::scrape::{parse_listing, rows_from_cells, table_rows};
use romsearch::text::{join_path, remove_spaces, text_equals, trim_slashes};

fn std_hash(location: &str) -> u64 {
    let mut s = DefaultHasher::new();
    location.to_string().hash(&mut s);
    s.finish()
}

fn row(href: &str, size: &str, date: &str) -> ListingRow {
    ListingRow { href: href.to_string(), size: size.to_string(), date: date.to_string() }
}

#[test]
fn trim_slashes_cases() {
    assert_eq!(trim_slashes("/a/b/"), "a/b");
    assert_eq!(trim_slashes("../"), "..");
    assert_eq!(trim_slashes("///"), "");
    assert_eq!(trim_slashes(""), "");
    assert_eq!(trim_slashes("Game.zip"), "Game.zip");
    assert_eq!(trim_slashes("//x//y//"), "x//y");
}

#[test]
fn trim_slashes_twice_is_once() {
    for s in ["/a/", "//", "a//b", "/x", "y/"] {
        let once = trim_slashes(s);
        assert_eq!(trim_slashes(&once), once);
        assert!(!once.starts_with('/') && !once.ends_with('/'));
    }
}

#[test]
fn text_helpers() {
    assert!(text_equals("-", "-"));
    assert!(!text_equals("-", "--"));
    assert!(!text_equals("ab", "ac"));
    assert_eq!(join_path("https://h/files", "Dir"), "https://h/files/Dir");
    assert_eq!(remove_spaces(" 1.2 MiB "), "1.2MiB");
    assert_eq!(remove_spaces(&remove_spaces("a b")), "ab");
}

#[test]
fn row_kinds() {
    assert_eq!(row_kind("-", ".."), RowKind::Parent);
    assert_eq!(row_kind("-", "Sub"), RowKind::Directory);
    assert_eq!(row_kind("12 KiB", "x.zip"), RowKind::File);
    assert_eq!(row_kind("12 KiB", ".."), RowKind::File);
}

#[test]
fn file_record_fields() {
    let url = "https://h/files/No-Intro/Nintendo%20-%20Super%20Nintendo%20Entertainment%20System";
    let href = "Super%20Mario%20World%20(USA).zip";
    let f = file_record(url, href, "1.2 MiB", "01-Jan-2024").unwrap();
    let location = format!("{}/{}", url, href);
    assert_eq!(f.location, location);
    assert_eq!(f.name, "Super Mario World (USA).zip");
    assert_eq!(f.id, std_hash(&location));
    assert_eq!(f.size.as_deref(), Some("1.2 MiB"));
    assert_eq!(f.date.as_deref(), Some("01-Jan-2024"));
    let p = f.platform.unwrap();
    assert_eq!(p.kind, PlatformKind::SNES);
    assert_eq!(p.weight, 96);
}

#[test]
fn file_record_unranked_platform() {
    let f = file_record("https://h/files/Nintendo%20-%20Nintendo%2064", "a.zip", "1", "d").unwrap();
    assert!(f.platform.is_none());
    assert_eq!(f.name, "a.zip");
}

#[test]
fn file_record_decoding_keeps_plus_and_bad_escapes() {
    let f = file_record("https://h", "a+b%2x%41%", "1", "d").unwrap();
    assert_eq!(f.name, "a+b%2xA%");
}

#[test]
fn file_record_fails_on_invalid_utf8() {
    assert!(file_record("https://h", "bad%FF.zip", "1", "d").is_none());
}

#[test]
fn read_listing_sorts_rows() {
    let url = "https://h/files";
    let rows = vec![
        row("../", "-", "-"),
        row("Sub%20Dir/", "-", "02-Jan-2024"),
        row("Game.zip", "3 KiB", "03-Jan-2024"),
        row("Other/", "-", "-"),
    ];
    let l = read_listing(url, &rows).unwrap();
    assert_eq!(l.directories, vec!["https://h/files/Sub%20Dir", "https://h/files/Other"]);
    assert_eq!(l.files.len(), 1);
    assert_eq!(l.files[0].location, "https://h/files/Game.zip");
    assert_eq!(l.files[0].id, std_hash("https://h/files/Game.zip"));
    assert!(l.files.len() + l.directories.len() <= rows.len());
}

#[test]
fn read_listing_fails_as_a_whole() {
    let rows = vec![row("Good.zip", "1", "d"), row("bad%FF", "1", "d")];
    assert!(read_listing("https://h", &rows).is_none());
    assert!(read_listing("https://h", &vec![]).unwrap().files.is_empty());
}

const PAGE: &str = r#"<h1>Index</h1>
<table id="list"><thead><tr><th>Name</th><th>Size</th><th>Date</th></tr></thead>
<tbody>
<tr><td class="link"><a href="../">Parent directory/</a></td><td class="size">-</td><td class="date">-</td></tr>
<tr><td class="link"><a href="Nintendo%20-%20Game%20Boy/">Nintendo - Game Boy/</a></td><td class="size">-</td><td class="date">01-Jan-2024 10:00</td></tr>
<tr><td class="link"><a href="Tetris%20(World).zip">Tetris (World).zip</a></td><td class="size">20.1 KiB</td><td class="date">02-Jan-2024 11:00</td></tr>
</tbody></table>"#;

#[test]
fn table_rows_reads_cells() {
    let rows = table_rows(PAGE).unwrap();
    assert_eq!(rows.len(), 3);
    assert_eq!(rows[0].href, "../");
    assert_eq!(rows[1].href, "Nintendo%20-%20Game%20Boy/");
    assert_eq!(rows[2].size, "20.1 KiB");
    assert_eq!(rows[2].date, "02-Jan-2024 11:00");
}

#[test]
fn parse_listing_page() {
    let url = "https://h/files/No-Intro";
    let l = parse_listing(url, PAGE).unwrap();
    assert_eq!(l.directories, vec!["https://h/files/No-Intro/Nintendo%20-%20Game%20Boy"]);
    assert_eq!(l.files.len(), 1);
    assert_eq!(l.files[0].name, "Tetris (World).zip");
    assert!(l.files[0].platform.is_none());
    let sub = parse_listing(&l.directories[0], PAGE).unwrap();
    assert_eq!(sub.files[0].platform.as_ref().unwrap().kind, PlatformKind::GB);
}

#[test]
fn parse_listing_missing_cell() {
    let page = r#"<table id="list"><tbody><tr><td class="link"><a href="x">x</a></td><td class="size">1</td></tr></tbody></table>"#;
    assert!(table_rows(page).is_none());
    assert!(parse_listing("https://h", page).is_none());
    assert_eq!(table_rows("<p>no table</p>").unwrap().len(), 0);
}

#[test]
fn same_page_reads_to_same_listing() {
    let url = "https://h/files/No-Intro";
    let a = parse_listing(url, PAGE).unwrap();
    let b = parse_listing(url, PAGE).unwrap();
    assert_eq!(a.directories, b.directories);
    assert_eq!(a.files.len(), b.files.len());
    for (x, y) in a.files.iter().zip(b.files.iter()) {
        assert_eq!((x.id, &x.name, &x.location, &x.size, &x.date), (y.id, &y.name, &y.location, &y.size, &y.date));
        assert_eq!(x.platform, y.platform);
    }
}

#[test]
fn row_without_link_target_fails_page() {
    let page = r#"<table id="list"><tbody><tr><td class="link"><a>x</a></td><td class="size">1</td><td class="date">d</td></tr></tbody></table>"#;
    assert!(table_rows(page).is_none());
    assert!(parse_listing("https://h", page).is_none());
}

#[test]
fn rows_from_cells_cases() {
    let s = |x: &str| Some(x.to_string());
    let cells = vec![(s("a/"), s("-"), s("d1")), (s("b.zip"), s("2 KiB"), s("d2"))];
    let rows = rows_from_cells(&cells).unwrap();
    assert_eq!(rows.len(), 2);
    assert_eq!((rows[1].href.as_str(), rows[1].size.as_str(), rows[1].date.as_str()), ("b.zip", "2 KiB", "d2"));
    let missing = vec![(s("a/"), None, s("d1"))];
    assert!(rows_from_cells(&missing).is_none());
    assert!(rows_from_cells(&vec![]).unwrap().is_empty());
}
