use vstd::prelude::*;
use vstd::string::*;
use std::hash::BuildHasher;

use crate::decode::{law_plain_text_decodes_to_itself, percent_decoded, url_decode};
use crate::lexer::last_platform;
use crate::platform::{catalog_platform, platform_opt_view, Platform, PlatformKind, PlatformView};
use crate::text::{join_path, lowercase, text_equals, trim_char, trim_slashes};

verus! {

/// A file of the archive, as it is stored in the search index.
#[derive(Debug)]
pub struct File {
    pub id: u64,
    pub name: String,
    pub location: String,
    pub size: Option<String>,
    pub date: Option<String>,
    pub platform: Option<Platform>,
}

/// A file record as a mathematical value.
pub struct FileView {
    pub id: u64,
    pub name: Seq<char>,
    pub location: Seq<char>,
    pub size: Option<Seq<char>>,
    pub date: Option<Seq<char>>,
    pub platform: Option<PlatformView>,
}

impl View for File {
    type V = FileView;

    open spec fn view(&self) -> FileView {
        FileView {
            id: self.id,
            name: self.name@,
            location: self.location@,
            size: self.size.deep_view(),
            date: self.date.deep_view(),
            platform: platform_opt_view(self.platform),
        }
    }
}

/// What one row of a directory listing table holds: the link target, and the
/// first text of its size and date cells.
#[derive(Debug)]
pub struct ListingRow {
    pub href: String,
    pub size: String,
    pub date: String,
}

/// A listing row as a mathematical value.
pub struct ListingRowView {
    pub href: Seq<char>,
    pub size: Seq<char>,
    pub date: Seq<char>,
}

impl View for ListingRow {
    type V = ListingRowView;

    open spec fn view(&self) -> ListingRowView {
        ListingRowView { href: self.href@, size: self.size@, date: self.date@ }
    }
}

/// What a directory listing yields: the files to index and the
/// subdirectories to visit, each in the order of the listing.
#[derive(Debug)]
pub struct Listing {
    pub files: Vec<File>,
    pub directories: Vec<String>,
}

/// A listing as a mathematical value.
pub struct ListingView {
    pub files: Seq<FileView>,
    pub directories: Seq<Seq<char>>,
}

impl View for Listing {
    type V = ListingView;

    open spec fn view(&self) -> ListingView {
        ListingView {
            files: self.files@.map_values(|f: File| f@),
            directories: self.directories.deep_view(),
        }
    }
}

/// How a listing row is treated.
#[derive(PartialEq, Eq, Structural, Clone, Copy, Debug)]
pub enum RowKind {
    /// A subdirectory: its size reads `-`.
    Directory,
    /// A file: its size is anything but `-`.
    File,
    /// The link back to the parent directory, which is skipped.
    Parent,
}

/// The kind of a row with size text `size` and (trimmed) link `href`.
pub open spec fn row_kind_spec(size: Seq<char>, href: Seq<char>) -> RowKind {
    if size == "-"@ {
        if href == ".."@ {
            RowKind::Parent
        } else {
            RowKind::Directory
        }
    } else {
        RowKind::File
    }
}

/// The kind of a row with size text `size` and (trimmed) link `href`.
pub fn row_kind(size: &str, href: &str) -> (r: RowKind)
    ensures
        r == row_kind_spec(size@, href@),
{
    if text_equals(size, "-") {
        if text_equals(href, "..") {
            RowKind::Parent
        } else {
            RowKind::Directory
        }
    } else {
        RowKind::File
    }
}

/// What `BuildHasherDefault::<DefaultHasher>::default().hash_one` gives for a
/// text: std's default hasher, created with its fixed keys, over the text.
pub uninterp spec fn default_hash(s: Seq<char>) -> u64;

/// Trusted: `BuildHasher::hash_one` of std's `BuildHasherDefault<DefaultHasher>`.
/// The contract claims only that the result is `default_hash` of the text;
/// std fixes the algorithm within one build but not across releases.
#[verifier::external_body]
fn hash_text(s: &str) -> (h: u64)
    ensures
        h == default_hash(s@),
{
    std::hash::BuildHasherDefault::<std::hash::DefaultHasher>::default().hash_one(s)
}

/// The platform recorded for a file whose decoded location is `location`.
pub open spec fn platform_for_location(location: Seq<char>) -> Option<PlatformView> {
    match last_platform(lowercase(location)) {
        Some(kind) => catalog_platform(kind),
        None => None,
    }
}

/// The record of the file `href` listed in directory `url` with the given
/// size and date texts; nothing where the location or the link does not
/// percent-decode to text.
pub open spec fn file_spec(url: Seq<char>, href: Seq<char>, size: Seq<char>, date: Seq<char>) -> Option<
    FileView,
> {
    let location = url + "/"@ + href;
    match (percent_decoded(location), percent_decoded(href)) {
        (Some(decoded_location), Some(name)) => Some(
            FileView {
                id: default_hash(location),
                name,
                location,
                size: Some(size),
                date: Some(date),
                platform: platform_for_location(decoded_location),
            },
        ),
        _ => None,
    }
}

/// A file listed under a directory URL and a link that hold no `%` always
/// gets a record, named by the link itself.
pub proof fn law_plain_link_names_file(
    url: Seq<char>,
    href: Seq<char>,
    size: Seq<char>,
    date: Seq<char>,
)
    requires
        forall|i: int| 0 <= i < url.len() ==> url[i] != '%',
        forall|i: int| 0 <= i < href.len() ==> href[i] != '%',
    ensures
        file_spec(url, href, size, date) matches Some(f) && f.name == href && f.location == url
            + "/"@ + href && f.platform == platform_for_location(f.location),
{
    let location = url + "/"@ + href;
    reveal_strlit("/");
    assert forall|i: int| 0 <= i < location.len() implies location[i] != '%' by {
        if i < url.len() {
            assert(location[i] == url[i]);
        } else if i == url.len() {
            assert(location[i] == '/');
        } else {
            assert(location[i] == href[i - url.len() - 1]);
        }
    }
    law_plain_text_decodes_to_itself(location);
    law_plain_text_decodes_to_itself(href);
}

/// The record of the file `href` (already trimmed of slashes) listed in the
/// directory `url`: its location is `url/href`, its id the default hash of the
/// location, its name the decoded link, and its platform the one that the
/// decoded location names. `None` where the location or the link does not
/// percent-decode to text.
pub fn file_record(url: &str, href: &str, size: &str, date: &str) -> (r: Option<File>)
    ensures
        match r {
            Some(f) => file_spec(url@, href@, size@, date@) == Some(f@),
            None => file_spec(url@, href@, size@, date@) is None,
        },
{
    let location = join_path(url, href);
    let decoded_location = match url_decode(location.as_str()) {
        Some(d) => d,
        None => return None,
    };
    let platform = match PlatformKind::from_name(decoded_location) {
        Some(kind) => Platform::for_kind(&kind),
        None => None,
    };
    let name = match url_decode(href) {
        Some(n) => n,
        None => return None,
    };
    let id = hash_text(location.as_str());
    Some(
        File {
            id,
            name,
            location,
            size: Some(String::from_str(size)),
            date: Some(String::from_str(date)),
            platform,
        },
    )
}


/// The rows of a listing as mathematical values.
pub open spec fn rows_view(rows: Seq<ListingRow>) -> Seq<ListingRowView> {
    rows.map_values(|r: ListingRow| r@)
}

/// The listing with nothing in it.
pub open spec fn empty_listing() -> ListingView {
    ListingView { files: Seq::empty(), directories: Seq::empty() }
}

/// What one more row adds to the listing `prev` of directory `url`: its link
/// is trimmed of slashes; a subdirectory adds `url/href` to the directories, a
/// file adds its record (and makes the whole listing fail where the record
/// cannot be made), and the parent link adds nothing.
pub open spec fn listing_step(url: Seq<char>, prev: ListingView, row: ListingRowView) -> Option<
    ListingView,
> {
    let href = trim_char(row.href, '/');
    match row_kind_spec(row.size, href) {
        RowKind::Directory => Some(
            ListingView {
                files: prev.files,
                directories: prev.directories.push(url + "/"@ + href),
            },
        ),
        RowKind::File => match file_spec(url, href, row.size, row.date) {
            Some(f) => Some(ListingView { files: prev.files.push(f), directories: prev.directories }),
            None => None,
        },
        RowKind::Parent => Some(prev),
    }
}

/// The listing that the rows of directory `url` make, row by row in order;
/// nothing where some file row cannot be made into a record.
pub open spec fn listing_spec(url: Seq<char>, rows: Seq<ListingRowView>) -> Option<ListingView>
    decreases rows.len(),
{
    if rows.len() == 0 {
        Some(empty_listing())
    } else {
        match listing_spec(url, rows.drop_last()) {
            Some(prev) => listing_step(url, prev, rows.last()),
            None => None,
        }
    }
}

/// What a listing of directory `url` yields lies inside it: each
/// subdirectory to visit is `url/name`, each file's location is `url/name`
/// and its id the default hash of that location, and no row yields more than
/// one entry.
pub proof fn law_listing_stays_inside(url: Seq<char>, rows: Seq<ListingRowView>)
    ensures
        listing_spec(url, rows) matches Some(l) ==> {
            &&& forall|d: int|
                0 <= d < l.directories.len() ==> exists|name: Seq<char>|
                    #[trigger] l.directories[d] == url + "/"@ + name
            &&& forall|f: int|
                0 <= f < l.files.len() ==> {
                    &&& exists|name: Seq<char>| #[trigger] l.files[f].location == url + "/"@ + name
                    &&& l.files[f].id == default_hash(l.files[f].location)
                }
            &&& l.files.len() + l.directories.len() <= rows.len()
        },
    decreases rows.len(),
{
    if rows.len() > 0 {
        law_listing_stays_inside(url, rows.drop_last());
        if let Some(prev) = listing_spec(url, rows.drop_last()) {
            let row = rows.last();
            let href = trim_char(row.href, '/');
            if let Some(l) = listing_spec(url, rows) {
                match row_kind_spec(row.size, href) {
                    RowKind::Directory => {
                        assert forall|d: int| 0 <= d < l.directories.len() implies exists|
                            name: Seq<char>,
                        | #[trigger] l.directories[d] == url + "/"@ + name by {
                            if d == l.directories.len() - 1 {
                                assert(l.directories[d] == url + "/"@ + href);
                            } else {
                                assert(l.directories[d] == prev.directories[d]);
                            }
                        }
                    },
                    RowKind::File => {
                        assert forall|f: int| 0 <= f < l.files.len() implies {
                            &&& exists|name: Seq<char>| #[trigger] l.files[f].location == url
                                + "/"@ + name
                            &&& l.files[f].id == default_hash(l.files[f].location)
                        } by {
                            if f == l.files.len() - 1 {
                                assert(l.files[f].location == url + "/"@ + href);
                            } else {
                                assert(l.files[f] == prev.files[f]);
                            }
                        }
                    },
                    RowKind::Parent => {},
                }
            }
        }
    }
}

/// File record `f` was made from `row` of the listing of directory `url`: it
/// carries the row's size and date texts, and its location is the row's link
/// (trimmed of slashes) under `url`.
pub open spec fn file_from_row(f: FileView, url: Seq<char>, row: ListingRowView) -> bool {
    &&& f.size == Some(row.size)
    &&& f.date == Some(row.date)
    &&& f.location == url + "/"@ + trim_char(row.href, '/')
}

/// The row that the `f`-th file of a listing comes from.
pub proof fn lemma_file_row(url: Seq<char>, rows: Seq<ListingRowView>, f: int) -> (i: int)
    requires
        listing_spec(url, rows) is Some,
        0 <= f < listing_spec(url, rows).unwrap().files.len(),
    ensures
        0 <= i < rows.len(),
        file_from_row(listing_spec(url, rows).unwrap().files[f], url, rows[i]),
    decreases rows.len(),
{
    let prev_rows = rows.drop_last();
    let prev = listing_spec(url, prev_rows).unwrap();
    let l = listing_spec(url, rows).unwrap();
    let row = rows.last();
    let href = trim_char(row.href, '/');
    if f < prev.files.len() {
        assert(l.files[f] == prev.files[f]);
        let i = lemma_file_row(url, prev_rows, f);
        assert(rows[i] == prev_rows[i]);
        i
    } else {
        assert(row_kind_spec(row.size, href) == RowKind::File);
        (rows.len() - 1) as int
    }
}

/// Some row of `rows` is the one that file record `f` was made from.
pub open spec fn comes_from_a_row(f: FileView, url: Seq<char>, rows: Seq<ListingRowView>) -> bool {
    exists|i: int| 0 <= i < rows.len() && #[trigger] file_from_row(f, url, rows[i])
}

/// Every file that a listing yields comes from one of its rows and carries
/// that row's size text, date text and link.
pub proof fn law_files_carry_their_row(url: Seq<char>, rows: Seq<ListingRowView>)
    ensures
        listing_spec(url, rows) matches Some(l) ==> forall|f: int|
            0 <= f < l.files.len() ==> #[trigger] comes_from_a_row(l.files[f], url, rows),
{
    if let Some(l) = listing_spec(url, rows) {
        assert forall|f: int| 0 <= f < l.files.len() implies #[trigger] comes_from_a_row(
            l.files[f],
            url,
            rows,
        ) by {
            let i = lemma_file_row(url, rows, f);
        }
    }
}

/// Once a prefix of the rows fails, the whole listing fails.
pub proof fn lemma_listing_failure_persists(url: Seq<char>, rows: Seq<ListingRowView>, i: int)
    requires
        0 <= i <= rows.len(),
        listing_spec(url, rows.take(i)) is None,
    ensures
        listing_spec(url, rows) is None,
    decreases rows.len() - i,
{
    if i == rows.len() {
        assert(rows.take(i) =~= rows);
    } else {
        assert(rows.take(i + 1).drop_last() =~= rows.take(i));
        lemma_listing_failure_persists(url, rows, i + 1);
    }
}

/// Reads the rows of the listing of directory `url`: subdirectory rows give
/// the URLs to visit, file rows the records to index (see `listing_spec`).
/// `None` where a file row's location or link does not percent-decode.
pub fn read_listing(url: &str, rows: &Vec<ListingRow>) -> (r: Option<Listing>)
    ensures
        match r {
            Some(l) => listing_spec(url@, rows_view(rows@)) == Some(l@),
            None => listing_spec(url@, rows_view(rows@)) is None,
        },
{
    let ghost rv = rows_view(rows@);
    let mut files: Vec<File> = Vec::new();
    let mut directories: Vec<String> = Vec::new();
    let mut i: usize = 0;
    assert(rv.take(0) =~= Seq::<ListingRowView>::empty());
    assert(files@.map_values(|f: File| f@) =~= Seq::<FileView>::empty());
    assert(directories.deep_view() =~= Seq::<Seq<char>>::empty());
    while i < rows.len()
        invariant
            rv == rows_view(rows@),
            i <= rows.len(),
            listing_spec(url@, rv.take(i as int)) == Some(Listing { files, directories }@),
        decreases rows.len() - i,
    {
        let row = &rows[i];
        assert(rv.take(i + 1).drop_last() =~= rv.take(i as int));
        assert(rv.take(i + 1).last() == row@);
        let href = trim_slashes(row.href.as_str());
        let kind = row_kind(row.size.as_str(), href.as_str());
        match kind {
            RowKind::Directory => {
                let ghost prev = directories.deep_view();
                directories.push(join_path(url, href.as_str()));
                assert(directories.deep_view() =~= prev.push(url@ + "/"@ + href@));
            },
            RowKind::File => {
                match file_record(url, href.as_str(), row.size.as_str(), row.date.as_str()) {
                    Some(f) => {
                        let ghost prev = files@.map_values(|f: File| f@);
                        files.push(f);
                        assert(files@.map_values(|f: File| f@) =~= prev.push(f@));
                    },
                    None => {
                        proof {
                            lemma_listing_failure_persists(url@, rv, i + 1);
                        }
                        return None;
                    },
                }
            },
            RowKind::Parent => {},
        }
        i = i + 1;
    }
    assert(rv.take(rows.len() as int) =~= rv);
    Some(Listing { files, directories })
}

} // verus!
