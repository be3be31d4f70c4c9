use vstd::prelude::*;

use crate::listing::{
    listing_spec, read_listing, rows_view, Listing, ListingRow, ListingRowView, ListingView,
};

verus! {

/// What the HTML table of a page holds, as `scraper` reads it: the page text
/// `html` is parsed as a fragment; for each element matching the selector
/// `entry`, in the order in which `Html::select` yields them, the attribute
/// `attr` of its first element matching `link`, and the first text of its first elements matching `size` and
/// `date` (each `None` where the element, the attribute or the text is
/// missing). `None` where one of the selectors does not parse.
pub uninterp spec fn table_cells(
    html: Seq<char>,
    entry: Seq<char>,
    link: Seq<char>,
    size: Seq<char>,
    date: Seq<char>,
    attr: Seq<char>,
) -> Option<Seq<(Option<Seq<char>>, Option<Seq<char>>, Option<Seq<char>>)>>;

/// Trusted: `scraper::Html::parse_fragment`, `scraper::Selector::parse`,
/// `Html::select`, `ElementRef::select`, `ElementRef::attr` and
/// `ElementRef::text`, with the parsed values turned into text. The contract
/// claims only that the result is `table_cells` of the arguments: the parser
/// reads nothing but them.
#[verifier::external_body]
fn select_cells(html: &str, entry: &str, link: &str, size: &str, date: &str, attr: &str) -> (r:
    Option<
    Vec<(Option<String>, Option<String>, Option<String>)>,
>)
    ensures
        r.deep_view() == table_cells(html@, entry@, link@, size@, date@, attr@),
{
    let doc = scraper::Html::parse_fragment(html);
    let p = |css: &str| scraper::Selector::parse(css).ok();
    let (e, l, s, d) = (p(entry)?, p(link)?, p(size)?, p(date)?);
    let t = |c: Option<scraper::ElementRef>| Some(c?.text().next()?.to_string());
    Some(doc.select(&e).map(|r| (
        r.select(&l).next().and_then(|a| Some(a.attr(attr)?.to_string())),
        t(r.select(&s).next()),
        t(r.select(&d).next()),
    )).collect())
}

/// The table of a directory listing page: the cells of each row of
/// `#list tbody tr`, read from the `href` of its `.link a` element and from its
/// `.size` and `.date` elements.
pub open spec fn listing_cells(html: Seq<char>) -> Option<
    Seq<(Option<Seq<char>>, Option<Seq<char>>, Option<Seq<char>>)>,
> {
    table_cells(html, "#list tbody tr"@, ".link a"@, ".size"@, ".date"@, "href"@)
}

/// Every row has its link target, size and date.
pub open spec fn cells_complete(
    cells: Seq<(Option<Seq<char>>, Option<Seq<char>>, Option<Seq<char>>)>,
) -> bool {
    forall|i: int|
        0 <= i < cells.len() ==> (#[trigger] cells[i]).0 is Some && cells[i].1 is Some
            && cells[i].2 is Some
}

/// The rows that complete cells spell.
pub open spec fn cells_rows(
    cells: Seq<(Option<Seq<char>>, Option<Seq<char>>, Option<Seq<char>>)>,
) -> Seq<ListingRowView> {
    cells.map_values(
        |c: (Option<Seq<char>>, Option<Seq<char>>, Option<Seq<char>>)|
            ListingRowView { href: c.0.unwrap(), size: c.1.unwrap(), date: c.2.unwrap() },
    )
}

/// The rows of the listing table of a page: `None` where the table cannot be
/// read or some row lacks its link target, size or date.
pub open spec fn page_rows(html: Seq<char>) -> Option<Seq<ListingRowView>> {
    match listing_cells(html) {
        Some(cells) => if cells_complete(cells) {
            Some(cells_rows(cells))
        } else {
            None
        },
        None => None,
    }
}

/// The listing that the page `html` of directory `url` reads to: its rows,
/// read as `listing_spec` reads them; `None` where the rows cannot be read.
pub open spec fn page_listing(url: Seq<char>, html: Seq<char>) -> Option<ListingView> {
    match page_rows(html) {
        Some(rows) => listing_spec(url, rows),
        None => None,
    }
}

/// The rows that the cells of a listing table spell: `None` where some row
/// lacks its link target, size or date.
pub fn rows_from_cells(cells: &Vec<(Option<String>, Option<String>, Option<String>)>) -> (r:
    Option<Vec<ListingRow>>)
    ensures
        match r {
            Some(rows) => cells_complete(cells.deep_view()) && rows_view(rows@) == cells_rows(
                cells.deep_view(),
            ),
            None => !cells_complete(cells.deep_view()),
        },
{
    let ghost cv = cells.deep_view();
    let mut rows: Vec<ListingRow> = Vec::new();
    let mut i: usize = 0;
    while i < cells.len()
        invariant
            cv == cells.deep_view(),
            i <= cells.len(),
            forall|j: int|
                0 <= j < i ==> (#[trigger] cv[j]).0 is Some && cv[j].1 is Some && cv[j].2 is Some,
            rows_view(rows@) == cells_rows(cv.take(i as int)),
        decreases cells.len() - i,
    {
        assert(cv[i as int] == cells@[i as int].deep_view());
        let (href, size, date) = match &cells[i] {
            (Some(h), Some(s), Some(d)) => (h.clone(), s.clone(), d.clone()),
            _ => {
                assert(!cells_complete(cv));
                return None;
            },
        };
        let ghost before = rows_view(rows@);
        let row = ListingRow { href, size, date };
        let ghost row_view = row@;
        rows.push(row);
        assert(rows_view(rows@) =~= before.push(row_view));
        assert(cv.take(i + 1) =~= cv.take(i as int).push(cv[i as int]));
        assert(cells_rows(cv.take(i + 1)) =~= cells_rows(cv.take(i as int)).push(row_view));
        i = i + 1;
    }
    assert(cv.take(cells.len() as int) =~= cv);
    Some(rows)
}

/// Reads the table of a directory listing page: for each row of
/// `#list tbody tr`, the `href` of its `.link a` link and the first text of
/// its `.size` and `.date` cells. `None` where a row lacks one of them.
pub fn table_rows(html: &str) -> (r: Option<Vec<ListingRow>>)
    ensures
        match r {
            Some(rows) => page_rows(html@) == Some(rows_view(rows@)),
            None => page_rows(html@) is None,
        },
{
    let cells = select_cells(html, "#list tbody tr", ".link a", ".size", ".date", "href");
    match cells {
        Some(c) => {
            assert(listing_cells(html@) == Some(c.deep_view()));
            rows_from_cells(&c)
        },
        None => None,
    }
}

/// A row that lacks its link target, size or date makes the whole page
/// unreadable, and a page reads to one listing only: the listing is a
/// function of the directory URL and the page text.
pub proof fn law_page_reads_to_one_listing(url: Seq<char>, html: Seq<char>, other: Seq<char>)
    ensures
        listing_cells(html) matches Some(cells) && !cells_complete(cells) ==> page_listing(url, html)
            is None,
        html == other ==> page_listing(url, html) == page_listing(url, other),
{
}

/// Interprets the listing page `html` of directory `url`: the rows that the
/// page's table holds, read as `read_listing` reads them (see `page_listing`).
/// `None` where a row lacks a cell or where a file row does not decode.
pub fn parse_listing(url: &str, html: &str) -> (r: Option<Listing>)
    ensures
        match r {
            Some(l) => page_listing(url@, html@) == Some(l@),
            None => page_listing(url@, html@) is None,
        },
{
    let rows = match table_rows(html) {
        Some(rows) => rows,
        None => return None,
    };
    read_listing(url, &rows)
}

} // verus!
