use vstd::prelude::*;
use vstd::string::*;

use crate::listing::File;
use crate::platform::{kind_name_spec, Platform};
use crate::text::{remove_spaces, without_char};

verus! {

/// Results shown per page.
pub const HITS_PER_PAGE: usize = 40;

/// A search to run against the file index.
#[derive(Debug)]
pub struct SearchQuery {
    /// The index searched.
    pub index: String,
    /// The text typed by the user.
    pub query: String,
    /// The page of results asked for, counted from 1.
    pub page: usize,
    /// How many results a page holds.
    pub hits_per_page: usize,
    /// The sort order: heaviest platforms first.
    pub sort: Vec<String>,
}

/// `q` is the search for `text` at page `page`.
pub open spec fn is_query_for(q: SearchQuery, text: Seq<char>, page: usize) -> bool {
    &&& q.index@ == "files"@
    &&& q.query@ == text
    &&& q.page == page
    &&& q.hits_per_page == HITS_PER_PAGE
    &&& q.sort.deep_view() == seq!["platform.weight:desc"@]
}

/// The search for `text` at page `page`.
pub fn search_query(text: &str, page: usize) -> (q: SearchQuery)
    ensures
        is_query_for(q, text@, page),
{
    let mut sort: Vec<String> = Vec::new();
    sort.push(String::from_str("platform.weight:desc"));
    assert(sort.deep_view() =~= seq!["platform.weight:desc"@]);
    SearchQuery {
        index: String::from_str("files"),
        query: String::from_str(text),
        page,
        hits_per_page: HITS_PER_PAGE,
        sort,
    }
}

/// What the search page holds: the text typed and the page of results shown.
#[derive(Debug)]
pub struct SearchState {
    pub input: String,
    pub page: usize,
}

impl SearchState {
    /// The page as it opens: nothing typed, first page.
    pub fn new() -> (s: SearchState)
        ensures
            s.input@ == Seq::<char>::empty(),
            s.page == 1,
    {
        SearchState { input: String::new(), page: 1 }
    }

    /// The user typed: the new text is searched from the first page.
    pub fn on_input(&mut self, text: String)
        ensures
            final(self).input@ == text@,
            final(self).page == 1,
    {
        self.page = 1;
        self.input = text;
    }

    /// The user picked page `n` of the results; the text stays.
    pub fn on_page(&mut self, n: usize)
        ensures
            final(self).input@ == old(self).input@,
            final(self).page == n,
    {
        self.page = n;
    }

    /// The search to run now: none while nothing is typed, otherwise the
    /// search for the typed text at the current page.
    pub fn request(&self) -> (q: Option<SearchQuery>)
        ensures
            match q {
                Some(q) => self.input@.len() > 0 && is_query_for(q, self.input@, self.page),
                None => self.input@.len() == 0,
            },
    {
        if self.input.as_str().is_empty() {
            None
        } else {
            Some(search_query(self.input.as_str(), self.page))
        }
    }
}

/// The platform column of a result: the kind's name, or `-` when the file
/// has no platform.
pub open spec fn platform_cell_spec(platform: Option<Platform>) -> Seq<char> {
    match platform {
        Some(p) => kind_name_spec(p.kind),
        None => "-"@,
    }
}

/// The size column of a result: the size with its spaces removed, or `-`
/// when the file has no size.
pub open spec fn size_cell_spec(size: Option<Seq<char>>) -> Seq<char> {
    match size {
        Some(s) => without_char(s, ' '),
        None => without_char("-"@, ' '),
    }
}

/// The platform column of a result.
pub fn platform_cell(platform: &Option<Platform>) -> (r: String)
    ensures
        r@ == platform_cell_spec(*platform),
{
    match platform {
        Some(p) => p.kind.name(),
        None => String::from_str("-"),
    }
}

/// The size column of a result.
pub fn size_cell(size: &Option<String>) -> (r: String)
    ensures
        r@ == size_cell_spec(size.deep_view()),
{
    match size {
        Some(s) => remove_spaces(s.as_str()),
        None => remove_spaces("-"),
    }
}

/// One line of the results table.
#[derive(Debug)]
pub struct ResultRow {
    /// The file's name, shown as the link text.
    pub name: String,
    /// Where the link leads: the file's location.
    pub link: String,
    pub platform: String,
    pub size: String,
}

/// The results-table line for a file.
pub fn result_row(file: &File) -> (r: ResultRow)
    ensures
        r.name@ == file.name@,
        r.link@ == file.location@,
        r.platform@ == platform_cell_spec(file.platform),
        r.size@ == size_cell_spec(file.size.deep_view()),
{
    ResultRow {
        name: String::from_str(file.name.as_str()),
        link: String::from_str(file.location.as_str()),
        platform: platform_cell(&file.platform),
        size: size_cell(&file.size),
    }
}

/// The page links under the results: when there is more than one page, the
/// numbers from 1 up to, but not including, the page count; otherwise none.
pub open spec fn page_links_spec(total_pages: Option<usize>) -> Seq<usize> {
    let total = match total_pages {
        Some(t) => t,
        None => 0,
    };
    if total > 1 {
        Seq::new((total - 1) as nat, |i: int| (i + 1) as usize)
    } else {
        Seq::empty()
    }
}

/// The page links count up from 1 without gaps and never reach the page
/// count.
pub proof fn law_page_links_in_range(total_pages: Option<usize>)
    ensures
        forall|i: int|
            0 <= i < page_links_spec(total_pages).len() ==> {
                &&& #[trigger] page_links_spec(total_pages)[i] == i + 1
                &&& total_pages matches Some(t) && page_links_spec(total_pages)[i] < t
            },
{
}

/// The page links under the results (see `page_links_spec`).
pub fn page_links(total_pages: Option<usize>) -> (r: Vec<usize>)
    ensures
        r@ == page_links_spec(total_pages),
{
    let total = match total_pages {
        Some(t) => t,
        None => 0,
    };
    let mut r: Vec<usize> = Vec::new();
    if total > 1 {
        let mut n: usize = 1;
        while n < total
            invariant
                1 <= n <= total,
                r@ == Seq::new((n - 1) as nat, |i: int| (i + 1) as usize),
            decreases total - n,
        {
            r.push(n);
            n = n + 1;
            assert(r@ =~= Seq::new((n - 1) as nat, |i: int| (i + 1) as usize));
        }
    }
    assert(r@ =~= page_links_spec(total_pages));
    r
}

} // verus!
