use vstd::prelude::*;
use vstd::string::*;

verus! {

/// How the crawler fills the search index.
#[derive(Debug)]
pub struct CrawlSettings {
    /// The archive's top directory, where the crawl starts.
    pub root_url: String,
    /// The index that file records go to.
    pub index: String,
    /// The record field that identifies a file.
    pub primary_key: String,
    /// The record fields that queries search.
    pub searchable_attributes: Vec<String>,
    /// The record fields that results can be sorted by.
    pub sortable_attributes: Vec<String>,
    /// How many subdirectories are visited at a time.
    pub concurrency: usize,
    /// How often a failed request is retried.
    pub max_retries: u32,
}

/// The crawler's settings.
pub fn crawl_settings() -> (s: CrawlSettings)
    ensures
        s.root_url@ == "https://myrient.erista.me/files"@,
        s.index@ == "files"@,
        s.primary_key@ == "id"@,
        s.searchable_attributes.deep_view() == seq!["name"@, "platform"@, "tags"@, "location"@],
        s.sortable_attributes.deep_view() == seq!["platform.weight"@],
        s.concurrency == 25,
        s.max_retries == 3,
{
    let mut searchable: Vec<String> = Vec::new();
    searchable.push(String::from_str("name"));
    searchable.push(String::from_str("platform"));
    searchable.push(String::from_str("tags"));
    searchable.push(String::from_str("location"));
    let mut sortable: Vec<String> = Vec::new();
    sortable.push(String::from_str("platform.weight"));
    assert(searchable.deep_view() =~= seq!["name"@, "platform"@, "tags"@, "location"@]);
    assert(sortable.deep_view() =~= seq!["platform.weight"@]);
    CrawlSettings {
        root_url: String::from_str("https://myrient.erista.me/files"),
        index: String::from_str("files"),
        primary_key: String::from_str("id"),
        searchable_attributes: searchable,
        sortable_attributes: sortable,
        concurrency: 25,
        max_retries: 3,
    }
}

} // verus!
