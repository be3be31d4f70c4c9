use romsearch::crawl::crawl_settings;
use romsearch::listing::File;
use romsearch::platform::{Platform, PlatformKind};
use romsearch::retry::{retry_decision, RequestOutcome, RetryKind};
use romsearch::search::{page_links, platform_cell, result_row, search_query, size_cell, SearchState};

#[test]
fn query_shape() {
    let q = search_query("street fighter -alpha", 3);
    assert_eq!(q.index, "files");
    assert_eq!(q.query, "street fighter -alpha");
    assert_eq!(q.page, 3);
    assert_eq!(q.hits_per_page, 40);
    assert_eq!(q.sort, vec!["platform.weight:desc"]);
}

#[test]
fn state_flow() {
    let mut s = SearchState::new();
    assert_eq!(s.page, 1);
    assert!(s.request().is_none());
    s.on_input("mario".to_string());
    s.on_page(4);
    let q = s.request().unwrap();
    assert_eq!((q.query.as_str(), q.page), ("mario", 4));
    s.on_input("zelda".to_string());
    assert_eq!(s.page, 1);
    assert_eq!(s.request().unwrap().page, 1);
    s.on_input(String::new());
    assert!(s.request().is_none());
}

#[test]
fn pagination_links() {
    assert_eq!(page_links(None), Vec::<usize>::new());
    assert_eq!(page_links(Some(0)), Vec::<usize>::new());
    assert_eq!(page_links(Some(1)), Vec::<usize>::new());
    assert_eq!(page_links(Some(2)), vec![1]);
    assert_eq!(page_links(Some(5)), vec![1, 2, 3, 4]);
}

#[test]
fn cells() {
    assert_eq!(size_cell(&Some("1.5 MiB".to_string())), "1.5MiB");
    assert_eq!(size_cell(&None), "-");
    assert_eq!(platform_cell(&None), "-");
    assert_eq!(platform_cell(&Platform::for_kind(&PlatformKind::GBC)), "GBC");
}

#[test]
fn result_row_of_file() {
    let f = File {
        id: 7,
        name: "Tetris.zip".to_string(),
        location: "https://h/files/Tetris.zip".to_string(),
        size: Some("20 KiB".to_string()),
        date: None,
        platform: Platform::for_kind(&PlatformKind::NES),
    };
    let r = result_row(&f);
    assert_eq!(r.name, "Tetris.zip");
    assert_eq!(r.link, "https://h/files/Tetris.zip");
    assert_eq!(r.platform, "NES");
    assert_eq!(r.size, "20KiB");
}

#[test]
fn retry_rule() {
    assert_eq!(retry_decision(&RequestOutcome::Success), None);
    assert_eq!(
        retry_decision(&RequestOutcome::Failure { has_status: false, default_decision: None }),
        Some(RetryKind::Transient)
    );
    assert_eq!(
        retry_decision(&RequestOutcome::Failure {
            has_status: true,
            default_decision: Some(RetryKind::Fatal)
        }),
        Some(RetryKind::Fatal)
    );
    assert_eq!(
        retry_decision(&RequestOutcome::Failure { has_status: true, default_decision: None }),
        None
    );
}

#[test]
fn settings() {
    let s = crawl_settings();
    assert_eq!(s.root_url, "https://myrient.erista.me/files");
    assert_eq!(s.index, "files");
    assert_eq!(s.primary_key, "id");
    assert_eq!(s.searchable_attributes, vec!["name", "platform", "tags", "location"]);
    assert_eq!(s.sortable_attributes, vec!["platform.weight"]);
    assert_eq!(s.concurrency, 25);
    assert_eq!(s.max_retries, 3);
}
