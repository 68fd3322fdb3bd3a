use web_reader::book::Book;
use web_reader::chapter::Chapter;
use web_reader::failure::FailureKind;
use web_reader::source::{RoyalRoadSource, Source};

const SEARCH_PAGE: &str = r#"<!DOCTYPE html>
<html><head><title>Search</title></head><body>
<div class="fiction-list">
  <div class="row fiction-list-item">
    <figure><a href="/fiction/1/first"><img src="/covers/1.png"></a></figure>
    <div><h2 class="fiction-title"><a href="/fiction/1/first" class="bold">First</a></h2>
    <p>About the first.</p></div>
  </div>
  <div class="row fiction-list-item">
    <div><h2 class="fiction-title"><a href="/fiction/2/second" class="bold">Second</a></h2></div>
  </div>
</div>
</body></html>"#;

#[test]
fn search_returns_the_listed_urls_in_page_order() {
    let source = RoyalRoadSource::new();
    assert_eq!(
        source.search_url("foo"),
        "https://www.royalroad.com/fictions/search?title=foo"
    );
    let found = source.search(SEARCH_PAGE).unwrap();
    assert_eq!(
        found,
        vec![
            "https://www.royalroad.com/fiction/1/first".to_string(),
            "https://www.royalroad.com/fiction/2/second".to_string(),
        ]
    );
}

#[test]
fn search_url_writes_spaces_as_plus_signs() {
    let source = RoyalRoadSource::new();
    assert_eq!(
        source.search_url("the long  road"),
        "https://www.royalroad.com/fictions/search?title=the+long++road"
    );
    assert_eq!(
        source.search_url(""),
        "https://www.royalroad.com/fictions/search?title="
    );
    assert_eq!(
        source.search_url("caf\u{e9} au+lait"),
        "https://www.royalroad.com/fictions/search?title=caf\u{e9}+au+lait"
    );
}

#[test]
fn search_without_matches_is_empty_and_no_failure() {
    let source = RoyalRoadSource::new();
    let page = "<html><body><div class=\"fiction-list\"></div><h2><a href=\"/x\">x</a></h2></body></html>";
    assert_eq!(source.search(page).unwrap(), Vec::<String>::new());
    assert_eq!(source.search("").unwrap(), Vec::<String>::new());
}

#[test]
fn search_skips_an_entry_without_a_link_target() {
    let source = RoyalRoadSource::new();
    let page = r#"<html><body>
<div class="fiction-list-item"><h2><a>No target</a><a href="/fiction/later">Later</a></h2></div>
<div class="fiction-list-item"><h2>No link at all</h2></div>
<div class="fiction-list-item"><h2><a href="/fiction/3">Three</a></h2><h2><a href="/fiction/4">Four</a></h2></div>
</body></html>"#;
    assert_eq!(
        source.search(page).unwrap(),
        vec!["https://www.royalroad.com/fiction/3".to_string()]
    );
}

#[test]
fn search_fails_on_an_entry_without_a_heading() {
    let source = RoyalRoadSource::new();
    let page = r#"<html><body>
<div class="fiction-list-item"><h2><a href="/fiction/1">One</a></h2></div>
<div class="fiction-list-item"><p>broken</p></div>
</body></html>"#;
    let failure = source.search(page).unwrap_err();
    assert_eq!(failure.kind, FailureKind::Parse);
}

#[test]
fn search_reads_only_the_heading_inside_each_entry() {
    let source = RoyalRoadSource::new();
    let page = r#"<html><body>
<h2><a href="/outside">Outside</a></h2>
<div class="fiction-list-item"><a href="/fiction/not-in-heading">x</a><h2><span><a href="/fiction/5">Five</a></span></h2></div>
</body></html>"#;
    assert_eq!(
        source.search(page).unwrap(),
        vec!["https://www.royalroad.com/fiction/5".to_string()]
    );
}

#[test]
fn search_addresses_puts_the_host_in_front() {
    let targets = vec![Some("/a".to_string()), None, Some("".to_string()), Some("/b".to_string())];
    assert_eq!(
        RoyalRoadSource::search_addresses(&targets),
        vec![
            "https://www.royalroad.com/a".to_string(),
            "https://www.royalroad.com".to_string(),
            "https://www.royalroad.com/b".to_string(),
        ]
    );
    assert_eq!(RoyalRoadSource::search_addresses(&vec![]), Vec::<String>::new());
}

const BOOK_PAGE: &str = r#"<html><body>
<div class="fic-header">
  <img class="thumbnail inline-block" src="https://cdn.example/covers/9.jpg">
  <h1 class="font-white">The <em>Ninth</em> Road</h1>
  <h1 class="font-white">Second title</h1>
</div>
</body></html>"#;

#[test]
fn scrape_book_reads_name_and_cover() {
    let source = RoyalRoadSource::new();
    let url = "https://www.royalroad.com/fiction/9".to_string();
    let book = source.scrape_book(url.clone(), BOOK_PAGE).unwrap();
    assert_eq!(
        book,
        Book::new(
            "https://www.royalroad.com".to_string(),
            url,
            "The Ninth Road".to_string(),
            Some("https://cdn.example/covers/9.jpg".to_string()),
            false,
        )
    );
}

#[test]
fn scrape_book_without_a_name_fails() {
    let source = RoyalRoadSource::new();
    let page = r#"<html><body><h1>Plain</h1><img class="thumbnail" src="/c.png"></body></html>"#;
    let failure = source
        .scrape_book("https://www.royalroad.com/fiction/1".to_string(), page)
        .unwrap_err();
    assert_eq!(failure.kind, FailureKind::Missing);
    assert_eq!(failure.description(), "Failed to retrieve name");
    let failure = source.scrape_book("u".to_string(), "").unwrap_err();
    assert_eq!(failure.kind, FailureKind::Missing);
}

#[test]
fn scrape_book_with_an_empty_name_fails() {
    let source = RoyalRoadSource::new();
    let page = r#"<html><body><h1 class="font-white"></h1><h1 class="font-white">Later</h1></body></html>"#;
    let failure = source.scrape_book("u".to_string(), page).unwrap_err();
    assert_eq!(failure.kind, FailureKind::Missing);
}

#[test]
fn scrape_book_reads_the_providers_no_cover_as_absent() {
    let source = RoyalRoadSource::new();
    let page = r#"<html><body><h1 class="font-white">N</h1>
<img class="thumbnail" src="/dist/img/nocover-new-min.png"></body></html>"#;
    let book = source.scrape_book("u".to_string(), page).unwrap();
    assert_eq!(book.image, None);
    assert_eq!(book.name, "N");
}

#[test]
fn scrape_book_without_a_cover_has_no_image() {
    let source = RoyalRoadSource::new();
    let page = r#"<html><body><h1 class="font-white">N</h1></body></html>"#;
    assert_eq!(source.scrape_book("u".to_string(), page).unwrap().image, None);
    let page = r#"<html><body><h1 class="font-white">N</h1><div class="thumbnail"></div></body></html>"#;
    assert_eq!(source.scrape_book("u".to_string(), page).unwrap().image, None);
}

#[test]
fn book_from_fields_decides_on_the_fields_alone() {
    let failure = RoyalRoadSource::book_from_fields("u".to_string(), None, Some("c".to_string()))
        .unwrap_err();
    assert_eq!(failure.kind, FailureKind::Missing);
    let failure =
        RoyalRoadSource::book_from_fields("u".to_string(), Some("".to_string()), None)
            .unwrap_err();
    assert_eq!(failure.kind, FailureKind::Missing);
    let book =
        RoyalRoadSource::book_from_fields("u".to_string(), Some(" ".to_string()), None).unwrap();
    assert_eq!(
        book,
        Book::new("https://www.royalroad.com".to_string(), "u".to_string(), " ".to_string(), None, false)
    );
    let book = RoyalRoadSource::book_from_fields(
        "u".to_string(),
        Some("n".to_string()),
        Some("/dist/img/nocover-new-min.png".to_string()),
    )
    .unwrap();
    assert_eq!(book.image, None);
    let book = RoyalRoadSource::book_from_fields(
        "u".to_string(),
        Some("n".to_string()),
        Some("/dist/img/nocover-new-min.png?x".to_string()),
    )
    .unwrap();
    assert_eq!(book.image, Some("/dist/img/nocover-new-min.png?x".to_string()));
}

const CHAPTER_PAGE: &str = r#"<html><body>
<h1 class="font-white break-word">Chapter 1: Start</h1>
<div class="nav-buttons">
  <a class="btn" href="/fiction/9/chapter/0"><i class="far fa-chevron-double-left mr-3"></i>Previous</a>
  <a class="btn" href="/fiction/9/chapter/2">Next<i class="far fa-chevron-double-right ml-3"></i></a>
</div>
<div class="chapter-inner chapter-content">
  <p>One.</p>
  <div><p>Two <b>bold</b>.</p></div>
  <span>not a paragraph</span>
  <p></p>
</div>
<p>outside</p>
</body></html>"#;

#[test]
fn scrape_chapter_reads_name_and_next_address() {
    let source = RoyalRoadSource::new();
    let url = "https://www.royalroad.com/fiction/9/chapter/1".to_string();
    let (chapter, next) = source.scrape_chapter(url.clone(), CHAPTER_PAGE).unwrap();
    assert_eq!(chapter, Chapter::new(None, Some("Chapter 1: Start".to_string()), Some(url)));
    assert_eq!(next, Some("/fiction/9/chapter/2".to_string()));
}

#[test]
fn scrape_chapter_of_a_last_chapter_has_no_next() {
    let source = RoyalRoadSource::new();
    let page = r#"<html><body><h1 class="break-word">End</h1>
<button disabled>Next<i class="far fa-chevron-double-right ml-3"></i></button></body></html>"#;
    let (chapter, next) = source.scrape_chapter("u".to_string(), page).unwrap();
    assert_eq!(chapter.name, Some("End".to_string()));
    assert_eq!(next, None);
    let (chapter, next) = source.scrape_chapter("u".to_string(), "<html></html>").unwrap();
    assert_eq!(chapter, Chapter::new(None, None, Some("u".to_string())));
    assert_eq!(next, None);
}

#[test]
fn download_chapter_joins_the_paragraphs() {
    let source = RoyalRoadSource::new();
    let chapter = Chapter::new(None, None, Some("u".to_string()));
    assert_eq!(
        source.download_chapter(&chapter, CHAPTER_PAGE).unwrap(),
        "\nOne.\nTwo bold.\n"
    );
}

#[test]
fn download_chapter_without_url_fails() {
    let source = RoyalRoadSource::new();
    let chapter = Chapter::new(Some(3), Some("n".to_string()), None);
    let failure = source.download_chapter(&chapter, CHAPTER_PAGE).unwrap_err();
    assert_eq!(failure.kind, FailureKind::Precondition);
    assert_eq!(failure.description(), "No url available");
    assert_eq!(chapter.address().unwrap_err().kind, FailureKind::Precondition);
}

#[test]
fn download_chapter_without_content_fails() {
    let source = RoyalRoadSource::new();
    let chapter = Chapter::new(None, None, Some("u".to_string()));
    let failure = source
        .download_chapter(&chapter, "<html><body><p>text</p></body></html>")
        .unwrap_err();
    assert_eq!(failure.kind, FailureKind::Missing);
}

#[test]
fn download_chapter_with_empty_content_is_empty() {
    let source = RoyalRoadSource::new();
    let chapter = Chapter::new(None, None, Some("u".to_string()));
    let page = r#"<html><body><div class="chapter-content">bare text</div></body></html>"#;
    assert_eq!(source.download_chapter(&chapter, page).unwrap(), "");
}

#[test]
fn chapter_body_puts_a_line_break_in_front_of_each_paragraph() {
    assert_eq!(RoyalRoadSource::chapter_body(&vec![]), "");
    assert_eq!(RoyalRoadSource::chapter_body(&vec!["a".to_string()]), "\na");
    assert_eq!(
        RoyalRoadSource::chapter_body(&vec!["a".to_string(), "".to_string(), "b c".to_string()]),
        "\na\n\nb c"
    );
}

#[test]
fn chapter_from_fields_keeps_the_url() {
    let (chapter, next) = RoyalRoadSource::chapter_from_fields(
        "u".to_string(),
        Some("n".to_string()),
        Some("/next".to_string()),
    );
    assert_eq!(chapter, Chapter::new(None, Some("n".to_string()), Some("u".to_string())));
    assert_eq!(next, Some("/next".to_string()));
}

#[test]
fn source_is_printed_with_its_identifier() {
    assert_eq!(
        web_reader::source::debug_text(&RoyalRoadSource::new()),
        "Source{https://www.royalroad.com}"
    );
}

#[test]
fn source_identifier_is_the_host() {
    assert_eq!(RoyalRoadSource::new().as_str(), "https://www.royalroad.com");
    assert_eq!(RoyalRoadSource::default().as_str(), "https://www.royalroad.com");
}

#[test]
fn entry_target_is_the_first_link_of_the_first_heading() {
    let some = |s: &str| Some(s.to_string());
    let failure = RoyalRoadSource::entry_target(&vec![]).unwrap_err();
    assert_eq!(failure.kind, FailureKind::Parse);
    assert_eq!(RoyalRoadSource::entry_target(&vec![vec![]]).unwrap(), None);
    assert_eq!(
        RoyalRoadSource::entry_target(&vec![vec![], vec![some("/later")]]).unwrap(),
        None
    );
    assert_eq!(
        RoyalRoadSource::entry_target(&vec![vec![None, some("/second")]]).unwrap(),
        None
    );
    assert_eq!(
        RoyalRoadSource::entry_target(&vec![vec![some("/a"), some("/b")], vec![some("/c")]])
            .unwrap(),
        some("/a")
    );
}

#[test]
fn search_results_follow_the_entries() {
    let some = |s: &str| Some(s.to_string());
    let entries = vec![
        vec![vec![some("/fiction/1")]],
        vec![vec![]],
        vec![vec![None]],
        vec![vec![some("/fiction/2"), some("/fiction/3")], vec![some("/fiction/4")]],
    ];
    assert_eq!(
        RoyalRoadSource::search_results(&entries).unwrap(),
        vec![
            "https://www.royalroad.com/fiction/1".to_string(),
            "https://www.royalroad.com/fiction/2".to_string(),
        ]
    );
    assert_eq!(RoyalRoadSource::search_results(&vec![]).unwrap(), Vec::<String>::new());
    let broken = vec![vec![vec![some("/fiction/1")]], vec![]];
    assert_eq!(
        RoyalRoadSource::search_results(&broken).unwrap_err().kind,
        FailureKind::Parse
    );
}

#[test]
fn search_keeps_links_with_several_attributes() {
    let source = RoyalRoadSource::new();
    let page = r#"<html><body><div class="fiction-list-item" id="e" data-x="1">
<h2 class="t" id="h" data-y="2"><a class="bold" id="l" data-z="3" href="/fiction/9" rel="next">Nine</a></h2>
</div></body></html>"#;
    for _ in 0..8 {
        assert_eq!(
            source.search(page).unwrap(),
            vec!["https://www.royalroad.com/fiction/9".to_string()]
        );
    }
}

#[test]
fn download_chapter_reads_only_the_first_container() {
    let source = RoyalRoadSource::new();
    let chapter = Chapter::new(None, None, Some("u".to_string()));
    let page = r#"<html><body>
<div class="chapter-content"><p class="a" id="p1">first</p></div>
<div class="chapter-content"><p>second</p></div>
</body></html>"#;
    assert_eq!(source.download_chapter(&chapter, page).unwrap(), "\nfirst");
}
