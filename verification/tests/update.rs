use bytes::Bytes;
use web_reader::book::Book;
use web_reader::data::DataManager;
use web_reader::failure::{Failure, FailureKind};
use web_reader::update::{
    add_book, explore_commands, explore_result, library_toggle, log_failures, refresh_book,
    refresh_thumbnail, update, Command, Message,
};

fn ready(dir: &tempfile::TempDir) -> DataManager {
    let mut manager = DataManager::new();
    assert!(manager.init(dir.path().to_str().unwrap().to_string()).is_empty());
    manager
}

fn book(url: &str, image: Option<&str>, in_library: bool) -> Book {
    Book::new(
        "https://www.royalroad.com".to_string(),
        url.to_string(),
        "name".to_string(),
        image.map(str::to_string),
        in_library,
    )
}

fn thumbnails(dir: &tempfile::TempDir) -> i64 {
    let connection = rusqlite::Connection::open(dir.path().join("data.db")).unwrap();
    connection.query_row("SELECT count(*) FROM thumbnails", [], |row| row.get(0)).unwrap()
}

#[test]
fn explore_result_asks_for_unknown_books_only() {
    let dir = tempfile::tempdir().unwrap();
    let mut manager = ready(&dir);
    manager.set_book(&book("https://www.royalroad.com/fiction/1", None, false)).unwrap();
    let urls = vec![
        "https://www.royalroad.com/fiction/1".to_string(),
        "https://www.royalroad.com/fiction/2".to_string(),
        "https://www.royalroad.com/fiction/3".to_string(),
    ];
    assert_eq!(
        explore_result(&manager, &urls),
        vec![
            Command::RefreshBook("https://www.royalroad.com/fiction/2".to_string()),
            Command::RefreshBook("https://www.royalroad.com/fiction/3".to_string()),
        ]
    );
    assert_eq!(explore_result(&manager, &vec![]), vec![]);
}

#[test]
fn explore_result_logs_failed_lookups() {
    let dir = tempfile::tempdir().unwrap();
    let mut manager = DataManager::new();
    manager.init(dir.path().to_str().unwrap().to_string() + "/missing");
    let commands = explore_result(&manager, &vec!["u".to_string(), "v".to_string()]);
    assert_eq!(commands.len(), 2);
    assert!(matches!(commands[0], Command::LogError(_)));
    assert!(matches!(commands[1], Command::LogError(_)));
}

#[test]
fn explore_commands_follow_the_lookups() {
    let lookups = vec![
        ("a".to_string(), Ok(None)),
        ("b".to_string(), Ok(Some(book("b", None, false)))),
        ("c".to_string(), Err(Failure::new(FailureKind::Query, "broken".to_string()))),
        ("d".to_string(), Ok(None)),
    ];
    assert_eq!(
        explore_commands(&lookups),
        vec![
            Command::RefreshBook("a".to_string()),
            Command::LogError("broken".to_string()),
            Command::RefreshBook("d".to_string()),
        ]
    );
}

#[test]
fn log_failures_logs_each_description() {
    let failures = vec![
        Failure::new(FailureKind::Schema, "one".to_string()),
        Failure::new(FailureKind::Connect, "two".to_string()),
    ];
    assert_eq!(
        log_failures(&failures),
        vec![Command::LogError("one".to_string()), Command::LogError("two".to_string())]
    );
    assert_eq!(log_failures(&vec![]), vec![]);
}

#[test]
fn add_book_writes_through_and_asks_for_the_cover() {
    let dir = tempfile::tempdir().unwrap();
    let mut manager = ready(&dir);
    let b = book("https://www.royalroad.com/fiction/1", Some("https://i/1.png"), false);
    assert_eq!(add_book(&mut manager, b.clone()), vec![Command::RefreshThumbnail(b.clone())]);
    assert_eq!(manager.get_book(&b.url).unwrap(), Some(b));
}

#[test]
fn add_book_logs_a_failed_write() {
    let dir = tempfile::tempdir().unwrap();
    let mut manager = DataManager::new();
    manager.init(dir.path().to_str().unwrap().to_string() + "/missing");
    let commands = add_book(&mut manager, book("u", None, false));
    assert_eq!(commands.len(), 1);
    assert!(matches!(commands[0], Command::LogError(_)));
}

#[test]
fn library_toggle_flips_the_flag_and_keeps_the_cover() {
    let dir = tempfile::tempdir().unwrap();
    let mut manager = ready(&dir);
    let b = book("https://www.royalroad.com/fiction/1", None, false);
    manager.set_book(&b).unwrap();
    manager.set_image_as_bytes_to_cache(&b, Bytes::from(vec![1u8, 2]));
    assert_eq!(thumbnails(&dir), 0);

    assert_eq!(library_toggle(&mut manager, b.clone()), vec![]);
    let stored = manager.get_book(&b.url).unwrap().unwrap();
    assert!(stored.in_library);
    assert_eq!(thumbnails(&dir), 1);
    assert_eq!(manager.get_library_books().unwrap(), vec![stored.clone()]);

    assert_eq!(library_toggle(&mut manager, stored), vec![]);
    assert!(!manager.get_book(&b.url).unwrap().unwrap().in_library);
    assert_eq!(manager.get_library_books().unwrap(), vec![]);
    assert_eq!(thumbnails(&dir), 1);
}

#[test]
fn library_toggle_without_a_cover_stores_none() {
    let dir = tempfile::tempdir().unwrap();
    let mut manager = ready(&dir);
    let b = book("https://www.royalroad.com/fiction/1", None, false);
    assert_eq!(library_toggle(&mut manager, b.clone()), vec![]);
    assert_eq!(thumbnails(&dir), 0);
    assert!(manager.get_book(&b.url).unwrap().unwrap().in_library);
}

#[test]
fn refresh_book_scrapes_what_the_provider_serves() {
    assert_eq!(
        refresh_book("https://www.royalroad.com/fiction/1".to_string()),
        vec![Command::ScrapeBook("https://www.royalroad.com/fiction/1".to_string())]
    );
    assert_eq!(refresh_book("https://example.com/fiction/1".to_string()), vec![]);
    assert_eq!(refresh_book("".to_string()), vec![]);
    assert_eq!(refresh_book("https://www.royalroad.co".to_string()), vec![]);
    assert_eq!(refresh_book("ttps://www.royalroad.com".to_string()), vec![]);
    assert_eq!(
        refresh_book("see https://https://www.royalroad.com\u{e9}".to_string()),
        vec![Command::ScrapeBook("see https://https://www.royalroad.com\u{e9}".to_string())]
    );
}

#[test]
fn refresh_thumbnail_needs_an_image() {
    let with = book("u", Some("https://i/1.png"), false);
    assert_eq!(
        refresh_thumbnail(with.clone()),
        vec![Command::DownloadCover(with, "https://i/1.png".to_string())]
    );
    assert_eq!(refresh_thumbnail(book("u", None, false)), vec![]);
}

#[test]
fn update_runs_a_search_session() {
    let dir = tempfile::tempdir().unwrap();
    let mut manager = DataManager::new();
    let location = dir.path().to_str().unwrap().to_string();
    assert_eq!(update(&mut manager, Message::InitializeStorage(location)), vec![]);
    assert_eq!(
        update(&mut manager, Message::ExploreSearch("iron road".to_string())),
        vec![Command::Search(
            "https://www.royalroad.com/fictions/search?title=iron+road".to_string()
        )]
    );
    let url = "https://www.royalroad.com/fiction/8".to_string();
    assert_eq!(
        update(&mut manager, Message::ExploreResult(vec![url.clone()])),
        vec![Command::RefreshBook(url.clone())]
    );
    assert_eq!(
        update(&mut manager, Message::RefreshBook(url.clone())),
        vec![Command::ScrapeBook(url.clone())]
    );
    let b = book(&url, Some("https://i/8.png"), false);
    assert_eq!(
        update(&mut manager, Message::AddBook(b.clone())),
        vec![Command::RefreshThumbnail(b.clone())]
    );
    assert_eq!(
        update(&mut manager, Message::RefreshThumbnail(b.clone())),
        vec![Command::DownloadCover(b.clone(), "https://i/8.png".to_string())]
    );
    assert_eq!(
        update(&mut manager, Message::AddThumbnail(b.clone(), Bytes::from(vec![7u8]))),
        vec![]
    );
    assert_eq!(thumbnails(&dir), 0);
    assert_eq!(manager.get_image_as_bytes(&b).unwrap(), Some(Bytes::from(vec![7u8])));
    assert_eq!(update(&mut manager, Message::ExploreResult(vec![url.clone()])), vec![]);
    assert_eq!(update(&mut manager, Message::LibraryToggle(b.clone())), vec![]);
    assert_eq!(thumbnails(&dir), 1);
    assert_eq!(update(&mut manager, Message::Ignore), vec![]);
    assert_eq!(update(&mut manager, Message::ClearStorage), vec![]);
    assert_eq!(thumbnails(&dir), 0);
}

#[test]
fn update_logs_storage_failures() {
    let dir = tempfile::tempdir().unwrap();
    let mut manager = DataManager::new();
    let missing = dir.path().to_str().unwrap().to_string() + "/missing";
    let commands = update(&mut manager, Message::InitializeStorage(missing));
    assert_eq!(commands.len(), 1);
    assert!(matches!(commands[0], Command::LogError(_)));
    let commands = update(&mut manager, Message::ClearStorage);
    assert_eq!(commands.len(), 1);
    assert!(matches!(commands[0], Command::LogError(_)));
}
