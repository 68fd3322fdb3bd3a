use web_reader::book::Book;
use web_reader::failure::{Failure, FailureKind};
use web_reader::store;
use web_reader::thumbnail::{handle_from, thumbnail_from_rows, ImageHandle};

fn book(url: &str, image: Option<&str>, in_library: bool) -> Book {
    Book::new(
        "src".to_string(),
        url.to_string(),
        "name".to_string(),
        image.map(str::to_string),
        in_library,
    )
}

#[test]
fn database_path_joins_location_and_file() {
    assert_eq!(store::database_path(""), "data.db");
    assert_eq!(store::database_path("/tmp/reader"), "/tmp/reader/data.db");
    assert_eq!(store::database_path("/tmp/reader/"), "/tmp/reader/data.db");
    assert_eq!(store::database_path("rel"), "rel/data.db");
    assert_eq!(store::database_path("/"), "/data.db");
    assert_eq!(store::database_path("/caf\u{e9}"), "/caf\u{e9}/data.db");
}

#[test]
fn book_params_are_in_statement_order() {
    assert_eq!(
        store::book_params(&book("u", Some("i"), true)),
        vec!["src", "name", "u", "i", "1"]
    );
    assert_eq!(
        store::book_params(&book("u", None, false)),
        vec!["src", "name", "u", "", "0"]
    );
}

#[test]
fn key_params_hold_the_url() {
    assert_eq!(store::key_params("https://x/y"), vec!["https://x/y"]);
}

#[test]
fn first_row_reads_only_the_first() {
    let rows: Result<Vec<Result<u8, String>>, String> = Ok(vec![]);
    assert_eq!(store::first_row(rows), Ok(None));
    let rows: Result<Vec<Result<u8, String>>, String> = Ok(vec![Ok(7), Err("late".to_string())]);
    assert_eq!(store::first_row(rows), Ok(Some(7)));
    let rows: Result<Vec<Result<u8, String>>, String> =
        Ok(vec![Err("row".to_string()), Ok(1), Ok(2)]);
    assert_eq!(store::first_row(rows), Err("row".to_string()));
    let rows: Result<Vec<Result<u8, String>>, String> = Err("query".to_string());
    assert_eq!(store::first_row(rows), Err("query".to_string()));
}

#[test]
fn book_from_rows_reads_the_placeholder_as_absent() {
    let rows: Result<Vec<Result<Book, String>>, String> =
        Ok(vec![Ok(book("u", Some(""), true)), Ok(book("v", Some("x"), true))]);
    assert_eq!(store::book_from_rows(rows), Ok(Some(book("u", None, true))));
    let rows: Result<Vec<Result<Book, String>>, String> = Ok(vec![Ok(book("u", Some("x"), false))]);
    assert_eq!(store::book_from_rows(rows), Ok(Some(book("u", Some("x"), false))));
    let rows: Result<Vec<Result<Book, String>>, String> = Ok(vec![]);
    assert_eq!(store::book_from_rows(rows), Ok(None));
    let rows: Result<Vec<Result<Book, String>>, String> = Ok(vec![Err("bad".to_string())]);
    assert_eq!(store::book_from_rows(rows), Err("bad".to_string()));
}

#[test]
fn library_from_rows_skips_unreadable_and_unflagged_rows() {
    let rows: Vec<Result<Book, String>> = vec![
        Ok(book("a", Some(""), true)),
        Err("bad".to_string()),
        Ok(book("b", Some("i"), false)),
        Ok(book("c", Some("i"), true)),
    ];
    assert_eq!(
        store::library_from_rows(&rows),
        vec![book("a", None, true), book("c", Some("i"), true)]
    );
    let none: Vec<Result<Book, String>> = vec![];
    assert_eq!(store::library_from_rows(&none), vec![]);
}

#[test]
fn failures_keeps_the_failures_in_order() {
    let outcomes: Vec<Result<usize, Failure>> = vec![
        Ok(0),
        Err(Failure::new(FailureKind::Schema, "one".to_string())),
        Ok(0),
        Err(Failure::new(FailureKind::Query, "two".to_string())),
    ];
    assert_eq!(
        store::failures(&outcomes),
        vec![
            Failure::new(FailureKind::Schema, "one".to_string()),
            Failure::new(FailureKind::Query, "two".to_string()),
        ]
    );
    let fine: Vec<Result<usize, Failure>> = vec![Ok(1), Ok(2)];
    assert_eq!(store::failures(&fine), vec![]);
}

#[test]
fn normalized_turns_only_the_empty_image_into_none() {
    assert_eq!(book("u", Some(""), true).normalized(), book("u", None, true));
    assert_eq!(book("u", Some(" "), true).normalized(), book("u", Some(" "), true));
    assert_eq!(book("u", None, false).normalized(), book("u", None, false));
}

#[test]
fn cover_url_needs_an_image() {
    assert_eq!(book("u", Some("https://i"), true).cover_url().unwrap(), "https://i");
    let failure = book("u", None, true).cover_url().unwrap_err();
    assert_eq!(failure.kind, FailureKind::Precondition);
    assert_eq!(failure.description(), "No image url");
}

#[test]
fn clones_are_equal() {
    let b = book("u", Some("i"), true);
    assert_eq!(b.clone(), b);
    let f = Failure::new(FailureKind::Network, "down".to_string());
    assert_eq!(f.clone(), f);
    assert_eq!(Failure::network("n").kind, FailureKind::Network);
    assert_eq!(Failure::parse("p").kind, FailureKind::Parse);
    assert_eq!(Failure::missing("m").description(), "m");
}

#[test]
fn thumbnail_from_rows_reads_the_first_blob() {
    let rows: Result<Vec<Result<Vec<u8>, String>>, String> = Ok(vec![Ok(vec![1, 2]), Ok(vec![3])]);
    assert_eq!(thumbnail_from_rows(rows), Ok(Some(bytes::Bytes::from(vec![1u8, 2]))));
    let rows: Result<Vec<Result<Vec<u8>, String>>, String> = Ok(vec![]);
    assert_eq!(thumbnail_from_rows(rows), Ok(None));
    let rows: Result<Vec<Result<Vec<u8>, String>>, String> = Err("q".to_string());
    assert_eq!(thumbnail_from_rows(rows), Err("q".to_string()));
}

#[test]
fn handle_from_falls_back_to_the_stock_cover() {
    match handle_from(Ok(Some(bytes::Bytes::from(vec![5u8])))) {
        ImageHandle::Memory(bytes) => assert_eq!(bytes, bytes::Bytes::from(vec![5u8])),
        ImageHandle::Path(_) => panic!("expected bytes"),
    }
    match handle_from(Ok(None)) {
        ImageHandle::Path(path) => assert_eq!(path, "res/covers/rr-image.png"),
        ImageHandle::Memory(_) => panic!("expected a path"),
    }
    match handle_from(Err(Failure::new(FailureKind::Query, "q".to_string()))) {
        ImageHandle::Path(path) => assert_eq!(path, "res/covers/rr-image.png"),
        ImageHandle::Memory(_) => panic!("expected a path"),
    }
}

#[test]
fn grid_columns_fit_the_width() {
    use_grid(0, 16, 4, 1, 0);
    use_grid(196, 16, 4, 1, 0);
    use_grid(379, 16, 4, 1, 0);
    use_grid(380, 16, 4, 2, 4);
    use_grid(400, 16, 4, 2, 24);
    use_grid(1000, 16, 4, 5, 21);
    use_grid(1936, 16, 4, 10, 13);
}

fn use_grid(width: usize, margin: u16, gap: u16, columns: usize, spacing: u16) {
    assert_eq!(web_reader::layout::grid_columns(width, margin, gap), (columns, spacing));
}

#[test]
fn grid_spacing_is_cut_to_sixteen_bits() {
    // beside the first card 131820, two more columns of 65910 each, space 65730
    assert_eq!(
        web_reader::layout::grid_columns(132000, 0, 65535),
        (3, (131820usize / 2 - 180) as u16)
    );
    assert_eq!(web_reader::layout::grid_columns(132000, 0, 65535).1, 194);
    assert_eq!(web_reader::layout::grid_columns(usize::MAX, 0, 0).0, (usize::MAX - 180) / 180 + 1);
}

#[test]
fn statements_overwrite_what_is_there_and_insert_what_is_not() {
    assert_eq!(store::book_statement(&Some(1)), store::UPDATE_BOOK);
    assert_eq!(store::book_statement::<u8>(&None), store::INSERT_BOOK);
    assert_eq!(store::thumbnail_statement(&Some(1)), store::UPDATE_THUMBNAIL);
    assert_eq!(store::thumbnail_statement::<u8>(&None), store::INSERT_THUMBNAIL);
    assert!(store::UPDATE_BOOK.starts_with("UPDATE books"));
    assert!(store::INSERT_BOOK.starts_with("INSERT INTO books"));
    assert!(store::UPDATE_THUMBNAIL.starts_with("UPDATE thumbnails"));
    assert!(store::INSERT_THUMBNAIL.starts_with("INSERT INTO thumbnails"));
}

#[test]
fn schema_outcome_fails_on_any_reported_failure() {
    assert_eq!(store::schema_outcome(&vec![]), Ok(()));
    let reported = vec![Failure::new(FailureKind::Connect, "locked".to_string())];
    assert_eq!(
        store::schema_outcome(&reported),
        Err(Failure::new(FailureKind::Schema, "Failed to reinit storage".to_string()))
    );
}

#[test]
fn book_at_takes_only_the_book_asked_for() {
    let asked = "u".to_string();
    assert_eq!(
        store::book_at(&asked, Ok(Some(book("u", None, true)))),
        Ok(Some(book("u", None, true)))
    );
    assert_eq!(
        store::book_at(&asked, Ok(Some(book("v", None, true)))),
        Err(Failure::new(FailureKind::Query, "Row of another book".to_string()))
    );
    assert_eq!(store::book_at(&asked, Ok(None)), Ok(None));
    let failed = Failure::new(FailureKind::Connect, "down".to_string());
    assert_eq!(store::book_at(&asked, Err(failed.clone())), Err(failed));
}
