use web_reader::book::Book;

#[test]
fn book_new_keeps_fields() {
    let b = Book::new("s".to_string(), "u".to_string(), "n".to_string(), None, true);
    assert_eq!(b.source, "s");
    assert_eq!(b.url, "u");
    assert_eq!(b.name, "n");
    assert_eq!(b.image, None);
    assert!(b.in_library);
}
