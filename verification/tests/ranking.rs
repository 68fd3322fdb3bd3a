use fuzzy_matcher::FuzzyMatcher;
use web_reader::book::Book;
use web_reader::data::DataManager;
use web_reader::ranking::{books_like, ranked_by_score};

fn named(name: &str) -> Book {
    Book::new("s".to_string(), format!("u/{}", name), name.to_string(), None, true)
}

fn names(books: &Vec<Book>) -> Vec<String> {
    books.iter().map(|b| b.name.clone()).collect()
}

#[test]
fn ranked_by_score_orders_best_first_and_keeps_ties_in_order() {
    let scored = vec![
        (Some(5), named("a")),
        (None, named("b")),
        (Some(9), named("c")),
        (Some(5), named("d")),
        (Some(-1), named("e")),
        (Some(9), named("f")),
    ];
    assert_eq!(names(&ranked_by_score(&scored)), vec!["c", "f", "a", "d", "e"]);
}

#[test]
fn ranked_by_score_of_nothing_is_empty() {
    assert_eq!(ranked_by_score(&vec![]), vec![]);
    assert_eq!(ranked_by_score(&vec![(None, named("a"))]), vec![]);
}

#[test]
fn ranked_by_score_takes_the_extremes() {
    let scored = vec![
        (Some(i64::MIN), named("low")),
        (Some(i64::MAX), named("high")),
        (Some(0), named("mid")),
    ];
    assert_eq!(names(&ranked_by_score(&scored)), vec!["high", "mid", "low"]);
}

#[test]
fn books_like_leaves_out_what_does_not_match() {
    let books = vec![named("The Wandering Inn"), named("Mother of Learning"), named("Wander")];
    let found = books_like(&books, "wand");
    let found = names(&found);
    assert_eq!(found.len(), 2);
    assert!(found.contains(&"The Wandering Inn".to_string()));
    assert!(found.contains(&"Wander".to_string()));
    assert_eq!(names(&books_like(&books, "zzz")), Vec::<String>::new());
}

#[test]
fn books_like_ranks_as_the_matcher_scores() {
    let matcher = fuzzy_matcher::skim::SkimMatcherV2::default();
    let books = vec![
        named("a long road home"),
        named("road"),
        named("broad"),
        named("the road"),
        named("nothing"),
    ];
    let mut expected: Vec<(i64, String)> = books
        .iter()
        .filter_map(|b| matcher.fuzzy_match(&b.name, "road").map(|s| (s, b.name.clone())))
        .collect();
    expected.sort_by(|a, b| b.0.cmp(&a.0));
    let expected: Vec<String> = expected.into_iter().map(|(_, n)| n).collect();
    assert_eq!(expected.len(), 4);
    assert_eq!(names(&books_like(&books, "road")), expected);
}

#[test]
fn books_like_with_an_empty_term_keeps_all_in_order() {
    let books = vec![named("b"), named("a"), named("c")];
    assert_eq!(names(&books_like(&books, "")), vec!["b", "a", "c"]);
}

#[test]
fn library_search_reads_the_store() {
    let dir = tempfile::tempdir().unwrap();
    let mut manager = DataManager::new();
    assert!(manager.init(dir.path().to_str().unwrap().to_string()).is_empty());
    manager.set_book(&named("Blue Core")).unwrap();
    manager.set_book(&named("Red Moon")).unwrap();
    let mut outside = named("Blue Moon");
    outside.in_library = false;
    manager.set_book(&outside).unwrap();
    let found = manager.get_library_books_like("blue".to_string()).unwrap();
    assert_eq!(names(&found), vec!["Blue Core"]);
    let found = manager.get_library_books_like("moon".to_string()).unwrap();
    assert_eq!(names(&found), vec!["Red Moon"]);
}
