//! Searching the library by name.
//!
//! Each book's name is scored against the search term by the fuzzy matcher of
//! the `fuzzy-matcher` crate.  Books that do not match are left out; the
//! others are ranked by score, best first, books of equal score in the order
//! in which they came.
use vstd::multiset::Multiset;
use vstd::prelude::*;

use crate::book::{Book, BookView};
use crate::store::books_of;

verus! {

/// The score of `choice` against `pattern` by the skim matcher in its default
/// configuration; `None` where `choice` does not match.
pub uninterp spec fn match_score(choice: Seq<char>, pattern: Seq<char>) -> Option<i64>;

/// `SkimMatcherV2::fuzzy_match` of a matcher in its default configuration.
#[verifier::external_body]
pub(crate) fn fuzzy_score(choice: &str, pattern: &str) -> (score: Option<i64>)
    ensures
        score == match_score(choice@, pattern@),
{
    fuzzy_matcher::FuzzyMatcher::fuzzy_match(
        &fuzzy_matcher::skim::SkimMatcherV2::default(),
        choice,
        pattern,
    )
}

/// A book with its score.
pub type Scored = (i64, BookView);

/// A book with the score of its name, if it has one.
pub type Candidate = (Option<i64>, BookView);

/// Each of `books` with the score of its name against `term`.
pub open spec fn candidates_of(books: Seq<BookView>, term: Seq<char>) -> Seq<Candidate> {
    Seq::new(books.len(), |i: int| (match_score(books[i].name, term), books[i]))
}

/// Where an entry of the given score goes into a ranking: behind the leading
/// entries that score at least as much.
pub open spec fn insertion_point(ranked: Seq<Scored>, score: i64) -> int
    decreases ranked.len(),
{
    if ranked.len() == 0 {
        0
    } else if ranked[0].0 >= score {
        1 + insertion_point(ranked.drop_first(), score)
    } else {
        0
    }
}

/// The ranking of the books that have a score, taken in their order: each one
/// goes behind those before it that score at least as much.
pub open spec fn ranking_of(candidates: Seq<Candidate>) -> Seq<Scored>
    decreases candidates.len(),
{
    if candidates.len() == 0 {
        Seq::empty()
    } else {
        let before = ranking_of(candidates.drop_last());
        match candidates.last().0 {
            Some(score) => before.insert(
                insertion_point(before, score),
                (score, candidates.last().1),
            ),
            None => before,
        }
    }
}

/// The books of a ranking.
pub open spec fn ranked_books(ranked: Seq<Scored>) -> Seq<BookView> {
    ranked.map_values(|entry: Scored| entry.1)
}

/// Whether a ranking goes from the best score down.
pub open spec fn is_descending(ranked: Seq<Scored>) -> bool {
    forall|i: int, j: int| 0 <= i < j < ranked.len() ==> ranked[i].0 >= ranked[j].0
}

/// The views of the entries of a ranking under construction.
pub open spec fn scored_of(entries: Seq<(i64, Book)>) -> Seq<Scored> {
    entries.map_values(|entry: (i64, Book)| (entry.0, entry.1@))
}

/// The views of a list of books with their scores.
pub open spec fn candidates(entries: Seq<(Option<i64>, Book)>) -> Seq<Candidate> {
    entries.map_values(|entry: (Option<i64>, Book)| (entry.0, entry.1@))
}

/// The insertion point lies inside the ranking, behind entries that score at
/// least as much; in a descending ranking, every entry from it on scores
/// less.
pub proof fn lemma_insertion_point(ranked: Seq<Scored>, score: i64)
    ensures
        0 <= insertion_point(ranked, score) <= ranked.len(),
        forall|i: int| 0 <= i < insertion_point(ranked, score) ==> ranked[i].0 >= score,
        insertion_point(ranked, score) < ranked.len() ==> ranked[insertion_point(
            ranked,
            score,
        )].0 < score,
        is_descending(ranked) ==> forall|i: int|
            insertion_point(ranked, score) <= i < ranked.len() ==> ranked[i].0 < score,
    decreases ranked.len(),
{
    if ranked.len() > 0 && ranked[0].0 >= score {
        let rest = ranked.drop_first();
        lemma_insertion_point(rest, score);
        let p = insertion_point(rest, score);
        assert forall|i: int| 0 <= i < p + 1 implies ranked[i].0 >= score by {
            if i > 0 {
                assert(ranked[i] == rest[i - 1]);
            }
        }
        if p < rest.len() {
            assert(ranked[p + 1] == rest[p]);
        }
        if is_descending(ranked) {
            assert(is_descending(rest)) by {
                assert forall|i: int, j: int| 0 <= i < j < rest.len() implies rest[i].0
                    >= rest[j].0 by {
                    assert(rest[i] == ranked[i + 1]);
                    assert(rest[j] == ranked[j + 1]);
                }
            }
            assert forall|i: int| p + 1 <= i < ranked.len() implies ranked[i].0 < score by {
                assert(ranked[i] == rest[i - 1]);
            }
        }
    } else if ranked.len() > 0 {
        if is_descending(ranked) {
            assert forall|i: int| 0 <= i < ranked.len() implies ranked[i].0 < score by {
                if i > 0 {
                    assert(ranked[0].0 >= ranked[i].0);
                }
            }
        }
    }
}

/// The first position whose entry scores less is the insertion point.
pub proof fn lemma_insertion_point_found(ranked: Seq<Scored>, score: i64, p: int)
    requires
        0 <= p <= ranked.len(),
        forall|i: int| 0 <= i < p ==> ranked[i].0 >= score,
        p < ranked.len() ==> ranked[p].0 < score,
    ensures
        insertion_point(ranked, score) == p,
    decreases ranked.len(),
{
    if p > 0 {
        let rest = ranked.drop_first();
        assert(ranked[0].0 >= score);
        assert forall|i: int| 0 <= i < p - 1 implies rest[i].0 >= score by {
            assert(rest[i] == ranked[i + 1]);
        }
        if p - 1 < rest.len() {
            assert(rest[p - 1] == ranked[p]);
        }
        lemma_insertion_point_found(rest, score, p - 1);
    }
}

/// A ranking goes from the best score down, and holds no more entries than
/// there were books.
pub proof fn lemma_ranking_descends(entries: Seq<Candidate>)
    ensures
        is_descending(ranking_of(entries)),
        ranking_of(entries).len() <= entries.len(),
    decreases entries.len(),
{
    if entries.len() > 0 {
        let before = ranking_of(entries.drop_last());
        lemma_ranking_descends(entries.drop_last());
        match entries.last().0 {
            Some(score) => {
                lemma_insertion_point(before, score);
                let p = insertion_point(before, score);
                let after = before.insert(p, (score, entries.last().1));
                assert forall|i: int, j: int| 0 <= i < j < after.len() implies after[i].0
                    >= after[j].0 by {
                    if j < p {
                        assert(after[i] == before[i] && after[j] == before[j]);
                    } else if j == p {
                        assert(after[i] == before[i]);
                    } else if i < p {
                        assert(after[i] == before[i] && after[j] == before[j - 1]);
                    } else if i == p {
                        assert(after[j] == before[j - 1]);
                    } else {
                        assert(after[i] == before[i - 1] && after[j] == before[j - 1]);
                    }
                }
            },
            None => {},
        }
    }
}

/// Each entry of a ranking is one of the books, with its score.
pub proof fn lemma_ranking_members(entries: Seq<Candidate>)
    ensures
        forall|i: int|
            0 <= i < ranking_of(entries).len() ==> exists|j: int|
                0 <= j < entries.len() && entries[j] == (
                    Some((#[trigger] ranking_of(entries)[i]).0),
                    ranking_of(entries)[i].1,
                ),
    decreases entries.len(),
{
    if entries.len() > 0 {
        let shorter = entries.drop_last();
        let before = ranking_of(shorter);
        let after = ranking_of(entries);
        lemma_ranking_members(shorter);
        assert forall|i: int| 0 <= i < after.len() implies exists|j: int|
            0 <= j < entries.len() && entries[j] == (Some((#[trigger] after[i]).0), after[i].1) by {
            let last = entries.len() - 1;
            match entries.last().0 {
                Some(score) => {
                    lemma_insertion_point(before, score);
                    let p = insertion_point(before, score);
                    if i == p {
                        assert(entries[last] == (Some(after[i].0), after[i].1));
                    } else {
                        let k = if i < p {
                            i
                        } else {
                            i - 1
                        };
                        assert(after[i] == before[k]);
                        let j = choose|j: int|
                            0 <= j < shorter.len() && shorter[j] == (
                                Some(before[k].0),
                                before[k].1,
                            );
                        assert(entries[j] == (Some(after[i].0), after[i].1));
                    }
                },
                None => {
                    let j = choose|j: int|
                        0 <= j < shorter.len() && shorter[j] == (Some(before[i].0), before[i].1);
                    assert(entries[j] == (Some(after[i].0), after[i].1));
                },
            }
        }
    }
}

/// Whether each of `books` matches `term`, and the better match comes first.
pub open spec fn is_ranked(books: Seq<BookView>, term: Seq<char>) -> bool {
    &&& forall|i: int| 0 <= i < books.len() ==> match_score(#[trigger] books[i].name, term) is Some
    &&& forall|i: int, j: int|
        0 <= i < j < books.len() ==> match_score(books[i].name, term).unwrap() >= match_score(
            books[j].name,
            term,
        ).unwrap()
}

/// The books found for a term are among the books searched, each one matches
/// the term, and the better match comes first.
pub proof fn lemma_books_like(books: Seq<BookView>, term: Seq<char>)
    ensures
        is_ranked(ranked_books(ranking_of(candidates_of(books, term))), term),
        ranked_books(ranking_of(candidates_of(books, term))).len() <= books.len(),
        forall|i: int|
            0 <= i < ranked_books(ranking_of(candidates_of(books, term))).len() ==> books.contains(
                #[trigger] ranked_books(ranking_of(candidates_of(books, term)))[i],
            ),
{
    let all = candidates_of(books, term);
    let order = ranking_of(all);
    let found = ranked_books(order);
    lemma_ranking_members(all);
    lemma_ranking_descends(all);
    assert forall|i: int| 0 <= i < found.len() implies match_score(
        #[trigger] found[i].name,
        term,
    ) == Some(order[i].0) && books.contains(found[i]) by {
        let j = choose|j: int| 0 <= j < all.len() && all[j] == (Some(order[i].0), order[i].1);
        assert(all[j] == (match_score(books[j].name, term), books[j]));
        assert(found[i] == books[j]);
    }
    assert forall|i: int, j: int| 0 <= i < j < found.len() implies match_score(
        found[i].name,
        term,
    ).unwrap() >= match_score(found[j].name, term).unwrap() by {
        assert(match_score(found[i].name, term) == Some(order[i].0));
        assert(match_score(found[j].name, term) == Some(order[j].0));
    }
}

/// The books that have a score, each as often as it came with one.
pub open spec fn matching(entries: Seq<Candidate>) -> Multiset<Scored>
    decreases entries.len(),
{
    if entries.len() == 0 {
        Multiset::empty()
    } else {
        let before = matching(entries.drop_last());
        match entries.last().0 {
            Some(score) => before.insert((score, entries.last().1)),
            None => before,
        }
    }
}

/// Ranking neither loses nor invents a book: the ranking's entries are the
/// books that have a score.
pub proof fn lemma_ranking_keeps_the_matches(entries: Seq<Candidate>)
    ensures
        ranking_of(entries).to_multiset() == matching(entries),
    decreases entries.len(),
{
    broadcast use vstd::seq_lib::group_to_multiset_ensures;

    if entries.len() > 0 {
        let before = ranking_of(entries.drop_last());
        lemma_ranking_keeps_the_matches(entries.drop_last());
        match entries.last().0 {
            Some(score) => {
                lemma_insertion_point(before, score);
                let p = insertion_point(before, score);
                let entry = (score, entries.last().1);
                vstd::seq_lib::to_multiset_insert(before, p, entry);
            },
            None => {},
        }
    } else {
        assert(ranking_of(entries) =~= Seq::<Scored>::empty());
    }
}

/// Ranks the books that have a score, best first; among equal scores the
/// earlier book comes first.  Books without a score are left out.
pub fn ranked_by_score(scored: &Vec<(Option<i64>, Book)>) -> (ranked: Vec<Book>)
    ensures
        books_of(ranked@) == ranked_books(ranking_of(candidates(scored@))),
{
    let mut entries: Vec<(i64, Book)> = Vec::new();
    let mut i: usize = 0;
    proof {
        assert(candidates(scored@).take(0) =~= Seq::empty());
        assert(scored_of(entries@) =~= Seq::empty());
    }
    while i < scored.len()
        invariant
            i <= scored.len(),
            scored_of(entries@) == ranking_of(candidates(scored@).take(i as int)),
        decreases scored.len() - i,
    {
        proof {
            let all = candidates(scored@);
            assert(all.take(i + 1).drop_last() =~= all.take(i as int));
            assert(all.take(i + 1).last() == (scored@[i as int].0, scored@[i as int].1@));
        }
        if let Some(score) = scored[i].0 {
            let mut p: usize = 0;
            while p < entries.len() && entries[p].0 >= score
                invariant
                    p <= entries.len(),
                    forall|k: int| 0 <= k < p ==> entries@[k].0 >= score,
                decreases entries.len() - p,
            {
                p += 1;
            }
            let ghost before = entries@;
            proof {
                assert forall|k: int| 0 <= k < p implies scored_of(before)[k].0 >= score by {
                    assert(scored_of(before)[k].0 == before[k].0);
                }
                if p < before.len() {
                    assert(scored_of(before)[p as int].0 == before[p as int].0);
                }
                lemma_insertion_point_found(scored_of(before), score, p as int);
            }
            entries.insert(p, (score, scored[i].1.clone()));
            proof {
                assert(scored_of(entries@) =~= scored_of(before).insert(
                    p as int,
                    (score, scored@[i as int].1@),
                ));
            }
        }
        i += 1;
    }
    proof {
        assert(candidates(scored@).take(scored.len() as int) =~= candidates(scored@));
    }
    let mut ranked: Vec<Book> = Vec::new();
    let mut j: usize = 0;
    proof {
        assert(books_of(ranked@) =~= ranked_books(scored_of(entries@)).take(0));
    }
    while j < entries.len()
        invariant
            j <= entries.len(),
            books_of(ranked@) == ranked_books(scored_of(entries@)).take(j as int),
        decreases entries.len() - j,
    {
        let ghost before = ranked@;
        ranked.push(entries[j].1.clone());
        proof {
            assert(books_of(ranked@) =~= books_of(before).push(entries@[j as int].1@));
            assert(ranked_books(scored_of(entries@)).take(j + 1) =~= ranked_books(
                scored_of(entries@),
            ).take(j as int).push(entries@[j as int].1@));
        }
        j += 1;
    }
    proof {
        let all = ranked_books(scored_of(entries@));
        assert(all.take(entries.len() as int) =~= all);
    }
    ranked
}

/// The books among `books` whose name matches `term`, ranked by how well it
/// does.
pub fn books_like(books: &Vec<Book>, term: &str) -> (ranked: Vec<Book>)
    ensures
        books_of(ranked@) == ranked_books(ranking_of(candidates_of(books_of(books@), term@))),
{
    let mut scored: Vec<(Option<i64>, Book)> = Vec::new();
    let mut i: usize = 0;
    proof {
        assert(candidates(scored@) =~= candidates_of(books_of(books@), term@).take(0));
    }
    while i < books.len()
        invariant
            i <= books.len(),
            candidates(scored@) == candidates_of(books_of(books@), term@).take(i as int),
        decreases books.len() - i,
    {
        let ghost before = scored@;
        let score = fuzzy_score(books[i].name.as_str(), term);
        scored.push((score, books[i].clone()));
        proof {
            let all = candidates_of(books_of(books@), term@);
            assert(all[i as int] == (match_score(books@[i as int]@.name, term@), books@[i as int]@));
            assert(candidates(scored@) =~= candidates(before).push((score, books@[i as int]@)));
            assert(candidates(scored@) =~= all.take(i + 1));
        }
        i += 1;
    }
    proof {
        let all = candidates_of(books_of(books@), term@);
        assert(all.take(books.len() as int) =~= all);
    }
    ranked_by_score(&scored)
}

} // verus!
