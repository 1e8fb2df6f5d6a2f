//! Books found by the ids of their markets.

use vstd::prelude::*;
use crate::model::BookState;

verus! {

/// Whether one of `books` is the book of the market with this id.
pub open spec fn lists(books: Seq<BookState>, id: Seq<char>) -> bool {
    exists|i: int| 0 <= i < books.len() && (#[trigger] books[i]).market.market_id@ == id
}

/// Where among `books` the book of the market with this id stands.
pub open spec fn index_of(books: Seq<BookState>, id: Seq<char>) -> int {
    choose|i: int| 0 <= i < books.len() && (#[trigger] books[i]).market.market_id@ == id
}

/// The books by the ids of their markets.
pub open spec fn by_id(books: Seq<BookState>) -> Map<Seq<char>, BookState> {
    Map::new(|id: Seq<char>| lists(books, id), |id: Seq<char>| books[index_of(books, id)])
}

/// Whether no two of `books` are books of markets with the same id.
pub open spec fn ids_are_distinct(books: Seq<BookState>) -> bool {
    forall|i: int, j: int|
        0 <= i < j < books.len() ==> (#[trigger] books[i]).market.market_id@ != (
        #[trigger] books[j]).market.market_id@
}

/// Among books with distinct ids, a book is found by the id of its market.
pub proof fn lemma_found_by_id(books: Seq<BookState>, i: int)
    requires
        ids_are_distinct(books),
        0 <= i < books.len(),
    ensures
        lists(books, books[i].market.market_id@),
        index_of(books, books[i].market.market_id@) == i,
        by_id(books)[books[i].market.market_id@] == books[i],
{
    // two books of one id would stand at two indices
    let id = books[i].market.market_id@;
    let j = index_of(books, id);
    if j < i {
        assert(books[j].market.market_id@ != books[i].market.market_id@);
    } else if i < j {
        assert(books[i].market.market_id@ != books[j].market.market_id@);
    }
}

/// A book of a market with a new id is one more entry.
pub proof fn lemma_by_id_push(books: Seq<BookState>, book: BookState)
    requires
        ids_are_distinct(books),
        !lists(books, book.market.market_id@),
    ensures
        ids_are_distinct(books.push(book)),
        by_id(books.push(book)) == by_id(books).insert(book.market.market_id@, book),
{
    let more = books.push(book);
    assert forall|id: Seq<char>| lists(more, id) <==> (lists(books, id) || id
        == book.market.market_id@) by {
        if lists(books, id) {
            let k = index_of(books, id);
            assert(more[k].market.market_id@ == id);
        }
        if id == book.market.market_id@ {
            assert(more[books.len() as int].market.market_id@ == id);
        }
        if lists(more, id) {
            let k = index_of(more, id);
            if k < books.len() {
                assert(books[k].market.market_id@ == id);
            }
        }
    }
}

/// A book that takes the place of the book of the same market replaces its
/// entry and no other.
pub proof fn lemma_by_id_update(books: Seq<BookState>, i: int, book: BookState)
    requires
        ids_are_distinct(books),
        0 <= i < books.len(),
        book.market.market_id@ == books[i].market.market_id@,
    ensures
        ids_are_distinct(books.update(i, book)),
        by_id(books.update(i, book)) == by_id(books).insert(book.market.market_id@, book),
{
    let changed = books.update(i, book);
    assert forall|id: Seq<char>| lists(changed, id) <==> lists(books, id) by {
        if lists(books, id) {
            let k = index_of(books, id);
            assert(changed[k].market.market_id@ == id);
        }
        if lists(changed, id) {
            let k = index_of(changed, id);
            assert(books[k].market.market_id@ == id);
        }
    }
}

/// Books with distinct ids make as many entries as there are books.
pub proof fn lemma_by_id_len(books: Seq<BookState>)
    requires
        ids_are_distinct(books),
    ensures
        by_id(books).dom().finite(),
        by_id(books).len() == books.len(),
    decreases books.len(),
{
    if books.len() == 0 {
        assert(by_id(books) =~= Map::<Seq<char>, BookState>::empty());
    } else {
        let init = books.drop_last();
        let last = books.last();
        if lists(init, last.market.market_id@) {
            let k = index_of(init, last.market.market_id@);
            assert(books[k].market.market_id@ != books[books.len() - 1].market.market_id@);
        }
        lemma_by_id_len(init);
        lemma_by_id_push(init, last);
        assert(init.push(last) =~= books);
    }
}

} // verus!
