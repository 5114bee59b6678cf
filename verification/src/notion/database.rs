use crate::error::{outcome, CommErr, Failure};
use crate::json::{Json, JsonValue};
use crate::notion::page::{page_of, Page, PageView};
use crate::notion::NewImp;
use vstd::prelude::*;
use vstd::string::StringExecFns;

verus! {

/// The pages that one query of a database returned.
#[derive(Clone, Debug, PartialEq, Eq)]
pub struct Database {
    pub page_list: Vec<Page>,
}

/// The mathematical value of a list of pages.
pub open spec fn pages_view(pages: Seq<Page>) -> Seq<PageView> {
    pages.map_values(|page: Page| page@)
}

impl View for Database {
    type V = Seq<PageView>;

    open spec fn view(&self) -> Seq<PageView> {
        pages_view(self.page_list@)
    }
}

/// The pages that a list of JSON page objects denotes, in their order. The
/// first object that denotes no page fails the whole.
pub open spec fn pages_of(items: Seq<JsonValue>) -> Result<Seq<PageView>, Failure>
    decreases items.len(),
{
    if items.len() == 0 {
        Ok(Seq::empty())
    } else {
        match pages_of(items.drop_last()) {
            Err(failure) => Err(failure),
            Ok(before) => match page_of(items.last()) {
                Err(failure) => Err(failure),
                Ok(page) => Ok(before.push(page)),
            },
        }
    }
}

/// The pages that the response to a database query denotes: those of its
/// `"results"` array.
pub open spec fn database_of(response: JsonValue) -> Result<Seq<PageView>, Failure> {
    match response.field("results"@) {
        Some(JsonValue::Array(items)) => pages_of(items),
        _ => Err(Failure::MissingField("results"@)),
    }
}

/// Once a prefix of the page objects fails, the whole list fails in the same
/// way.
proof fn lemma_pages_fail(items: Seq<JsonValue>, n: int)
    requires
        0 <= n <= items.len(),
        pages_of(items.take(n)) is Err,
    ensures
        pages_of(items) == pages_of(items.take(n)),
    decreases items.len() - n,
{
    if n == items.len() {
        assert(items.take(n) =~= items);
    } else {
        assert(items.take(n + 1).drop_last() =~= items.take(n));
        lemma_pages_fail(items, n + 1);
    }
}

impl NewImp for Database {
    open spec fn denoted(val: JsonValue) -> Result<Seq<PageView>, Failure> {
        database_of(val)
    }

    /// Extracts the pages from the response to a database query, as
    /// [`Database::from_remote`] does.
    fn new(val: &Json) -> (made: Result<Database, CommErr>) {
        Database::from_remote(val)
    }
}

impl Database {
    /// Extracts the pages from the response to a database query.
    ///
    /// Fails with `MissingField("results")` where the response holds no array
    /// of that name, and as the extraction of a page fails where one of the
    /// results denotes no page.
    pub fn from_remote(response: &Json) -> (made: Result<Database, CommErr>)
        ensures
            outcome(made) == database_of(response@),
    {
        let results = match response.get("results") {
            Some(results) => results,
            None => {
                return Err(CommErr::MissingField(String::from_str("results")));
            },
        };
        match results {
            Json::Array(list) => {
                let ghost items = results@->Array_0;
                let mut page_list: Vec<Page> = Vec::new();
                let mut i: usize = 0;
                assert(pages_view(page_list@) =~= Seq::empty());
                assert(items.take(0) =~= Seq::empty());
                while i < list.len()
                    invariant
                        i <= list.len(),
                        response@.field("results"@) == Some(JsonValue::Array(items)),
                        items.len() == list.len(),
                        forall|k: int| 0 <= k < list.len() ==> items[k] == #[trigger] list[k]@,
                        pages_of(items.take(i as int)) == Ok::<Seq<PageView>, Failure>(
                            pages_view(page_list@),
                        ),
                    decreases list.len() - i,
                {
                    proof {
                        let next = items.take(i as int + 1);
                        assert(next.drop_last() =~= items.take(i as int));
                        assert(next.last() == items[i as int]);
                    }
                    let ghost before = page_list@;
                    match Page::new(&list[i]) {
                        Ok(page) => {
                            page_list.push(page);
                            proof {
                                assert(pages_view(page_list@) =~= pages_view(before).push(page@));
                            }
                        },
                        Err(error) => {
                            proof {
                                lemma_pages_fail(items, i as int + 1);
                            }
                            return Err(error);
                        },
                    }
                    i += 1;
                }
                proof {
                    assert(items.take(i as int) =~= items);
                }
                Ok(Database { page_list })
            },
            _ => Err(CommErr::MissingField(String::from_str("results"))),
        }
    }
}

} // verus!
