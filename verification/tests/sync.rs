use notion_sync::entity::contents;
use notion_sync::entity::metas;
use notion_sync::entity::relationships;
use notion_sync::entity::{
    column_seconds, content_at, content_row, is_exist, new_article, timestamp, update_article,
    Command, MetaKind, Reply, Stage, Transaction,
};
use notion_sync::error::CommErr;
use notion_sync::json::parse;
use notion_sync::notion::block::Block;
use notion_sync::notion::page::Page;
use notion_sync::notion::NewImp;

const AUTHOR: &str = "\"Author\":{\"type\":\"created_by\",\"created_by\":{\"id\":\"u1\",\"name\":\"Ann\",\"avatar_url\":\"http://a\",\"type\":\"person\",\"person\":{\"email\":\"ann@example.com\"}}}";
const NAME: &str = "\"Name\":{\"type\":\"title\",\"title\":[{\"plain_text\":\"Hello\"}]}";
const SLUG: &str = "\"Slug\":{\"type\":\"rich_text\",\"rich_text\":[{\"plain_text\":\"hello-world\"}]}";
const LOWER_SLUG: &str =
    "\"slug\":{\"type\":\"rich_text\",\"rich_text\":[{\"plain_text\":\"hello-world\"}]}";
const TAGS: &str =
    "\"Tag\":{\"type\":\"multi_select\",\"multi_select\":[{\"name\":\"rust\"},{\"name\":\"verus\"}]}";
const CATEGORY: &str = "\"Category\":{\"type\":\"select\",\"select\":{\"name\":\"tech\"}}";

fn page_at(created: &str, edited: &str, properties: &[&str]) -> Page {
    let text = format!(
        "{{\"id\":\"page-1\",\"created_time\":\"{}\",\"last_edited_time\":\"{}\",\"archived\":false,\"properties\":{{{}}}}}",
        created,
        edited,
        properties.join(",")
    );
    let mut page = Page::new(&parse(&text).unwrap()).unwrap();
    page.content = Block::new("body".to_string());
    page
}

fn page(properties: &[&str]) -> Page {
    page_at("2023-01-01T00:00:00Z", "2023-01-02T00:00:00+00:00", properties)
}

fn full_page() -> Page {
    page(&[AUTHOR, NAME, SLUG, LOWER_SLUG, TAGS, CATEGORY])
}

/// A store in memory that answers the commands of a transaction.
#[derive(Clone, Debug, PartialEq, Default)]
struct Store {
    contents: Vec<contents::Model>,
    metas: Vec<metas::Model>,
    relationships: Vec<relationships::Model>,
    log: Vec<String>,
}

impl Store {
    fn perform(&mut self, command: &Command) -> Reply {
        match command {
            Command::FindContent(slug) => {
                self.log.push(format!("find content {}", slug));
                Reply::Content(
                    self.contents.iter().find(|row| row.slug.as_ref() == Some(slug)).cloned(),
                )
            }
            Command::InsertContent(row) => {
                let cid = self.contents.len() as u32 + 1;
                self.log.push(format!("insert content {}", cid));
                self.contents.push(contents::Model { cid, ..row.clone() });
                Reply::Inserted(cid)
            }
            Command::UpdateContent(row) => {
                self.log.push(format!("update content {}", row.cid));
                match self.contents.iter_mut().find(|old| old.cid == row.cid) {
                    Some(old) => {
                        *old = row.clone();
                        Reply::Done
                    }
                    None => Reply::Failed("no such content".to_string()),
                }
            }
            Command::FindMeta(name) => {
                self.log.push(format!("find meta {}", name));
                Reply::Meta(self.metas.iter().find(|row| row.name.as_ref() == Some(name)).cloned())
            }
            Command::InsertMeta(row) => {
                let mid = self.metas.len() as u32 + 1;
                self.log.push(format!("insert meta {}", mid));
                self.metas.push(metas::Model { mid, ..row.clone() });
                Reply::Inserted(mid)
            }
            Command::UpdateMeta(row) => {
                self.log.push(format!("update meta {}", row.mid));
                match self.metas.iter_mut().find(|old| old.mid == row.mid) {
                    Some(old) => {
                        *old = row.clone();
                        Reply::Done
                    }
                    None => Reply::Failed("no such meta".to_string()),
                }
            }
            Command::InsertRelationship(row) => {
                self.log.push(format!("insert relationship {} {}", row.cid, row.mid));
                self.relationships.push(*row);
                Reply::Done
            }
            Command::Commit | Command::Rollback(_) => unreachable!(),
        }
    }

    /// Runs a transaction to its end; a rollback restores the rows.
    fn run(&mut self, begun: (Transaction, Command)) -> Result<(), CommErr> {
        let before = self.clone();
        let (mut state, mut command) = begun;
        for _ in 0..1000 {
            match command {
                Command::Commit => {
                    assert!(state.finished());
                    return Ok(());
                }
                Command::Rollback(error) => {
                    assert!(state.finished());
                    self.contents = before.contents;
                    self.metas = before.metas;
                    self.relationships = before.relationships;
                    return Err(error);
                }
                other => {
                    assert!(!state.finished());
                    let reply = self.perform(&other);
                    (state, command) = state.step(reply);
                }
            }
        }
        panic!("the transaction does not end");
    }

    fn count_of(&self, name: &str) -> u32 {
        self.metas.iter().find(|row| row.name.as_deref() == Some(name)).unwrap().count
    }
}

fn meta(mid: u32, name: &str, kind: &str, count: u32) -> metas::Model {
    metas::Model {
        mid,
        name: Some(name.to_string()),
        slug: Some(String::new()),
        mtype: Some(kind.to_string()),
        count,
        order: 0,
        parent: 0,
    }
}

fn row_of_full_page(cid: u32) -> contents::Model {
    contents::Model {
        cid,
        title: Some("Hello".to_string()),
        slug: Some("hello-world".to_string()),
        created: 1672531200,
        modified: 1672617600,
        text: "<!--markdown-->body".to_string(),
        author_id: 1,
        ctype: "post".to_string(),
        status: "publish".to_string(),
        allow_comment: "1".to_string(),
        allow_ping: "0".to_string(),
        allow_feed: "1".to_string(),
    }
}

#[test]
fn timestamps_are_seconds_of_unix_time() {
    assert_eq!(timestamp("1970-01-01T00:00:00Z"), Ok(0));
    assert_eq!(timestamp("2023-01-01T00:00:00Z"), Ok(1672531200));
    assert_eq!(timestamp("1996-12-19T16:39:57-08:00"), Ok(851042397));
    assert_eq!(timestamp("2023-01-01T08:00:00.250+08:00"), Ok(1672531200));
    assert_eq!(timestamp("2106-02-07T06:28:15Z"), Ok(u32::MAX));
}

#[test]
fn timestamps_out_of_the_column_are_cut_to_32_bits() {
    assert_eq!(timestamp("1969-12-31T23:59:59Z"), Ok(u32::MAX));
    assert_eq!(timestamp("2106-02-07T06:28:16Z"), Ok(0));
    assert_eq!(timestamp("2106-02-07T06:28:17Z"), Ok(1));
}

#[test]
fn seconds_are_cut_to_the_column() {
    assert_eq!(column_seconds(0), 0);
    assert_eq!(column_seconds(1672531200), 1672531200);
    assert_eq!(column_seconds(4294967295), u32::MAX);
    assert_eq!(column_seconds(4294967296), 0);
    assert_eq!(column_seconds(4294967296 * 3 + 5), 5);
    assert_eq!(column_seconds(-1), u32::MAX);
    assert_eq!(column_seconds(-4294967296), 0);
    assert_eq!(column_seconds(-4294967297), u32::MAX);
    assert_eq!(column_seconds(i64::MAX), u32::MAX);
    assert_eq!(column_seconds(i64::MIN), 0);
}

#[test]
fn what_is_no_date_time_is_a_date_parse_error() {
    for text in ["", "yesterday", "2023-01-01", "2023-13-01T00:00:00Z", "2023-01-01T00:00:00"] {
        assert_eq!(timestamp(text), Err(CommErr::DateParseError));
    }
}

#[test]
fn the_content_row_of_a_page() {
    assert_eq!(content_row(&full_page()), Ok(row_of_full_page(0)));
}

#[test]
fn the_content_row_needs_slug_and_timestamps() {
    assert_eq!(
        content_row(&page(&[AUTHOR, NAME, LOWER_SLUG])),
        Err(CommErr::MissingField("Slug".to_string()))
    );
    assert_eq!(
        content_row(&page(&[
            AUTHOR,
            NAME,
            "\"Slug\":{\"type\":\"rich_text\",\"rich_text\":[]}"
        ])),
        Err(CommErr::MissingField("Slug".to_string()))
    );
    assert_eq!(
        content_row(&page(&[AUTHOR, NAME, "\"Slug\":{\"type\":\"number\",\"number\":1}"])),
        Err(CommErr::MissingField("MultiSelectSlug".to_string()))
    );
    assert_eq!(
        content_row(&page_at("then", "2023-01-02T00:00:00Z", &[AUTHOR, NAME, SLUG])),
        Err(CommErr::DateParseError)
    );
    assert_eq!(
        content_row(&page_at("2023-01-02T00:00:00Z", "now", &[AUTHOR, NAME, SLUG])),
        Err(CommErr::DateParseError)
    );
    assert_eq!(
        content_row(&page_at("then", "now", &[AUTHOR, NAME])),
        Err(CommErr::MissingField("Slug".to_string()))
    );
}

#[test]
fn the_content_row_at_given_times() {
    let row = content_at(&full_page(), Some(3), Some(4)).unwrap();
    assert_eq!(row, contents::Model { created: 3, modified: 4, ..row_of_full_page(0) });
    assert_eq!(content_at(&full_page(), None, Some(4)), Err(CommErr::DateParseError));
    assert_eq!(content_at(&full_page(), Some(3), None), Err(CommErr::DateParseError));
    assert_eq!(
        content_at(&page(&[AUTHOR, NAME]), None, None),
        Err(CommErr::MissingField("Slug".to_string()))
    );
}

#[test]
fn a_creation_begins_with_the_row_it_is_given() {
    let (state, command) = Transaction::creation(full_page(), Ok(row_of_full_page(0)));
    assert_eq!(command, Command::InsertContent(row_of_full_page(0)));
    assert_eq!(state.stage, Stage::Content);
    assert_eq!(state.page, full_page());
    assert!(state.items.is_empty() && state.missing.is_empty() && !state.categorised);
    let (state, command) = Transaction::creation(full_page(), Err(CommErr::DateParseError));
    assert_eq!(command, Command::Rollback(CommErr::DateParseError));
    assert!(state.finished());
}

#[test]
fn a_revision_keeps_the_time_it_is_given() {
    let (state, command) = Transaction::revision(full_page(), Some(77));
    assert_eq!(command, Command::FindContent("hello-world".to_string()));
    assert_eq!(state.stage, Stage::Find);
    let (state, command) = state.step(Reply::Content(Some(row_of_full_page(4))));
    assert_eq!(
        command,
        Command::UpdateContent(contents::Model { modified: 77, ..row_of_full_page(4) })
    );
    assert_eq!(state.stage, Stage::Write);
    let (state, command) = Transaction::revision(full_page(), None);
    assert_eq!(command, Command::FindContent("hello-world".to_string()));
    let (_, command) = state.step(Reply::Content(None));
    assert_eq!(command, Command::Rollback(CommErr::PageNotFound));
}

#[test]
fn a_new_article_makes_content_metas_and_relationships() {
    let mut store = Store::default();
    assert_eq!(store.run(new_article(full_page())), Ok(()));
    assert_eq!(store.contents, vec![row_of_full_page(1)]);
    assert_eq!(
        store.metas,
        vec![meta(1, "rust", "tag", 1), meta(2, "verus", "tag", 1), meta(3, "tech", "category", 1)]
    );
    assert_eq!(
        store.relationships,
        vec![
            relationships::Model { cid: 1, mid: 1 },
            relationships::Model { cid: 1, mid: 2 },
            relationships::Model { cid: 1, mid: 3 },
        ]
    );
}

#[test]
fn all_lookups_come_before_the_first_insertion_of_a_meta() {
    let mut store = Store::default();
    store.metas.push(meta(1, "verus", "tag", 4));
    assert_eq!(store.run(new_article(full_page())), Ok(()));
    assert_eq!(
        store.log,
        vec![
            "insert content 1",
            "find meta rust",
            "find meta verus",
            "update meta 1",
            "find meta tech",
            "insert meta 2",
            "insert relationship 1 2",
            "insert meta 3",
            "insert relationship 1 3",
        ]
    );
    assert_eq!(store.count_of("verus"), 5);
    assert_eq!(store.count_of("rust"), 1);
    assert_eq!(store.count_of("tech"), 1);
    assert_eq!(
        store.relationships,
        vec![relationships::Model { cid: 1, mid: 2 }, relationships::Model { cid: 1, mid: 3 }]
    );
}

#[test]
fn a_new_article_twice_makes_two_rows_and_counts_twice() {
    let mut store = Store::default();
    assert_eq!(store.run(new_article(full_page())), Ok(()));
    assert_eq!(store.run(new_article(full_page())), Ok(()));
    assert_eq!(store.contents, vec![row_of_full_page(1), row_of_full_page(2)]);
    assert_eq!(store.contents[0].slug, store.contents[1].slug);
    assert_eq!(store.count_of("rust"), 2);
    assert_eq!(store.count_of("verus"), 2);
    assert_eq!(store.count_of("tech"), 2);
    assert_eq!(store.metas.len(), 3);
    assert_eq!(store.relationships.len(), 3);
}

#[test]
fn a_new_article_without_tags_needs_its_category_only() {
    let mut store = Store::default();
    assert_eq!(store.run(new_article(page(&[AUTHOR, NAME, SLUG, CATEGORY]))), Ok(()));
    assert_eq!(store.metas, vec![meta(1, "tech", "category", 1)]);
    assert_eq!(store.relationships, vec![relationships::Model { cid: 1, mid: 1 }]);
}

#[test]
fn a_new_article_without_a_category_is_rolled_back() {
    let mut store = Store::default();
    store.metas.push(meta(1, "rust", "tag", 1));
    let before = store.clone();
    assert_eq!(
        store.run(new_article(page(&[AUTHOR, NAME, SLUG, TAGS]))),
        Err(CommErr::MissingField("Category".to_string()))
    );
    assert_eq!(store.contents, before.contents);
    assert_eq!(store.metas, before.metas);
    assert_eq!(store.relationships, before.relationships);
}

#[test]
fn a_new_article_without_a_slug_writes_nothing() {
    let mut store = Store::default();
    assert_eq!(
        store.run(new_article(page(&[AUTHOR, NAME, TAGS, CATEGORY]))),
        Err(CommErr::MissingField("Slug".to_string()))
    );
    assert_eq!(store, Store::default());
}

#[test]
fn a_tag_shared_with_the_category_is_counted_for_both() {
    let mut store = Store::default();
    store.metas.push(meta(1, "tech", "category", 1));
    let shared = page(&[
        AUTHOR,
        NAME,
        SLUG,
        "\"Tag\":{\"type\":\"multi_select\",\"multi_select\":[{\"name\":\"tech\"}]}",
        CATEGORY,
    ]);
    assert_eq!(store.run(new_article(shared)), Ok(()));
    assert_eq!(store.metas, vec![meta(1, "tech", "category", 3)]);
    assert!(store.relationships.is_empty());
}

#[test]
fn a_counter_at_its_limit_ends_the_transaction() {
    let mut store = Store::default();
    store.metas.push(meta(1, "rust", "tag", u32::MAX));
    let before = store.metas.clone();
    assert_eq!(
        store.run(new_article(full_page())),
        Err(CommErr::StorageError("counter overflow".to_string()))
    );
    assert_eq!(store.metas, before);
    assert!(store.contents.is_empty());
}

#[test]
fn an_update_of_an_absent_page_writes_nothing() {
    let mut store = Store::default();
    store.contents.push(contents::Model {
        slug: Some("another".to_string()),
        ..row_of_full_page(1)
    });
    let before = store.clone();
    assert_eq!(store.run(update_article(full_page())), Err(CommErr::PageNotFound));
    assert_eq!(store.contents, before.contents);
    assert_eq!(store.metas, before.metas);
    assert_eq!(store.relationships, before.relationships);
    assert_eq!(store.log, vec!["find content hello-world"]);
}

#[test]
fn an_update_writes_title_time_and_body() {
    let mut store = Store::default();
    store.contents.push(contents::Model {
        cid: 7,
        title: Some("Old".to_string()),
        slug: Some("hello-world".to_string()),
        created: 5,
        modified: 6,
        text: "old".to_string(),
        author_id: 3,
        ctype: "page".to_string(),
        status: "hidden".to_string(),
        allow_comment: "0".to_string(),
        allow_ping: "1".to_string(),
        allow_feed: "0".to_string(),
    });
    store.metas.push(meta(1, "rust", "tag", 1));
    assert_eq!(store.run(update_article(full_page())), Ok(()));
    assert_eq!(
        store.contents,
        vec![contents::Model {
            cid: 7,
            title: Some("Hello".to_string()),
            slug: Some("hello-world".to_string()),
            created: 5,
            modified: 1672617600,
            text: "<!--markdown-->body".to_string(),
            author_id: 3,
            ctype: "page".to_string(),
            status: "hidden".to_string(),
            allow_comment: "0".to_string(),
            allow_ping: "1".to_string(),
            allow_feed: "0".to_string(),
        }]
    );
    assert_eq!(store.metas, vec![meta(1, "rust", "tag", 1)]);
    assert_eq!(store.log, vec!["find content hello-world", "update content 7"]);
}

#[test]
fn an_update_reads_the_slug_in_lower_case() {
    let mut store = Store::default();
    store.contents.push(row_of_full_page(1));
    assert_eq!(
        store.run(update_article(page(&[AUTHOR, NAME, SLUG]))),
        Err(CommErr::MissingField("slug".to_string()))
    );
    assert!(store.log.is_empty());
    assert_eq!(store.run(update_article(page(&[AUTHOR, NAME, LOWER_SLUG]))), Ok(()));
}

#[test]
fn an_update_with_a_bad_time_is_rolled_back() {
    let mut store = Store::default();
    store.contents.push(row_of_full_page(1));
    let bad = page_at("2023-01-01T00:00:00Z", "now", &[AUTHOR, NAME, LOWER_SLUG]);
    assert_eq!(store.run(update_article(bad)), Err(CommErr::DateParseError));
    assert_eq!(store.contents, vec![row_of_full_page(1)]);
}

#[test]
fn a_failure_of_the_store_ends_the_transaction() {
    let (state, command) = new_article(full_page());
    assert_eq!(command, Command::InsertContent(row_of_full_page(0)));
    assert_eq!(state.stage, Stage::Content);
    let (state, command) = state.step(Reply::Failed("disk full".to_string()));
    assert_eq!(command, Command::Rollback(CommErr::StorageError("disk full".to_string())));
    assert!(state.finished());
    let (state, command) = state.step(Reply::Done);
    assert_eq!(
        command,
        Command::Rollback(CommErr::StorageError("unexpected reply".to_string()))
    );
    assert!(state.finished());
}

#[test]
fn an_answer_that_does_not_fit_ends_the_transaction() {
    let (state, _) = new_article(full_page());
    let (state, command) = state.step(Reply::Done);
    assert_eq!(
        command,
        Command::Rollback(CommErr::StorageError("unexpected reply".to_string()))
    );
    assert!(state.finished());
    let (state, _) = update_article(full_page());
    let (_, command) = state.step(Reply::Inserted(1));
    assert_eq!(
        command,
        Command::Rollback(CommErr::StorageError("unexpected reply".to_string()))
    );
}

#[test]
fn the_steps_of_a_new_article_one_by_one() {
    let (state, _) = new_article(page(&[
        AUTHOR,
        NAME,
        SLUG,
        "\"Tag\":{\"type\":\"multi_select\",\"multi_select\":[{\"name\":\"rust\"}]}",
        CATEGORY,
    ]));
    let (state, command) = state.step(Reply::Inserted(9));
    assert_eq!(command, Command::FindMeta("rust".to_string()));
    assert_eq!(state.stage, Stage::Lookup(0));
    assert_eq!(state.cid, 9);
    let (state, command) = state.step(Reply::Meta(Some(meta(4, "rust", "tag", 2))));
    assert_eq!(command, Command::UpdateMeta(meta(4, "rust", "tag", 3)));
    assert_eq!(state.stage, Stage::Count(0));
    let (state, command) = state.step(Reply::Done);
    assert_eq!(command, Command::FindMeta("tech".to_string()));
    assert_eq!(state.stage, Stage::Lookup(1));
    assert_eq!(state.items[1].kind, MetaKind::Category);
    let (state, command) = state.step(Reply::Meta(None));
    assert_eq!(command, Command::InsertMeta(meta(0, "tech", "category", 1)));
    assert_eq!(state.stage, Stage::Meta(0));
    let (state, command) = state.step(Reply::Inserted(5));
    assert_eq!(
        command,
        Command::InsertRelationship(relationships::Model { cid: 9, mid: 5 })
    );
    assert_eq!(state.stage, Stage::Relationship(0));
    let (state, command) = state.step(Reply::Done);
    assert_eq!(command, Command::Commit);
    assert_eq!(state.stage, Stage::Finished);
}

#[test]
fn a_failing_search_for_tags_ends_the_transaction_after_the_insert() {
    let (state, command) = new_article(page(&[
        AUTHOR,
        NAME,
        SLUG,
        "\"Tag\":{\"type\":\"number\",\"number\":1}",
        CATEGORY,
    ]));
    assert!(matches!(command, Command::InsertContent(_)));
    let (_, command) = state.step(Reply::Inserted(1));
    assert_eq!(
        command,
        Command::Rollback(CommErr::MissingField("MultiSelectTag".to_string()))
    );
}

#[test]
fn is_exist_reads_the_answer_of_the_store() {
    assert_eq!(is_exist(&Reply::Content(Some(row_of_full_page(1)))), Ok(true));
    assert_eq!(is_exist(&Reply::Content(None)), Ok(false));
    assert_eq!(
        is_exist(&Reply::Failed("gone".to_string())),
        Err(CommErr::StorageError("gone".to_string()))
    );
    assert_eq!(
        is_exist(&Reply::Done),
        Err(CommErr::StorageError("unexpected reply".to_string()))
    );
}

#[test]
fn the_default_relationship_joins_nothing() {
    assert_eq!(relationships::Model::default(), relationships::Model { cid: 0, mid: 0 });
}
