use notion_sync::error::CommErr;
use notion_sync::json::{parse, Json};
use notion_sync::notion::block::Block;
use notion_sync::notion::database::Database;
use notion_sync::notion::page::Page;
use notion_sync::notion::property::{Author, Property, PropertyType, Record};
use notion_sync::notion::request::RequestMethod;
use notion_sync::notion::{NewImp, Notion};

const AUTHOR: &str = "\"Author\":{\"type\":\"created_by\",\"created_by\":{\"id\":\"u1\",\"name\":\"Ann\",\"avatar_url\":\"http://a\",\"type\":\"person\",\"person\":{\"email\":\"ann@example.com\"}}}";
const NAME: &str = "\"Name\":{\"type\":\"title\",\"title\":[{\"plain_text\":\"Hello\"},{\"plain_text\":\" again\"}]}";
const HEAD: &str = "\"id\":\"page-1\",\"created_time\":\"2023-01-01T00:00:00Z\",\"last_edited_time\":\"2023-01-02T00:00:00Z\",\"last_edited_by\":{\"id\":\"editor-1\"},\"cover\":null,\"icon\":\"i\",\"archived\":false,\"url\":\"https://example.com/page-1\"";

fn page_text(properties: &[&str]) -> String {
    format!("{{{},\"properties\":{{{}}}}}", HEAD, properties.join(","))
}

fn page_json(properties: &[&str]) -> Json {
    parse(&page_text(properties)).unwrap()
}

fn page(properties: &[&str]) -> Page {
    Page::new(&page_json(properties)).unwrap()
}

fn missing(name: &str) -> CommErr {
    CommErr::MissingField(name.to_string())
}

fn pair(value: &str, id: &str) -> (String, String) {
    (value.to_string(), id.to_string())
}

#[test]
fn a_page_takes_its_attributes_and_keeps_the_other_properties() {
    let made = page(&[
        AUTHOR,
        NAME,
        "\"Created time\":{\"type\":\"created_time\",\"created_time\":\"2023-01-01T00:00:00Z\"}",
        "\"Edited time\":{\"type\":\"last_edited_time\",\"last_edited_time\":\"2023-01-02T00:00:00Z\"}",
        "\"Slug\":{\"type\":\"rich_text\",\"rich_text\":[{\"plain_text\":\"hello-world\"}]}",
        "\"Price\":{\"type\":\"number\",\"number\":5}",
    ]);
    assert_eq!(
        made,
        Page {
            id: "page-1".to_string(),
            created_time: "2023-01-01T00:00:00Z".to_string(),
            edited_time: "2023-01-02T00:00:00Z".to_string(),
            author: Author {
                id: "u1".to_string(),
                name: "Ann".to_string(),
                avatar_url: "http://a".to_string(),
                email: "ann@example.com".to_string(),
                user_type: "person".to_string(),
            },
            editor_id: "editor-1".to_string(),
            cover: String::new(),
            icon: "i".to_string(),
            title: "Hello".to_string(),
            archived: false,
            url: "https://example.com/page-1".to_string(),
            properties: vec![
                Property {
                    property: PropertyType::Number("Price".to_string()),
                    data: vec![Record { key: "number".to_string(), value: "5".to_string() }],
                },
                Property {
                    property: PropertyType::Text("Slug".to_string()),
                    data: vec![Record {
                        key: "plain_text".to_string(),
                        value: "hello-world".to_string(),
                    }],
                },
            ],
            content: Block::default(),
        }
    );
}

#[test]
fn a_page_without_a_name_fails() {
    assert_eq!(Page::new(&page_json(&[AUTHOR])), Err(missing("Name")));
}

#[test]
fn a_page_without_properties_fails() {
    let json = parse(&format!("{{{}}}", HEAD)).unwrap();
    assert_eq!(Page::new(&json), Err(missing("properties")));
    let odd = parse(&format!("{{{},\"properties\":[]}}", HEAD)).unwrap();
    assert_eq!(Page::new(&odd), Err(missing("Author")));
}

#[test]
fn a_page_with_an_empty_name_fails() {
    let json = page_json(&[AUTHOR, "\"Name\":{\"type\":\"title\",\"title\":[]}"]);
    assert_eq!(Page::new(&json), Err(missing("properties")));
    let json = page_json(&[AUTHOR, "\"Name\":{\"type\":\"title\",\"title\":[{\"text\":\"x\"}]}"]);
    assert_eq!(Page::new(&json), Err(missing("plain_text")));
    let json = page_json(&[AUTHOR, "\"Name\":{\"type\":\"title\"}"]);
    assert_eq!(Page::new(&json), Err(missing("title")));
}

#[test]
fn a_page_without_an_author_fails_first() {
    assert_eq!(Page::new(&page_json(&[NAME])), Err(missing("Author")));
    assert_eq!(Page::new(&page_json(&[])), Err(missing("Author")));
}

#[test]
fn a_page_with_a_property_of_unknown_kind_fails() {
    let json = page_json(&[AUTHOR, NAME, "\"Link\":{\"type\":\"url\",\"url\":\"http://x\"}"]);
    assert_eq!(Page::new(&json), Err(CommErr::UnknownPropertyType("url".to_string())));
}

#[test]
fn a_page_needs_its_required_fields() {
    let properties = format!("\"properties\":{{{},{}}}", AUTHOR, NAME);
    let without = |field: &str| {
        let kept: Vec<String> = [
            ("id", "\"id\":\"page-1\""),
            ("created_time", "\"created_time\":\"2023-01-01T00:00:00Z\""),
            ("last_edited_time", "\"last_edited_time\":\"2023-01-02T00:00:00Z\""),
            ("archived", "\"archived\":true"),
        ]
        .iter()
        .filter(|(name, _)| *name != field)
        .map(|(_, member)| member.to_string())
        .chain([properties.clone()])
        .collect();
        Page::new(&parse(&format!("{{{}}}", kept.join(","))).unwrap())
    };
    assert_eq!(without("id"), Err(missing("id")));
    assert_eq!(without("created_time"), Err(missing("created_time")));
    assert_eq!(without("last_edited_time"), Err(missing("last_edited_time")));
    assert_eq!(without("archived"), Err(missing("archived")));
    let bare = without("").unwrap();
    assert_eq!(bare.editor_id, "");
    assert_eq!(bare.cover, "");
    assert_eq!(bare.icon, "");
    assert_eq!(bare.url, "");
    assert!(bare.archived);
    assert!(bare.properties.is_empty());
}

#[test]
fn archived_that_is_no_boolean_reads_as_false() {
    let text = page_text(&[AUTHOR, NAME]).replace("\"archived\":false", "\"archived\":\"yes\"");
    assert!(!Page::new(&parse(&text).unwrap()).unwrap().archived);
    let text = page_text(&[AUTHOR, NAME]).replace("\"archived\":false", "\"archived\":true");
    assert!(Page::new(&parse(&text).unwrap()).unwrap().archived);
}

#[test]
fn search_for_an_absent_property_gives_nothing() {
    let made = page(&[AUTHOR, NAME, "\"Price\":{\"type\":\"number\",\"number\":5}"]);
    assert_eq!(made.search_property("Slug"), Ok(vec![]));
    assert_eq!(made.search_property("price"), Ok(vec![]));
    assert_eq!(made.search_property("Name"), Ok(vec![]));
    assert_eq!(page(&[AUTHOR, NAME]).search_property("Slug"), Ok(vec![]));
}

#[test]
fn search_takes_the_value_of_each_record() {
    let made = page(&[
        AUTHOR,
        NAME,
        "\"Slug\":{\"type\":\"rich_text\",\"rich_text\":[{\"plain_text\":\"hello-world\"}]}",
        "\"Tag\":{\"type\":\"multi_select\",\"multi_select\":[{\"name\":\"rust\"},{\"name\":\"verus\"}]}",
        "\"Category\":{\"type\":\"select\",\"select\":{\"name\":\"tech\"}}",
        "\"Due\":{\"type\":\"date\",\"date\":\"2023-05-01\"}",
        "\"Files\":{\"type\":\"files\",\"files\":[]}",
    ]);
    assert_eq!(made.search_property("Slug"), Ok(vec![pair("hello-world", "")]));
    assert_eq!(made.search_property("Tag"), Ok(vec![pair("rust", ""), pair("verus", "")]));
    assert_eq!(made.search_property("Category"), Ok(vec![pair("tech", "")]));
    assert_eq!(made.search_property("Due"), Ok(vec![pair("2023-05-01", "")]));
    assert_eq!(made.search_property("Files"), Ok(vec![]));
}

#[test]
fn search_takes_the_id_of_a_record_that_holds_it_as_its_value() {
    let made = Page {
        properties: vec![Property {
            property: PropertyType::Select("Ref".to_string()),
            data: vec![Record { key: "name".to_string(), value: "a".to_string() }],
        }],
        ..page(&[AUTHOR, NAME])
    };
    assert_eq!(made.search_property("Ref"), Ok(vec![pair("a", "")]));
}

#[test]
fn slug_of_one_record_for_each_member() {
    let made = page(&[
        AUTHOR,
        NAME,
        "\"Slug\":{\"type\":\"rich_text\",\"rich_text\":[{\"plain_text\":\"hello-world\",\"id\":\"abc\"}]}",
    ]);
    assert_eq!(
        made.properties[0].data,
        vec![
            Record { key: "id".to_string(), value: "abc".to_string() },
            Record { key: "plain_text".to_string(), value: "hello-world".to_string() },
        ]
    );
    assert_eq!(made.search_property("Slug"), Err(missing("MultiSelectSlug")));
}

#[test]
fn search_fails_on_a_record_without_the_value_field() {
    let made = page(&[
        AUTHOR,
        NAME,
        "\"Price\":{\"type\":\"number\",\"number\":5}",
        "\"Due\":{\"type\":\"date\",\"date\":{\"start\":\"2023-05-01\"}}",
    ]);
    assert_eq!(made.search_property("Price"), Err(missing("MultiSelectPrice")));
    assert_eq!(made.search_property("Due"), Err(missing("MultiSelectDue")));
}

#[test]
fn search_stops_at_the_first_property_of_the_name() {
    let first = Property {
        property: PropertyType::Text("Slug".to_string()),
        data: vec![Record { key: "plain_text".to_string(), value: "one".to_string() }],
    };
    let second = Property {
        property: PropertyType::Text("Slug".to_string()),
        data: vec![Record { key: "plain_text".to_string(), value: "two".to_string() }],
    };
    let made = Page { properties: vec![first, second], ..page(&[AUTHOR, NAME]) };
    assert_eq!(made.search_property("Slug"), Ok(vec![pair("one", "")]));
}

#[test]
fn content_takes_in_the_fetched_body() {
    let mut made = page(&[AUTHOR, NAME]);
    assert_eq!(made.content, Block::default());
    assert_eq!(made.content.to_string(), "");
    assert_eq!(made.content_source(), Notion::Blocks("page-1".to_string()));
    assert_eq!(made.content(Ok(Block::new("# Title".to_string()))), Ok("# Title".to_string()));
    assert_eq!(made.content.to_string(), "# Title");
    let failure = CommErr::TransportError("timeout".to_string());
    assert_eq!(made.content(Err(failure.clone())), Err(failure));
    assert_eq!(made.content, Block::new("# Title".to_string()));
    assert_eq!(made.content(Ok(Block::new("again".to_string()))), Ok("again".to_string()));
    assert_eq!(made.content, Block::new("again".to_string()));
    assert_eq!(made.title, "Hello");
}

#[test]
fn a_database_holds_the_pages_of_the_results() {
    let one = page_text(&[AUTHOR, NAME]);
    let two = page_text(&[AUTHOR, NAME]).replace("page-1", "page-2");
    let response = parse(&format!("{{\"results\":[{},{}]}}", one, two)).unwrap();
    let database = Database::from_remote(&response).unwrap();
    assert_eq!(database.page_list.len(), 2);
    assert_eq!(database.page_list[0], page(&[AUTHOR, NAME]));
    assert_eq!(database.page_list[1].id, "page-2");
    assert_eq!(
        Database::from_remote(&parse("{\"results\":[]}").unwrap()),
        Ok(Database { page_list: vec![] })
    );
}

#[test]
fn a_database_fails_with_its_first_bad_page() {
    assert_eq!(Database::from_remote(&parse("{}").unwrap()), Err(missing("results")));
    assert_eq!(
        Database::from_remote(&parse("{\"results\":{}}").unwrap()),
        Err(missing("results"))
    );
    let good = page_text(&[AUTHOR, NAME]);
    let response =
        parse(&format!("{{\"results\":[{},{{\"id\":\"x\"}},{{}}]}}", good)).unwrap();
    assert_eq!(Database::from_remote(&response), Err(missing("properties")));
}

#[test]
fn search_hands_on_the_failure_of_the_transport() {
    let failure = CommErr::TransportError("refused".to_string());
    let found: Result<Page, CommErr> =
        Notion::Pages("page-1".to_string()).search(Err(failure.clone()));
    assert_eq!(found, Err(failure));
}

#[test]
fn search_reads_the_response_as_the_type_asked_for() {
    let found: Result<Page, CommErr> =
        Notion::Pages("page-1".to_string()).search(Ok(page_json(&[AUTHOR, NAME])));
    assert_eq!(found, Ok(page(&[AUTHOR, NAME])));
    let builder = Notion::Pages("page-1".to_string()).limit(1);
    let broken: Result<Page, CommErr> = builder.search(Ok(page_json(&[AUTHOR])));
    assert_eq!(broken, Err(missing("Name")));
}

#[test]
fn search_reads_a_database_as_well() {
    let response = parse(&format!("{{\"results\":[{}]}}", page_text(&[AUTHOR, NAME]))).unwrap();
    let found: Result<Database, CommErr> =
        Notion::Databases("db".to_string()).limit(10).search(Ok(response));
    assert_eq!(found, Ok(Database { page_list: vec![page(&[AUTHOR, NAME])] }));
    let empty: Result<Database, CommErr> =
        Notion::Databases("db".to_string()).search(Ok(parse("{}").unwrap()));
    assert_eq!(empty, Err(missing("results")));
}

#[test]
fn a_page_has_no_next_page() {
    assert_eq!(page(&[AUTHOR, NAME]).next(), Err(CommErr::PageNotFound));
}

#[test]
fn resources_have_their_path_and_method() {
    let database = Notion::Databases("d1".to_string());
    assert_eq!(database.path(), "databases/d1/query");
    assert_eq!(database.method(), RequestMethod::POST);
    assert_eq!(database.get_val(), "d1");
    let page = Notion::Pages("pg-1".to_string());
    assert_eq!(page.path(), "pages/pg-1");
    assert_eq!(page.method(), RequestMethod::GET);
    let blocks = Notion::Blocks("b1".to_string());
    assert_eq!(blocks.path(), "blocks/b1/children");
    assert_eq!(blocks.method(), RequestMethod::GET);
    let user = Notion::Users("".to_string());
    assert_eq!(user.path(), "users/");
    assert_eq!(user.method(), RequestMethod::GET);
    assert_eq!(user.get_val(), "");
}

#[test]
fn errors_are_written_in_words() {
    assert_eq!(missing("Name").to_string(), "missing field: Name");
    assert_eq!(CommErr::NotAString("id".to_string()).to_string(), "not a string: id");
    assert_eq!(
        CommErr::UnknownPropertyType("url".to_string()).to_string(),
        "unknown property type: url"
    );
    assert_eq!(CommErr::PageNotFound.to_string(), "page do not exist");
    assert_eq!(CommErr::DateParseError.to_string(), "date parse error");
    assert_eq!(CommErr::TransportError("t".to_string()).to_string(), "transport error: t");
    assert_eq!(CommErr::StorageError("s".to_string()).to_string(), "storage error: s");
}
