use global_search::error::StartupError;
use global_search::schema::Field;
use global_search::source::decode_collection;
use global_search::source::find_field;
use global_search::source::read_collection;
use global_search::source::SourceCollection;
use global_search::source::SourceDocument;

fn record(pairs: &[(&str, &str)]) -> Vec<(String, String)> {
    pairs.iter().map(|(name, text)| (name.to_string(), text.to_string())).collect()
}

fn page(reference: &str, pairs: &[(&str, &str)]) -> SourceDocument {
    SourceDocument { reference: reference.to_string(), fields: record(pairs) }
}

const STORE: &str = "{\"enable\":true,\"index\":{\"documentStore\":{\"docInfo\":{\"a.html#x\":{\"body\":2,\"breadcrumbs\":1,\"title\":1},\"b.html\":{\"body\":1,\"breadcrumbs\":2,\"title\":2}},\"docs\":{\"b.html\":{\"body\":\"second\",\"breadcrumbs\":\"Top \\u00bb B\",\"id\":\"b.html\",\"title\":\"Page B\"},\"a.html#x\":{\"body\":\"first body\",\"breadcrumbs\":\"Top\",\"id\":\"a.html#x\",\"title\":\"Page \\\"A\\\"\"}},\"length\":2,\"save\":true},\"fields\":[\"title\",\"body\",\"breadcrumbs\"],\"index\":{},\"lang\":\"English\",\"pipeline\":[\"trimmer\"],\"ref\":\"id\",\"version\":\"0.9.5\"}}";

#[test]
fn decode_reads_the_store_section_of_the_index() {
    let collection = decode_collection(STORE.as_bytes()).unwrap();
    assert!(collection.save);
    assert_eq!(collection.docs.len(), 2);
    assert_eq!(collection.docs[0].reference, "a.html#x");
    assert_eq!(
        collection.docs[0].fields,
        record(&[("body", "first body"), ("breadcrumbs", "Top"), ("id", "a.html#x"), ("title", "Page \"A\"")])
    );
    assert_eq!(collection.docs[1].reference, "b.html");
    assert_eq!(
        collection.docs[1].fields,
        record(&[("body", "second"), ("breadcrumbs", "Top » B"), ("id", "b.html"), ("title", "Page B")])
    );
}

#[test]
fn decode_reads_a_store_that_is_not_saved() {
    let json = "{\"index\":{\"documentStore\":{\"docInfo\":{},\"docs\":{\"a.html\":{}},\"length\":1,\"save\":false}}}";
    let collection = decode_collection(json.as_bytes()).unwrap();
    assert!(!collection.save);
    assert_eq!(collection.docs.len(), 1);
    assert_eq!(collection.docs[0].reference, "a.html");
    assert!(collection.docs[0].fields.is_empty());
}

#[test]
fn decode_refuses_what_is_no_json() {
    assert!(matches!(decode_collection(b""), Err(StartupError::Json(_))));
    assert!(matches!(decode_collection(b"{\"index\":"), Err(StartupError::Json(_))));
    assert!(matches!(decode_collection(b"window.search = {}"), Err(StartupError::Json(_))));
    assert!(matches!(decode_collection(&[b'"', 0xff, b'"']), Err(StartupError::Json(_))));
}

#[test]
fn decode_refuses_json_without_a_store() {
    assert!(matches!(decode_collection(b"{}"), Err(StartupError::Json(_))));
    assert!(matches!(decode_collection(b"[1,2]"), Err(StartupError::Json(_))));
    assert!(matches!(decode_collection(b"{\"index\":{}}"), Err(StartupError::Json(_))));
    assert!(matches!(
        decode_collection(b"{\"documentStore\":{\"docInfo\":{},\"docs\":{},\"length\":0,\"save\":true}}"),
        Err(StartupError::Json(_))
    ));
}

#[test]
fn decode_refuses_a_store_of_another_shape() {
    assert!(matches!(
        decode_collection(b"{\"index\":{\"documentStore\":{\"docs\":{},\"length\":0,\"docInfo\":{}}}}"),
        Err(StartupError::Json(_))
    ));
    assert!(matches!(
        decode_collection(b"{\"index\":{\"documentStore\":{\"docInfo\":{},\"docs\":{\"a\":{\"title\":7}},\"length\":1,\"save\":true}}}"),
        Err(StartupError::Json(_))
    ));
    assert!(matches!(
        decode_collection(b"{\"index\":{\"documentStore\":{\"docInfo\":{},\"docs\":[],\"length\":0,\"save\":true}}}"),
        Err(StartupError::Json(_))
    ));
}

#[test]
fn read_strips_the_frame_before_it_decodes() {
    let artifact = format!("window.search = {};", STORE);
    let collection = read_collection(artifact.as_bytes()).unwrap();
    assert!(collection.save);
    assert_eq!(collection.docs.len(), 2);
    assert!(matches!(read_collection(STORE.as_bytes()), Err(StartupError::Json(_))));
}

#[test]
fn read_reports_a_short_artifact_as_framing() {
    assert!(matches!(read_collection(b""), Err(StartupError::Framing)));
    assert!(matches!(read_collection(b"window.search = "), Err(StartupError::Framing)));
    assert!(matches!(read_collection(b"window.search = ;"), Err(StartupError::Json(_))));
}

#[test]
fn find_field_takes_the_first_of_a_name() {
    let fields = record(&[("title", "one"), ("body", "two"), ("title", "three"), ("", "empty name")]);
    assert_eq!(find_field(&fields, "title"), Some(&"one".to_string()));
    assert_eq!(find_field(&fields, "body"), Some(&"two".to_string()));
    assert_eq!(find_field(&fields, ""), Some(&"empty name".to_string()));
    assert_eq!(find_field(&fields, "Title"), None);
    assert_eq!(find_field(&fields, "breadcrumbs"), None);
    assert_eq!(find_field(&Vec::new(), "title"), None);
}

#[test]
fn missing_field_names_the_first_gap_in_schema_order() {
    assert_eq!(page("r", &[("title", "t"), ("breadcrumbs", "c"), ("body", "b")]).missing_field(), None);
    assert_eq!(page("r", &[("breadcrumbs", "c"), ("body", "b")]).missing_field(), Some(Field::Title));
    assert_eq!(page("r", &[("title", "t"), ("body", "b")]).missing_field(), Some(Field::Breadcrumbs));
    assert_eq!(page("r", &[("title", "t"), ("breadcrumbs", "c")]).missing_field(), Some(Field::Body));
    assert_eq!(page("r", &[("body", "b")]).missing_field(), Some(Field::Title));
    assert_eq!(page("r", &[]).missing_field(), Some(Field::Title));
}

#[test]
fn a_record_becomes_a_document_of_its_corpus() {
    let document = page("ch01.html", &[("id", "x"), ("body", "b"), ("title", "t"), ("breadcrumbs", "c")])
        .to_indexed("book/first-edition")
        .unwrap();
    assert_eq!(document.book, "book/first-edition");
    assert_eq!(document.section, "ch01.html");
    assert_eq!(document.title, "t");
    assert_eq!(document.breadcrumbs, "c");
    assert_eq!(document.body, "b");
    assert_eq!(page("r", &[("title", "t")]).to_indexed("b").unwrap_err(), Field::Breadcrumbs);
}

#[test]
fn a_saved_collection_gives_one_document_for_each_record_in_order() {
    let collection = SourceCollection {
        save: true,
        docs: vec![
            page("z.html", &[("title", "Z"), ("breadcrumbs", "cz"), ("body", "bz")]),
            page("a.html", &[("body", "ba"), ("breadcrumbs", "ca"), ("title", "A")]),
        ],
    };
    let documents = collection.indexed_documents("nomicon").unwrap();
    assert_eq!(documents.len(), 2);
    assert_eq!(documents[0].section, "z.html");
    assert_eq!(documents[0].book, "nomicon");
    assert_eq!(documents[0].title, "Z");
    assert_eq!(documents[1].section, "a.html");
    assert_eq!(documents[1].book, "nomicon");
    assert_eq!(documents[1].body, "ba");
    assert_eq!(documents[1].breadcrumbs, "ca");
}

#[test]
fn a_collection_that_is_not_saved_gives_no_document() {
    let collection = SourceCollection {
        save: false,
        docs: vec![page("a.html", &[]), page("b.html", &[("title", "only")])],
    };
    assert!(collection.indexed_documents("nomicon").unwrap().is_empty());
    let empty = SourceCollection { save: true, docs: Vec::new() };
    assert!(empty.indexed_documents("nomicon").unwrap().is_empty());
}

#[test]
fn the_first_incomplete_record_of_a_saved_collection_is_reported() {
    let collection = SourceCollection {
        save: true,
        docs: vec![
            page("a.html", &[("title", "A"), ("breadcrumbs", "c"), ("body", "b")]),
            page("b.html", &[("title", "B"), ("breadcrumbs", "c")]),
            page("c.html", &[]),
        ],
    };
    match collection.indexed_documents("nomicon") {
        Err(StartupError::MissingField { reference, field }) => {
            assert_eq!(reference, "b.html");
            assert_eq!(field, Field::Body);
        }
        other => panic!("unexpected: {:?}", other.map(|d| d.len())),
    }
}
