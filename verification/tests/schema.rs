use global_search::document::IndexedDocument;
use global_search::schema::fields;
use global_search::schema::search_fields;
use global_search::schema::Field;

#[test]
fn the_schema_has_five_fields_in_order() {
    assert_eq!(fields(), vec![Field::Book, Field::Section, Field::Title, Field::Breadcrumbs, Field::Body]);
    let names: Vec<&str> = fields().into_iter().map(|f| f.name()).collect();
    assert_eq!(names, vec!["book", "section", "title", "breadcrumbs", "body"]);
}

#[test]
fn book_and_section_are_exact_and_the_rest_tokenized() {
    assert!(!Field::Book.is_tokenized());
    assert!(!Field::Section.is_tokenized());
    assert!(Field::Title.is_tokenized());
    assert!(Field::Breadcrumbs.is_tokenized());
    assert!(Field::Body.is_tokenized());
}

#[test]
fn every_field_is_stored() {
    for field in fields() {
        assert!(field.is_stored());
    }
}

#[test]
fn the_default_search_fields_are_the_tokenized_ones() {
    assert_eq!(search_fields(), vec![Field::Title, Field::Breadcrumbs, Field::Body]);
    for field in fields() {
        assert_eq!(field.is_searched_by_default(), field.is_tokenized());
        assert_eq!(search_fields().contains(&field), field.is_searched_by_default());
    }
}

#[test]
fn a_document_names_its_fields_in_schema_order() {
    let document = IndexedDocument {
        book: "B".to_string(),
        section: "S".to_string(),
        title: "T".to_string(),
        breadcrumbs: "C".to_string(),
        body: "D".to_string(),
    };
    let expected: Vec<(String, String)> = [("book", "B"), ("section", "S"), ("title", "T"), ("breadcrumbs", "C"), ("body", "D")]
        .iter()
        .map(|(n, t)| (n.to_string(), t.to_string()))
        .collect();
    assert_eq!(document.named_fields(), expected);
}
