//! The fixed schema of the index: which fields a document has, and how each
//! is indexed.

use vstd::prelude::*;

verus! {

/// A field of an indexed document.
#[derive(Clone, Copy, Debug, PartialEq, Eq, Structural)]
pub enum Field {
    /// Identifier of the corpus the document belongs to.
    Book,
    /// Reference of the document inside its corpus.
    Section,
    /// Title of the document.
    Title,
    /// Hierarchical path that leads to the document.
    Breadcrumbs,
    /// Full text of the document.
    Body,
}

impl Field {
    /// The name under which the field is declared in the index.
    pub open spec fn spec_name(self) -> Seq<char> {
        match self {
            Field::Book => "book"@,
            Field::Section => "section"@,
            Field::Title => "title"@,
            Field::Breadcrumbs => "breadcrumbs"@,
            Field::Body => "body"@,
        }
    }

    /// Whether the field's text is split into analysed terms (`true`) or
    /// indexed as one exact value (`false`).
    pub open spec fn spec_is_tokenized(self) -> bool {
        self != Field::Book && self != Field::Section
    }

    /// Whether the value can be read back as it was indexed.
    pub open spec fn spec_is_stored(self) -> bool {
        true
    }

    /// Whether a query term without an explicit field is matched against
    /// this field.
    pub open spec fn spec_is_searched_by_default(self) -> bool {
        self.spec_is_tokenized()
    }

    /// The name under which the field is declared in the index.
    pub fn name(self) -> (r: &'static str)
        ensures
            r@ == self.spec_name(),
    {
        match self {
            Field::Book => "book",
            Field::Section => "section",
            Field::Title => "title",
            Field::Breadcrumbs => "breadcrumbs",
            Field::Body => "body",
        }
    }

    /// Whether the field's text is split into analysed terms.
    #[verifier::when_used_as_spec(spec_is_tokenized)]
    pub fn is_tokenized(self) -> (r: bool)
        ensures
            r == self.spec_is_tokenized(),
    {
        match self {
            Field::Book | Field::Section => false,
            Field::Title | Field::Breadcrumbs | Field::Body => true,
        }
    }

    /// Whether the value can be read back as it was indexed.
    #[verifier::when_used_as_spec(spec_is_stored)]
    pub fn is_stored(self) -> (r: bool)
        ensures
            r == self.spec_is_stored(),
    {
        true
    }

    /// Whether a query term without an explicit field is matched against
    /// this field.
    #[verifier::when_used_as_spec(spec_is_searched_by_default)]
    pub fn is_searched_by_default(self) -> (r: bool)
        ensures
            r == self.spec_is_searched_by_default(),
    {
        self.is_tokenized()
    }
}

/// The fields of the schema, in declaration order.
pub open spec fn schema_fields() -> Seq<Field> {
    seq![Field::Book, Field::Section, Field::Title, Field::Breadcrumbs, Field::Body]
}

/// The schema as the index is told it: for each field its name, whether
/// it is tokenized, and whether it is stored, in declaration order.
pub open spec fn declared_schema() -> Seq<(Seq<char>, bool, bool)> {
    schema_fields().map_values(|f: Field| (f.spec_name(), f.spec_is_tokenized(), f.spec_is_stored()))
}

/// A field of the given name is among the declared fields.
pub open spec fn has_field(declared: Seq<(Seq<char>, bool, bool)>, name: Seq<char>) -> bool {
    exists|i: int| 0 <= i < declared.len() && (#[trigger] declared[i]).0 == name
}

/// The names of the fields a bare query term is matched against.
pub open spec fn default_field_names() -> Seq<Seq<char>> {
    default_search_fields().map_values(|f: Field| f.spec_name())
}

/// The fields a bare query term is matched against, in declaration order.
pub open spec fn default_search_fields() -> Seq<Field> {
    seq![Field::Title, Field::Breadcrumbs, Field::Body]
}

/// The fields of the schema, in declaration order.
pub fn fields() -> (r: Vec<Field>)
    ensures
        r@ == schema_fields(),
{
    vec![Field::Book, Field::Section, Field::Title, Field::Breadcrumbs, Field::Body]
}

/// The fields a bare query term is matched against, in declaration order:
/// the tokenized fields, and no others.
pub fn search_fields() -> (r: Vec<Field>)
    ensures
        r@ == default_search_fields(),
        forall|f: Field| r@.contains(f) <==> f.spec_is_searched_by_default(),
{
    proof {
        assert forall|f: Field| default_search_fields().contains(f) <==> f.spec_is_searched_by_default() by {
            lemma_default_search_fields(f);
        }
    }
    vec![Field::Title, Field::Breadcrumbs, Field::Body]
}

/// The default search fields are the tokenized fields of the schema, and
/// no others.
pub proof fn lemma_default_search_fields(f: Field)
    ensures
        default_search_fields().contains(f) <==> f.spec_is_tokenized(),
{
    let d = default_search_fields();
    assert(d[0] == Field::Title && d[1] == Field::Breadcrumbs && d[2] == Field::Body);
}

/// The schema declares every field under its name.
pub proof fn lemma_schema_declares(f: Field)
    ensures
        has_field(declared_schema(), f.spec_name()),
{
    let declared = declared_schema();
    let at: int = match f {
        Field::Book => 0,
        Field::Section => 1,
        Field::Title => 2,
        Field::Breadcrumbs => 3,
        Field::Body => 4,
    };
    assert(schema_fields()[at] == f);
    assert(declared[at].0 == f.spec_name());
}

/// A field's name is one that the index accepts: it is not empty and does
/// not start with a hyphen.
pub proof fn lemma_field_name_is_valid(f: Field)
    ensures
        f.spec_name().len() > 0,
        f.spec_name()[0] != '-',
{
    reveal_strlit("book");
    reveal_strlit("section");
    reveal_strlit("title");
    reveal_strlit("breadcrumbs");
    reveal_strlit("body");
}

/// No two fields of the schema share a name.
pub proof fn lemma_field_names_distinct(a: Field, b: Field)
    ensures
        a.spec_name() == b.spec_name() ==> a == b,
{
    reveal_strlit("book");
    reveal_strlit("section");
    reveal_strlit("title");
    reveal_strlit("breadcrumbs");
    reveal_strlit("body");
    if a != b && a.spec_name() == b.spec_name() {
        assert(a.spec_name().len() == b.spec_name().len());
        assert(a.spec_name()[2] == b.spec_name()[2]);
    }
}

} // verus!
