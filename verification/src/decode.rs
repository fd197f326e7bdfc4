//! Mapping a parsed tree onto the document model.
//!
//! Fields are found by name. A required field that is absent, or any field
//! holding the wrong kind of node, is a defect; decoding fails with the first
//! defect in declaration order, depth first, and otherwise yields the fully
//! populated profile. Entries with other names are ignored.

use vstd::prelude::*;
use vstd::string::*;
use crate::model::{
    optional_text, Basics, BasicsView, Location, LocationView, Profile, ProfileView,
};
use crate::path::{field_path, path_of};
use crate::tree::{entries_of, entry_of, find, lemma_table_view, Node, Tree};
use crate::yaml::{node_of, parse_value, yaml_document};

verus! {

/// Why a document could not be decoded.
#[derive(Clone, Copy, Debug, PartialEq, Eq, Structural)]
pub enum DecodeErrorKind {
    /// The bytes are not a well-formed document.
    Syntax,
    /// A required field is absent.
    MissingField,
    /// A field holds a node of the wrong kind.
    WrongType,
}

/// A decoding failure: what went wrong, and at which field.
///
/// The path names the offending field from the document root, its segments
/// joined by `.`; it is empty when the document as a whole is at fault.
#[derive(Clone, Debug, PartialEq, Eq)]
pub struct DecodeError {
    pub path: String,
    pub kind: DecodeErrorKind,
}

/// The mathematical value of a [`DecodeError`].
pub struct Defect {
    pub path: Seq<char>,
    pub kind: DecodeErrorKind,
}

impl View for DecodeError {
    type V = Defect;

    open spec fn view(&self) -> Defect {
        Defect { path: self.path@, kind: self.kind }
    }
}

/// The first of two possible defects.
pub open spec fn first_of(first: Option<Defect>, second: Option<Defect>) -> Option<Defect> {
    match first {
        Some(_) => first,
        None => second,
    }
}

/// What is wrong with the required text field `name`, if anything.
pub open spec fn text_defect(
    entries: Seq<(Tree, Tree)>,
    parent: Seq<char>,
    name: Seq<char>,
) -> Option<Defect> {
    match entry_of(entries, name) {
        None => Some(Defect { path: field_path(parent, name), kind: DecodeErrorKind::MissingField }),
        Some(Tree::Text(_)) => None,
        Some(_) => Some(Defect { path: field_path(parent, name), kind: DecodeErrorKind::WrongType }),
    }
}

/// The content of the required text field `name`.
pub open spec fn text_value(entries: Seq<(Tree, Tree)>, name: Seq<char>) -> Seq<char> {
    match entry_of(entries, name) {
        Some(Tree::Text(text)) => text,
        _ => Seq::empty(),
    }
}

/// What is wrong with the optional text field `name`, if anything. Absence
/// and an explicit null are both fine.
pub open spec fn optional_defect(
    entries: Seq<(Tree, Tree)>,
    parent: Seq<char>,
    name: Seq<char>,
) -> Option<Defect> {
    match entry_of(entries, name) {
        None => None,
        Some(Tree::Null) => None,
        Some(Tree::Text(_)) => None,
        Some(_) => Some(Defect { path: field_path(parent, name), kind: DecodeErrorKind::WrongType }),
    }
}

/// The content of the optional text field `name`: `Some` exactly when the
/// field is present with a text, empty or not.
pub open spec fn optional_value(entries: Seq<(Tree, Tree)>, name: Seq<char>) -> Option<Seq<char>> {
    match entry_of(entries, name) {
        Some(Tree::Text(text)) => Some(text),
        _ => None,
    }
}

/// What is wrong with the required nested record `name`, if anything.
pub open spec fn table_defect(
    entries: Seq<(Tree, Tree)>,
    parent: Seq<char>,
    name: Seq<char>,
) -> Option<Defect> {
    match entry_of(entries, name) {
        None => Some(Defect { path: field_path(parent, name), kind: DecodeErrorKind::MissingField }),
        Some(Tree::Table(_)) => None,
        Some(_) => Some(Defect { path: field_path(parent, name), kind: DecodeErrorKind::WrongType }),
    }
}

/// The entries of the required nested record `name`.
pub open spec fn table_value(entries: Seq<(Tree, Tree)>, name: Seq<char>) -> Seq<(Tree, Tree)> {
    match entry_of(entries, name) {
        Some(Tree::Table(inner)) => inner,
        _ => Seq::empty(),
    }
}

/// Reads the required text field `name` of the record at `parent`.
pub fn read_text(entries: &Vec<(Node, Node)>, parent: &str, name: &str) -> (read: Result<
    String,
    DecodeError,
>)
    ensures
        match text_defect(entries_of(entries@), parent@, name@) {
            Some(defect) => read matches Err(error) && error@ == defect,
            None => read matches Ok(text) && text@ == text_value(entries_of(entries@), name@),
        },
{
    match find(entries, name) {
        None => Err(DecodeError { path: path_of(parent, name), kind: DecodeErrorKind::MissingField }),
        Some(Node::Text(text)) => Ok(text.clone()),
        Some(_) => Err(DecodeError { path: path_of(parent, name), kind: DecodeErrorKind::WrongType }),
    }
}

/// Reads the optional text field `name` of the record at `parent`.
pub fn read_optional_text(entries: &Vec<(Node, Node)>, parent: &str, name: &str) -> (read: Result<
    Option<String>,
    DecodeError,
>)
    ensures
        match optional_defect(entries_of(entries@), parent@, name@) {
            Some(defect) => read matches Err(error) && error@ == defect,
            None => read matches Ok(text) && optional_text(text) == optional_value(
                entries_of(entries@),
                name@,
            ),
        },
{
    match find(entries, name) {
        None => Ok(None),
        Some(Node::Null) => Ok(None),
        Some(Node::Text(text)) => Ok(Some(text.clone())),
        Some(_) => Err(DecodeError { path: path_of(parent, name), kind: DecodeErrorKind::WrongType }),
    }
}

/// Reads the required nested record `name` of the record at `parent`.
pub fn read_table<'a>(entries: &'a Vec<(Node, Node)>, parent: &str, name: &str) -> (read: Result<
    &'a Vec<(Node, Node)>,
    DecodeError,
>)
    ensures
        match table_defect(entries_of(entries@), parent@, name@) {
            Some(defect) => read matches Err(error) && error@ == defect,
            None => read matches Ok(inner) && entries_of(inner@) == table_value(
                entries_of(entries@),
                name@,
            ),
        },
{
    match find(entries, name) {
        None => Err(DecodeError { path: path_of(parent, name), kind: DecodeErrorKind::MissingField }),
        Some(Node::Table(inner)) => {
            proof {
                lemma_table_view(*inner);
            }
            Ok(inner)
        },
        Some(_) => Err(DecodeError { path: path_of(parent, name), kind: DecodeErrorKind::WrongType }),
    }
}

/// The first defect of a location record, its fields taken in declaration
/// order.
pub open spec fn location_defect(entries: Seq<(Tree, Tree)>, path: Seq<char>) -> Option<Defect> {
    first_of(
        optional_defect(entries, path, "address"@),
        first_of(
            optional_defect(entries, path, "postalCode"@),
            first_of(
                optional_defect(entries, path, "city"@),
                first_of(
                    optional_defect(entries, path, "region"@),
                    text_defect(entries, path, "countryCode"@),
                ),
            ),
        ),
    )
}

/// The location a record's entries stand for.
pub open spec fn location_value(entries: Seq<(Tree, Tree)>) -> LocationView {
    LocationView {
        address: optional_value(entries, "address"@),
        postal_code: optional_value(entries, "postalCode"@),
        city: optional_value(entries, "city"@),
        region: optional_value(entries, "region"@),
        country_code: text_value(entries, "countryCode"@),
    }
}

/// The first defect of a basics record: its own fields in declaration order,
/// then those of the nested location.
pub open spec fn basics_defect(entries: Seq<(Tree, Tree)>, path: Seq<char>) -> Option<Defect> {
    first_of(
        text_defect(entries, path, "name"@),
        first_of(
            text_defect(entries, path, "label"@),
            first_of(
                text_defect(entries, path, "imageUrl"@),
                first_of(
                    text_defect(entries, path, "email"@),
                    first_of(
                        text_defect(entries, path, "phone"@),
                        first_of(
                            text_defect(entries, path, "contactUrl"@),
                            first_of(
                                text_defect(entries, path, "summary"@),
                                first_of(
                                    table_defect(entries, path, "location"@),
                                    location_defect(
                                        table_value(entries, "location"@),
                                        field_path(path, "location"@),
                                    ),
                                ),
                            ),
                        ),
                    ),
                ),
            ),
        ),
    )
}

/// The basics a record's entries stand for.
pub open spec fn basics_value(entries: Seq<(Tree, Tree)>) -> BasicsView {
    BasicsView {
        name: text_value(entries, "name"@),
        label: text_value(entries, "label"@),
        image_url: text_value(entries, "imageUrl"@),
        email: text_value(entries, "email"@),
        phone: text_value(entries, "phone"@),
        contact_url: text_value(entries, "contactUrl"@),
        summary: text_value(entries, "summary"@),
        location: location_value(table_value(entries, "location"@)),
    }
}

/// The first defect of a whole document. A root that is no mapping is itself
/// the defect, at the empty path.
pub open spec fn profile_defect(tree: Tree) -> Option<Defect> {
    match tree {
        Tree::Table(entries) => first_of(
            text_defect(entries, Seq::empty(), "schemaId"@),
            first_of(
                table_defect(entries, Seq::empty(), "basics"@),
                basics_defect(table_value(entries, "basics"@), "basics"@),
            ),
        ),
        _ => Some(Defect { path: Seq::empty(), kind: DecodeErrorKind::WrongType }),
    }
}

/// The profile a document stands for.
pub open spec fn profile_value(tree: Tree) -> ProfileView {
    match tree {
        Tree::Table(entries) => ProfileView {
            schema_id: text_value(entries, "schemaId"@),
            basics: basics_value(table_value(entries, "basics"@)),
        },
        _ => ProfileView {
            schema_id: Seq::empty(),
            basics: basics_value(Seq::empty()),
        },
    }
}

/// What decoding a document yields: its first defect, or else its profile.
pub open spec fn decoded(tree: Tree) -> Result<ProfileView, Defect> {
    match profile_defect(tree) {
        Some(defect) => Err(defect),
        None => Ok(profile_value(tree)),
    }
}

/// Decodes the location record found at `path`.
pub fn decode_location(entries: &Vec<(Node, Node)>, path: &str) -> (read: Result<
    Location,
    DecodeError,
>)
    ensures
        match location_defect(entries_of(entries@), path@) {
            Some(defect) => read matches Err(error) && error@ == defect,
            None => read matches Ok(location) && location@ == location_value(entries_of(entries@)),
        },
{
    let address = read_optional_text(entries, path, "address")?;
    let postal_code = read_optional_text(entries, path, "postalCode")?;
    let city = read_optional_text(entries, path, "city")?;
    let region = read_optional_text(entries, path, "region")?;
    let country_code = read_text(entries, path, "countryCode")?;
    Ok(Location { address, postal_code, city, region, country_code })
}

/// Decodes the basics record found at `path`.
pub fn decode_basics(entries: &Vec<(Node, Node)>, path: &str) -> (read: Result<
    Basics,
    DecodeError,
>)
    ensures
        match basics_defect(entries_of(entries@), path@) {
            Some(defect) => read matches Err(error) && error@ == defect,
            None => read matches Ok(basics) && basics@ == basics_value(entries_of(entries@)),
        },
{
    let name = read_text(entries, path, "name")?;
    let label = read_text(entries, path, "label")?;
    let image_url = read_text(entries, path, "imageUrl")?;
    let email = read_text(entries, path, "email")?;
    let phone = read_text(entries, path, "phone")?;
    let contact_url = read_text(entries, path, "contactUrl")?;
    let summary = read_text(entries, path, "summary")?;
    let inner = read_table(entries, path, "location")?;
    let inner_path = path_of(path, "location");
    let location = decode_location(inner, inner_path.as_str())?;
    Ok(Basics { name, label, image_url, email, phone, contact_url, summary, location })
}

/// Maps a parsed document onto the profile model.
///
/// Succeeds exactly when the document has no defect, and then returns the
/// profile its fields stand for; otherwise fails with the first defect.
pub fn decode_tree(root: &Node) -> (read: Result<Profile, DecodeError>)
    ensures
        read is Ok <==> conforms(root@),
        match decoded(root@) {
            Ok(profile) => read matches Ok(value) && value@ == profile,
            Err(defect) => read matches Err(error) && error@ == defect,
        },
{
    proof {
        lemma_decoded_iff_conforms(root@);
    }
    match root {
        Node::Table(entries) => {
            proof {
                lemma_table_view(*entries);
                reveal_strlit("");
                assert(""@ =~= Seq::<char>::empty());
            }
            let schema_id = read_text(entries, "", "schemaId")?;
            let inner = read_table(entries, "", "basics")?;
            let basics = decode_basics(inner, "basics")?;
            Ok(Profile { schema_id, basics })
        },
        _ => Err(DecodeError { path: String::new(), kind: DecodeErrorKind::WrongType }),
    }
}

/// What decoding bytes yields: a syntax defect at the document root where
/// they do not parse, and otherwise what decoding the parsed document yields.
pub open spec fn decoded_bytes(bytes: Seq<u8>) -> Result<ProfileView, Defect> {
    match yaml_document(bytes) {
        None => Err(Defect { path: Seq::empty(), kind: DecodeErrorKind::Syntax }),
        Some(tree) => decoded(tree),
    }
}

/// Decodes a document from its bytes.
///
/// The bytes are parsed as YAML, which takes JSON-shaped documents too, and
/// the parsed document is handed to [`decode_tree`].
pub fn decode(source: &[u8]) -> (read: Result<Profile, DecodeError>)
    ensures
        read is Ok <==> (yaml_document(source@) matches Some(tree) && conforms(tree)),
        match decoded_bytes(source@) {
            Ok(profile) => read matches Ok(value) && value@ == profile,
            Err(defect) => read matches Err(error) && error@ == defect,
        },
{
    match parse_value(source) {
        Err(_) => Err(DecodeError { path: String::new(), kind: DecodeErrorKind::Syntax }),
        Ok(value) => {
            let root = node_of(value);
            decode_tree(&root)
        },
    }
}

/// The entries hold a text under `name`.
pub open spec fn holds_text(entries: Seq<(Tree, Tree)>, name: Seq<char>) -> bool {
    entry_of(entries, name) matches Some(Tree::Text(_))
}

/// The entries hold nothing, a null or a text under `name`.
pub open spec fn holds_optional_text(entries: Seq<(Tree, Tree)>, name: Seq<char>) -> bool {
    match entry_of(entries, name) {
        None => true,
        Some(Tree::Null) => true,
        Some(Tree::Text(_)) => true,
        Some(_) => false,
    }
}

/// The entries hold a nested record under `name`.
pub open spec fn holds_table(entries: Seq<(Tree, Tree)>, name: Seq<char>) -> bool {
    entry_of(entries, name) matches Some(Tree::Table(_))
}

/// The entries have the shape of a location record.
pub open spec fn location_conforms(entries: Seq<(Tree, Tree)>) -> bool {
    &&& holds_optional_text(entries, "address"@)
    &&& holds_optional_text(entries, "postalCode"@)
    &&& holds_optional_text(entries, "city"@)
    &&& holds_optional_text(entries, "region"@)
    &&& holds_text(entries, "countryCode"@)
}

/// The entries have the shape of a basics record.
pub open spec fn basics_conforms(entries: Seq<(Tree, Tree)>) -> bool {
    &&& holds_text(entries, "name"@)
    &&& holds_text(entries, "label"@)
    &&& holds_text(entries, "imageUrl"@)
    &&& holds_text(entries, "email"@)
    &&& holds_text(entries, "phone"@)
    &&& holds_text(entries, "contactUrl"@)
    &&& holds_text(entries, "summary"@)
    &&& holds_table(entries, "location"@)
    &&& location_conforms(table_value(entries, "location"@))
}

/// The document matches the profile schema: it is a mapping, every required
/// field is present with the right kind of node, and every optional field
/// is absent, null or a text.
pub open spec fn conforms(tree: Tree) -> bool {
    &&& tree matches Tree::Table(entries)
    &&& holds_text(entries, "schemaId"@)
    &&& holds_table(entries, "basics"@)
    &&& basics_conforms(table_value(entries, "basics"@))
}

/// Decoding is total and all-or-nothing: a document yields a profile exactly
/// when it matches the schema, and a defect in every other case. A defect
/// found in a parsed tree is never a syntax error.
pub proof fn lemma_decoded_iff_conforms(tree: Tree)
    ensures
        decoded(tree) is Ok <==> conforms(tree),
        decoded(tree) matches Err(defect) ==> defect.kind != DecodeErrorKind::Syntax,
{
}

/// A document that lacks `basics` altogether fails at the path `basics`.
pub proof fn lemma_missing_basics(entries: Seq<(Tree, Tree)>)
    requires
        holds_text(entries, "schemaId"@),
        entry_of(entries, "basics"@) is None,
    ensures
        decoded(Tree::Table(entries)) == Err::<ProfileView, Defect>(
            Defect { path: "basics"@, kind: DecodeErrorKind::MissingField },
        ),
{
}

/// A document whose basics lack `email`, with the fields declared before it
/// in place, fails at the path `basics.email`.
pub proof fn lemma_missing_email(entries: Seq<(Tree, Tree)>)
    requires
        holds_text(entries, "schemaId"@),
        holds_table(entries, "basics"@),
        holds_text(table_value(entries, "basics"@), "name"@),
        holds_text(table_value(entries, "basics"@), "label"@),
        holds_text(table_value(entries, "basics"@), "imageUrl"@),
        entry_of(table_value(entries, "basics"@), "email"@) is None,
    ensures
        decoded(Tree::Table(entries)) == Err::<ProfileView, Defect>(
            Defect { path: "basics.email"@, kind: DecodeErrorKind::MissingField },
        ),
{
    reveal_strlit("basics");
    reveal_strlit("email");
    reveal_strlit("basics.email");
    assert(field_path("basics"@, "email"@) =~= "basics.email"@);
}

/// A document that conforms but for its country code, which is present and
/// no text, fails at the path `basics.location.countryCode` with the wrong
/// type.
pub proof fn lemma_wrong_country_code(entries: Seq<(Tree, Tree)>)
    requires
        holds_text(entries, "schemaId"@),
        holds_table(entries, "basics"@),
        ({
            let basics = table_value(entries, "basics"@);
            let location = table_value(basics, "location"@);
            &&& holds_text(basics, "name"@)
            &&& holds_text(basics, "label"@)
            &&& holds_text(basics, "imageUrl"@)
            &&& holds_text(basics, "email"@)
            &&& holds_text(basics, "phone"@)
            &&& holds_text(basics, "contactUrl"@)
            &&& holds_text(basics, "summary"@)
            &&& holds_table(basics, "location"@)
            &&& holds_optional_text(location, "address"@)
            &&& holds_optional_text(location, "postalCode"@)
            &&& holds_optional_text(location, "city"@)
            &&& holds_optional_text(location, "region"@)
            &&& entry_of(location, "countryCode"@) is Some
            &&& !holds_text(location, "countryCode"@)
        }),
    ensures
        decoded(Tree::Table(entries)) == Err::<ProfileView, Defect>(
            Defect { path: "basics.location.countryCode"@, kind: DecodeErrorKind::WrongType },
        ),
{
    reveal_strlit("basics");
    reveal_strlit("location");
    reveal_strlit("countryCode");
    reveal_strlit("basics.location");
    reveal_strlit("basics.location.countryCode");
    assert(field_path("basics"@, "location"@) =~= "basics.location"@);
    assert(field_path("basics.location"@, "countryCode"@) =~= "basics.location.countryCode"@);
}

/// An optional field keeps its state through decoding: where the document
/// has no entry for it, or a null, the decoded field is absent; where it has
/// a text, the empty text included, the decoded field is present with that
/// very text. So absent and empty never coincide.
pub proof fn lemma_optional_preserved(entries: Seq<(Tree, Tree)>, name: Seq<char>)
    ensures
        entry_of(entries, name) is None ==> optional_value(entries, name) is None,
        entry_of(entries, name) == Some(Tree::Null) ==> optional_value(entries, name) is None,
        forall|text: Seq<char>|
            entry_of(entries, name) == Some(Tree::Text(text)) ==> optional_value(entries, name)
                == Some(text),
        entry_of(entries, name) == Some(Tree::Text(Seq::empty())) ==> optional_value(entries, name)
            != None::<Seq<char>>,
{
}

/// The city of a decoded profile is what the document's location gives for
/// it: absent where the location has no city entry, and present, though
/// empty, where the entry is the empty text.
pub proof fn lemma_city_preserved(tree: Tree)
    requires
        decoded(tree) is Ok,
    ensures
        ({
            let profile = decoded(tree)->Ok_0;
            let location = table_value(table_value(tree->Table_0, "basics"@), "location"@);
            &&& profile.basics.location.city == optional_value(location, "city"@)
            &&& entry_of(location, "city"@) is None ==> profile.basics.location.city is None
            &&& entry_of(location, "city"@) == Some(Tree::Text(Seq::empty()))
                ==> profile.basics.location.city == Some(Seq::<char>::empty())
        }),
{
}

} // verus!
