//! The local store: every item received so far, by item id.

use vstd::prelude::*;
use crate::config::DATA_ETAT_INITIALISATION;
use crate::json::{
    json_of, members, no_members, object_clone, object_get, object_len, object_new, parse_json,
    parsed_json, value_as_i64, value_as_object, value_as_str, Json, JsonNumber,
};

verus! {

/// The accumulated items and the legacy fields that the data file carries.
#[derive(Debug)]
pub struct Store {
    /// Lifecycle state.
    pub etat: String,
    /// Legacy offset, kept for the file's sake.
    pub offset: i64,
    /// Legacy watermark, kept for the file's sake.
    pub date: u64,
    /// Item payloads by item id.
    pub liste: serde_json::Map<String, serde_json::Value>,
}

/// Member of the data file that holds the lifecycle state.
pub const DATA_ETAT: &'static str = "etat";

/// Member of the data file that holds the legacy offset.
pub const DATA_OFFSET: &'static str = "offset";

/// Member of the data file that holds the legacy watermark.
pub const DATA_DATE: &'static str = "date";

/// Member of the data file that holds the items.
pub const DATA_LISTE: &'static str = "liste";

/// Why a data file gives no store.
#[derive(Debug, Clone, Copy, PartialEq, Eq, Structural)]
pub enum StoreError {
    /// The file is no JSON document.
    Unparseable,
    /// The document is no object, or its member `liste` is missing or is no
    /// object.
    Malformed,
}

/// The text that a document holds under a key, and the empty text where
/// the member is missing or is no text.
pub open spec fn text_member(doc: Map<Seq<char>, Json>, key: Seq<char>) -> Seq<char> {
    if doc.contains_key(key) {
        match doc[key] {
            Json::Text(s) => s,
            _ => Seq::empty(),
        }
    } else {
        Seq::empty()
    }
}

/// The integer that a document holds under a key, and zero where the
/// member is missing or is no integer that fits in `i64`.
pub open spec fn integer_member(doc: Map<Seq<char>, Json>, key: Seq<char>) -> i64 {
    if doc.contains_key(key) {
        match doc[key] {
            Json::Number(JsonNumber::Integer(i)) => if i64::MIN <= i <= i64::MAX {
                i as i64
            } else {
                0i64
            },
            _ => 0i64,
        }
    } else {
        0i64
    }
}

/// The items that a document holds for a store, if it holds any: the
/// members of its member `liste`.
pub open spec fn document_items(doc: Json) -> Option<Map<Seq<char>, Json>> {
    match doc {
        Json::Object(m) => if m.contains_key(DATA_LISTE@) {
            match m[DATA_LISTE@] {
                Json::Object(liste) => Some(liste),
                _ => None,
            }
        } else {
            None
        },
        _ => None,
    }
}

impl Store {
    /// Whether the store holds what the document `doc` states.
    pub open spec fn read_from(&self, doc: Json) -> bool {
        &&& document_items(doc) == Some(self.items())
        &&& self.etat@ == text_member(doc->Object_0, DATA_ETAT@)
        &&& self.offset == integer_member(doc->Object_0, DATA_OFFSET@)
        &&& self.date == if integer_member(doc->Object_0, DATA_DATE@) >= 0 {
            integer_member(doc->Object_0, DATA_DATE@) as u64
        } else {
            0
        }
    }

    /// The items of the store, by item id.
    pub open spec fn items(&self) -> Map<Seq<char>, Json> {
        members(self.liste)
    }

    /// Whether the two stores differ in nothing but their items.
    pub open spec fn same_header(&self, other: &Store) -> bool {
        &&& self.etat == other.etat
        &&& self.offset == other.offset
        &&& self.date == other.date
    }

    /// The store of a first run: no item, in the state `initialisation`.
    pub fn new() -> (s: Store)
        ensures
            s.items() == no_members(),
            s.etat@ == DATA_ETAT_INITIALISATION@,
            s.offset == 0,
            s.date == 0,
    {
        Store {
            etat: String::from_str(DATA_ETAT_INITIALISATION),
            offset: 0,
            date: 0,
            liste: object_new(),
        }
    }

    /// Number of items in the store.
    pub fn len(&self) -> (n: usize)
        ensures
            n == self.items().len(),
    {
        object_len(&self.liste)
    }
}

/// Reads an integer member of a document.
fn read_integer(doc: &serde_json::Map<String, serde_json::Value>, key: &str) -> (n: i64)
    ensures
        n == integer_member(members(*doc), key@),
{
    match object_get(doc, key) {
        Some(v) => match value_as_i64(v) {
            Some(n) => n,
            None => 0,
        },
        None => 0,
    }
}

/// Reads a text member of a document.
fn read_text(doc: &serde_json::Map<String, serde_json::Value>, key: &str) -> (s: String)
    ensures
        s@ == text_member(members(*doc), key@),
{
    match object_get(doc, key) {
        Some(v) => match value_as_str(v) {
            Some(s) => String::from_str(s),
            None => String::new(),
        },
        None => String::new(),
    }
}

/// Makes a store of a decoded data file. The document has to be an object
/// whose member `liste` is an object; the other members are read where they
/// have the expected type and count as blank or zero where they have not.
pub fn store_from_document(doc: &serde_json::Value) -> (r: Result<Store, StoreError>)
    ensures
        match r {
            Ok(s) => s.read_from(json_of(*doc)),
            Err(e) => e == StoreError::Malformed && document_items(json_of(*doc)) is None,
        },
{
    match value_as_object(doc) {
        Some(fields) => match object_get(fields, DATA_LISTE) {
            Some(liste_value) => match value_as_object(liste_value) {
                Some(liste) => {
                    let date = read_integer(fields, DATA_DATE);
                    Ok(
                        Store {
                            etat: read_text(fields, DATA_ETAT),
                            offset: read_integer(fields, DATA_OFFSET),
                            date: if date >= 0 {
                                date as u64
                            } else {
                                0
                            },
                            liste: object_clone(liste),
                        },
                    )
                },
                None => Err(StoreError::Malformed),
            },
            None => Err(StoreError::Malformed),
        },
        None => Err(StoreError::Malformed),
    }
}

/// Makes a store of the text of a data file.
pub fn parse_store(text: &str) -> (r: Result<Store, StoreError>)
    ensures
        match r {
            Ok(s) => parsed_json(text@) matches Some(doc) && s.read_from(doc),
            Err(StoreError::Unparseable) => parsed_json(text@) is None,
            Err(StoreError::Malformed) => parsed_json(text@) matches Some(doc) && document_items(
                doc,
            ) is None,
        },
{
    match parse_json(text) {
        Ok(doc) => store_from_document(&doc),
        Err(_) => Err(StoreError::Unparseable),
    }
}

/// The store that a run starts from: the one that was read, or a fresh one
/// when none was on disk.
pub fn init_store(lu: Option<Store>) -> (s: Store)
    ensures
        lu matches Some(p) ==> s == p,
        lu is None ==> s.items() == no_members() && s.etat@ == DATA_ETAT_INITIALISATION@
            && s.offset == 0 && s.date == 0,
{
    match lu {
        Some(p) => p,
        None => Store::new(),
    }
}

} // verus!
