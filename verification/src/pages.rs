//! The page data model: one rendered byte stream plus its declarative
//! navigation contract.
//!
//! A `Page` is exactly one encoder fragment and one `Meta`.  The `Meta` is
//! what the dispatcher consumes: its `links` table defines the entire legal
//! input alphabet of the page (an exact-match lookup from the submitted key
//! to a destination page identifier), and `inputs`, when present, is a
//! complete declarative form description.  Collecting keystrokes, running
//! validate hooks and invoking the form target belong to the session layer;
//! this model only guarantees the description is fully populated.

use vstd::prelude::*;
use crate::cept::Cept;

verus! {

/// The kind of input a form field accepts.
#[derive(Clone, Copy, Debug, PartialEq, Eq, Structural)]
pub enum FieldType {
    /// Free text.
    Text,
    /// Digits only.
    Number,
    /// Letters only.
    Alpha,
    /// Free text, echoed masked.
    Password,
}

/// One field of a declarative input form.
pub struct Field {
    pub name: String,
    pub line: u8,
    pub column: u8,
    pub height: u8,
    pub width: u8,
    pub fgcolor: u8,
    pub bgcolor: u8,
    pub hint: String,
    pub field_type: FieldType,
    pub default: Option<String>,
    pub legal_values: Option<Vec<String>>,
    pub validate: Option<String>,
    pub overwrite: bool,
    pub cursor_home: bool,
}

impl Field {
    /// A single-line free-text field with the usual form colors and no
    /// default, allow-list, validate hook or display flag.
    pub fn text(name: &str, line: u8, column: u8, width: u8, hint: &str) -> (f: Field)
        ensures
            f.name@ == name@,
            f.line == line,
            f.column == column,
            f.height == 1,
            f.width == width,
            f.fgcolor == 3,
            f.bgcolor == 12,
            f.hint@ == hint@,
            f.field_type == FieldType::Text,
            f.default is None,
            f.legal_values is None,
            f.validate is None,
            !f.overwrite,
            !f.cursor_home,
    {
        Field {
            name: name.to_owned(),
            line,
            column,
            height: 1,
            width,
            fgcolor: 3,
            bgcolor: 12,
            hint: hint.to_owned(),
            field_type: FieldType::Text,
            default: None,
            legal_values: None,
            validate: None,
            overwrite: false,
            cursor_home: false,
        }
    }
}

/// A declarative form description: whether a confirmation step follows,
/// the callback reference invoked on submission, and the fields in order.
pub struct InputForm {
    pub confirm: bool,
    pub target: String,
    pub fields: Vec<Field>,
}

/// The declarative navigation/display contract accompanying a page's byte
/// stream, immutable once built.
///
/// `links` is an ordered sequence of (key, target page id) pairs; insertion
/// order is the observable contract, and a submitted key with no matching
/// entry means "no navigation bound".
pub struct Meta {
    pub publisher_name: Option<String>,
    pub publisher_color: u8,
    pub clear_screen: bool,
    pub cls2: bool,
    pub parallel_mode: bool,
    pub links: Vec<(String, String)>,
    pub inputs: Option<InputForm>,
}

/// The first target bound to `key` in an ordered link table, if any: the
/// exact-match lookup the dispatcher performs on the user's submitted key.
pub open spec fn target_for(links: Seq<(String, String)>, key: Seq<char>) -> Option<Seq<char>>
    decreases links.len(),
{
    if links.len() == 0 {
        None
    } else if links[0].0@ == key {
        Some(links[0].1@)
    } else {
        target_for(links.drop_first(), key)
    }
}

/// One fully rendered, immutable unit: a byte stream and its navigation
/// contract.  All mutation happens through the encoder during construction;
/// once handed to the dispatcher the page is never changed.
pub struct Page {
    pub cept: Cept,
    pub meta: Meta,
}

impl Page {
    pub open spec fn wf(self) -> bool {
        self.cept.wf()
    }

    /// A page with the given contract and an empty byte stream, ready for
    /// the generator to render into.
    pub fn new(meta: Meta) -> (p: Page)
        ensures
            p.cept@ == Seq::<u8>::empty(),
            p.cept.char_count() == 0,
            p.meta == meta,
            p.wf(),
    {
        Page { cept: Cept::new(), meta }
    }
}

} // verus!
