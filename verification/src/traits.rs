//! What records and fields have in common, for code that handles either.

use crate::model::{Content, ContentView, Record, RecordView};
use vstd::prelude::*;

verus! {

/// Items that the store gives an id to. An id of 0 says that the item has
/// not been stored yet.
pub trait Id {
    /// The id of the item.
    spec fn id_of(&self) -> u64;

    /// Whether `other` is this item but for its id.
    spec fn same_but_id(&self, other: &Self) -> bool;

    fn id(&self) -> (id: u64)
        ensures
            id == self.id_of(),
    ;

    fn set_id(&mut self, id: u64)
        ensures
            final(self).id_of() == id,
            old(self).same_but_id(final(self)),
    ;
}

/// Items with a label.
pub trait Label {
    /// The label of the item.
    spec fn label_of(&self) -> Seq<char>;

    /// Whether `other` is this item but for its label.
    spec fn same_but_label(&self, other: &Self) -> bool;

    fn label(&self) -> (label: &str)
        ensures
            label@ == self.label_of(),
    ;

    /// Replaces the label; the old one is wiped.
    fn set_label(&mut self, label: String)
        ensures
            final(self).label_of() == label@,
            old(self).same_but_label(final(self)),
    ;
}

/// Items with a position among their like.
pub trait Position {
    /// The position of the item.
    spec fn position_of(&self) -> u32;

    /// Whether `other` is this item but for its position.
    spec fn same_but_position(&self, other: &Self) -> bool;

    fn position(&self) -> (position: u32)
        ensures
            position == self.position_of(),
    ;

    fn set_position(&mut self, position: u32)
        ensures
            final(self).position_of() == position,
            old(self).same_but_position(final(self)),
    ;
}

/// Items that may be required.
pub trait Required {
    /// Whether the item is required.
    spec fn required_of(&self) -> bool;

    /// Whether `other` is this item but for being required or not.
    spec fn same_but_required(&self, other: &Self) -> bool;

    fn required(&self) -> (required: bool)
        ensures
            required == self.required_of(),
    ;

    fn set_required(&mut self, required: bool)
        ensures
            final(self).required_of() == required,
            old(self).same_but_required(final(self)),
    ;
}

impl Id for Record {
    open spec fn id_of(&self) -> u64 {
        self@.id
    }

    open spec fn same_but_id(&self, other: &Self) -> bool {
        other@ == (RecordView { id: other@.id, ..self@ })
    }

    fn id(&self) -> (id: u64) {
        Record::id(self)
    }

    fn set_id(&mut self, id: u64) {
        Record::set_id(self, id)
    }
}

impl Id for Content {
    open spec fn id_of(&self) -> u64 {
        self@.id
    }

    open spec fn same_but_id(&self, other: &Self) -> bool {
        other@ == (ContentView { id: other@.id, ..self@ })
    }

    fn id(&self) -> (id: u64) {
        Content::id(self)
    }

    fn set_id(&mut self, id: u64) {
        Content::set_id(self, id)
    }
}

impl Label for Content {
    open spec fn label_of(&self) -> Seq<char> {
        self@.label
    }

    open spec fn same_but_label(&self, other: &Self) -> bool {
        other@ == (ContentView { label: other@.label, ..self@ })
    }

    fn label(&self) -> (label: &str) {
        Content::label(self)
    }

    fn set_label(&mut self, label: String) {
        Content::set_label(self, label)
    }
}

impl Position for Content {
    open spec fn position_of(&self) -> u32 {
        self@.position
    }

    open spec fn same_but_position(&self, other: &Self) -> bool {
        other@ == (ContentView { position: other@.position, ..self@ })
    }

    fn position(&self) -> (position: u32) {
        Content::position(self)
    }

    fn set_position(&mut self, position: u32) {
        Content::set_position(self, position)
    }
}

impl Required for Content {
    open spec fn required_of(&self) -> bool {
        self@.required
    }

    open spec fn same_but_required(&self, other: &Self) -> bool {
        other@ == (ContentView { required: other@.required, ..self@ })
    }

    fn required(&self) -> (required: bool) {
        Content::required(self)
    }

    fn set_required(&mut self, required: bool) {
        Content::set_required(self, required)
    }
}

} // verus!
