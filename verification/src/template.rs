//! The fields that a new record starts with.

use crate::database::{Statement, StatementView};
use crate::kind::ValueKind;
use crate::model::{Category, CategoryView, Record};
use vstd::prelude::*;

verus! {

/// One field of a template: everything of a field but its value, which the
/// user has yet to enter.
#[derive(Debug, PartialEq, Eq, Clone, Copy)]
pub struct FieldTemplate {
    pub label: &'static str,
    pub position: u32,
    pub required: bool,
    pub kind: ValueKind,
}

/// What a [`FieldTemplate`] is.
pub struct FieldTemplateView {
    pub label: Seq<char>,
    pub position: u32,
    pub required: bool,
    pub kind: ValueKind,
}

impl View for FieldTemplate {
    type V = FieldTemplateView;

    open spec fn view(&self) -> FieldTemplateView {
        FieldTemplateView {
            label: self.label@,
            position: self.position,
            required: self.required,
            kind: self.kind,
        }
    }
}

/// A required field at `position`.
pub open spec fn required_field(
    label: Seq<char>,
    position: u32,
    kind: ValueKind,
) -> FieldTemplateView {
    FieldTemplateView { label, position, required: true, kind }
}

/// The fields that a new record of `category` starts with.
pub open spec fn template_of(category: CategoryView) -> Seq<FieldTemplateView> {
    match category {
        CategoryView::Login => seq![
            required_field("Website"@, 1, ValueKind::Url),
            required_field("User"@, 2, ValueKind::Text),
            required_field("Password"@, 3, ValueKind::Password),
        ],
        CategoryView::BankCard => seq![
            required_field("Card number"@, 1, ValueKind::BankCardNumber),
            required_field("CVV"@, 2, ValueKind::Number),
            required_field("Expiration date"@, 3, ValueKind::Date),
            required_field("PIN"@, 4, ValueKind::Number),
        ],
        CategoryView::Note => seq![required_field("Note"@, 1, ValueKind::LongText)],
        CategoryView::Other(_) => seq![],
    }
}

fn field(label: &'static str, position: u32, kind: ValueKind) -> (field: FieldTemplate)
    ensures
        field@ == required_field(label@, position, kind),
{
    FieldTemplate { label, position, required: true, kind }
}

/// The fields that a new record of `category` starts with, in the order of
/// their positions.
pub fn template(category: &Category) -> (fields: Vec<FieldTemplate>)
    ensures
        fields@.map_values(|f: FieldTemplate| f@) == template_of(category@),
{
    let mut fields = Vec::new();
    match category {
        Category::Login => {
            fields.push(field("Website", 1, ValueKind::Url));
            fields.push(field("User", 2, ValueKind::Text));
            fields.push(field("Password", 3, ValueKind::Password));
        },
        Category::BankCard => {
            fields.push(field("Card number", 1, ValueKind::BankCardNumber));
            fields.push(field("CVV", 2, ValueKind::Number));
            fields.push(field("Expiration date", 3, ValueKind::Date));
            fields.push(field("PIN", 4, ValueKind::Number));
        },
        Category::Note => {
            fields.push(field("Note", 1, ValueKind::LongText));
        },
        Category::Other(_) => {},
    }
    assert(fields@.map_values(|f: FieldTemplate| f@) =~= template_of(category@));
    fields
}

/// In every template the fields are required and numbered from 1, without
/// a gap.
pub proof fn lemma_template_is_numbered(category: CategoryView, i: int)
    requires
        0 <= i < template_of(category).len(),
    ensures
        template_of(category)[i].position == i + 1,
        template_of(category)[i].required,
{
}

/// Where the content of a record comes from.
#[derive(Debug, PartialEq)]
pub enum ContentSource {
    /// The record is new: its content is the template of its category.
    Template(Vec<FieldTemplate>),
    /// The record is stored: its content is what this statement reads.
    Stored(Statement),
}

/// Says where the content of `record` comes from: from the template of its
/// category where the record has no id yet, from the store where it has.
pub fn content_source(record: &Record) -> (source: ContentSource)
    ensures
        match source {
            ContentSource::Template(fields) => record@.id == 0 && fields@.map_values(
                |f: FieldTemplate| f@,
            ) == template_of(record@.category),
            ContentSource::Stored(statement) => record@.id != 0 && statement@ == (
            StatementView::ContentOfRecord { record: record@.id }),
        },
{
    if record.id() == 0 {
        ContentSource::Template(template(record.category()))
    } else {
        ContentSource::Stored(Statement::ContentOfRecord { record: record.id() })
    }
}

} // verus!
