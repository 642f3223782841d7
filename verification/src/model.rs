//! Records and their content.
//!
//! A record is a titled, categorised container. Its content is a list of
//! labelled fields, each holding one value. Identity is given by the store:
//! an id of 0 says that the item has not been stored yet.

use crate::error::ValidationError;
use crate::kind::ValueKind;
use crate::secret::SecretValue;
use crate::text::same_text;
use crate::value::{
    BankCardNumber, Date, Email, LongText, Number, Password, PhoneNumber, SensitiveText, TOTPSecret,
    Text, Url,
};
use vstd::prelude::*;

verus! {

/// The value of one field.
#[derive(Debug, PartialEq)]
pub enum Value {
    Number(Number),
    Text(Text),
    LongText(LongText),
    SensitiveText(SensitiveText),
    Date(Date),
    Password(Password),
    TOTPSecret(TOTPSecret),
    Url(Url),
    Email(Email),
    PhoneNumber(PhoneNumber),
    BankCardNumber(BankCardNumber),
}

/// What a [`Value`] is: a kind and a text.
pub struct ValueView {
    pub kind: ValueKind,
    pub text: Seq<char>,
}

impl ValueView {
    /// The text is one that the kind holds.
    pub open spec fn valid(self) -> bool {
        self.kind.holds(self.text)
    }

    /// What the generic export shows of the value: its text, unless the kind
    /// is secret.
    pub open spec fn exported(self) -> Option<Seq<char>> {
        if self.kind.secret() {
            None
        } else {
            Some(self.text)
        }
    }
}

impl View for Value {
    type V = ValueView;

    open spec fn view(&self) -> ValueView {
        match self {
            Value::Number(v) => ValueView { kind: ValueKind::Number, text: v@ },
            Value::Text(v) => ValueView { kind: ValueKind::Text, text: v@ },
            Value::LongText(v) => ValueView { kind: ValueKind::LongText, text: v@ },
            Value::SensitiveText(v) => ValueView { kind: ValueKind::SensitiveText, text: v@ },
            Value::Date(v) => ValueView { kind: ValueKind::Date, text: v@ },
            Value::Password(v) => ValueView { kind: ValueKind::Password, text: v@ },
            Value::TOTPSecret(v) => ValueView { kind: ValueKind::TOTPSecret, text: v@ },
            Value::Url(v) => ValueView { kind: ValueKind::Url, text: v@ },
            Value::Email(v) => ValueView { kind: ValueKind::Email, text: v@ },
            Value::PhoneNumber(v) => ValueView { kind: ValueKind::PhoneNumber, text: v@ },
            Value::BankCardNumber(v) => ValueView { kind: ValueKind::BankCardNumber, text: v@ },
        }
    }
}

impl Value {
    /// Makes a value of `kind` from `raw`: succeeds exactly where the kind
    /// accepts `raw`, and otherwise says what is wrong with it.
    pub fn construct(kind: ValueKind, raw: String) -> (made: Result<Value, ValidationError>)
        ensures
            match made {
                Ok(v) => kind.accepts(raw@) && v@.kind == kind && v@.text == kind.canonical(raw@)
                    && v@.valid(),
                Err(e) => kind.fault(raw@) == Some(e),
            },
    {
        match kind {
            ValueKind::Number => match Number::new(raw) {
                Ok(v) => Ok(Value::Number(v)),
                Err(e) => Err(e),
            },
            ValueKind::Text => Ok(Value::Text(Text::new(raw))),
            ValueKind::LongText => Ok(Value::LongText(LongText::new(raw))),
            ValueKind::SensitiveText => Ok(Value::SensitiveText(SensitiveText::new(raw))),
            ValueKind::Date => match Date::new(raw) {
                Ok(v) => Ok(Value::Date(v)),
                Err(e) => Err(e),
            },
            ValueKind::Password => Ok(Value::Password(Password::new(raw))),
            ValueKind::TOTPSecret => match TOTPSecret::new(raw) {
                Ok(v) => Ok(Value::TOTPSecret(v)),
                Err(e) => Err(e),
            },
            ValueKind::Url => match Url::new(raw) {
                Ok(v) => Ok(Value::Url(v)),
                Err(e) => Err(e),
            },
            ValueKind::Email => match Email::new(raw) {
                Ok(v) => Ok(Value::Email(v)),
                Err(e) => Err(e),
            },
            ValueKind::PhoneNumber => match PhoneNumber::new(raw) {
                Ok(v) => Ok(Value::PhoneNumber(v)),
                Err(e) => Err(e),
            },
            ValueKind::BankCardNumber => match BankCardNumber::new(raw) {
                Ok(v) => Ok(Value::BankCardNumber(v)),
                Err(e) => Err(e),
            },
        }
    }

    pub fn kind(&self) -> (kind: ValueKind)
        ensures
            kind == self@.kind,
    {
        match self {
            Value::Number(_) => ValueKind::Number,
            Value::Text(_) => ValueKind::Text,
            Value::LongText(_) => ValueKind::LongText,
            Value::SensitiveText(_) => ValueKind::SensitiveText,
            Value::Date(_) => ValueKind::Date,
            Value::Password(_) => ValueKind::Password,
            Value::TOTPSecret(_) => ValueKind::TOTPSecret,
            Value::Url(_) => ValueKind::Url,
            Value::Email(_) => ValueKind::Email,
            Value::PhoneNumber(_) => ValueKind::PhoneNumber,
            Value::BankCardNumber(_) => ValueKind::BankCardNumber,
        }
    }

    /// The explicit reveal: the text of the value, whatever its kind. This is
    /// the text that the store keeps.
    pub fn as_str(&self) -> (text: &str)
        ensures
            text@ == self@.text,
            self@.valid(),
    {
        match self {
            Value::Number(v) => v.value(),
            Value::Text(v) => v.value(),
            Value::LongText(v) => v.value(),
            Value::SensitiveText(v) => v.value(),
            Value::Date(v) => v.value(),
            Value::Password(v) => v.value(),
            Value::TOTPSecret(v) => v.value(),
            Value::Url(v) => v.value(),
            Value::Email(v) => v.value(),
            Value::PhoneNumber(v) => v.value(),
            Value::BankCardNumber(v) => v.value(),
        }
    }

    /// A copy of the text as the store keeps it. The copy is not wiped when
    /// it is released; prefer [`Value::to_secret_string`].
    pub fn to_plain_string(&self) -> (text: String)
        ensures
            text@ == self@.text,
    {
        self.as_str().to_owned()
    }

    /// A copy of the text in a container that wipes it on release.
    pub fn to_secret_string(&self) -> (secret: SecretValue)
        ensures
            secret@ == self@.text,
    {
        SecretValue::new(self.as_str().to_owned())
    }

    /// What the generic export may show: nothing for a secret kind.
    pub fn exported(&self) -> (shown: Option<&str>)
        ensures
            match shown {
                Some(text) => self@.exported() == Some(text@),
                None => self@.exported() is None,
            },
    {
        if self.kind().is_secret() {
            None
        } else {
            Some(self.as_str())
        }
    }
}

/// The category of a record: one of three fixed ones, or any other, known
/// by its label.
#[derive(Debug, PartialEq, Eq)]
pub enum Category {
    Login,
    BankCard,
    Note,
    /// Whatever is none of the others, with the label that it goes by.
    Other(String),
}

/// What a [`Category`] is.
pub enum CategoryView {
    Login,
    BankCard,
    Note,
    Other(Seq<char>),
}

impl View for Category {
    type V = CategoryView;

    open spec fn view(&self) -> CategoryView {
        match self {
            Category::Login => CategoryView::Login,
            Category::BankCard => CategoryView::BankCard,
            Category::Note => CategoryView::Note,
            Category::Other(label) => CategoryView::Other(label@),
        }
    }
}

impl CategoryView {
    /// The name under which the category is stored and shown: its label
    /// where it is none of the fixed ones.
    pub open spec fn name(self) -> Seq<char> {
        match self {
            CategoryView::Login => "Login"@,
            CategoryView::BankCard => "BankCard"@,
            CategoryView::Note => "Note"@,
            CategoryView::Other(label) => label,
        }
    }

    /// The category that a name stands for: each fixed category under its
    /// own name, and under any other name the category of that label.
    pub open spec fn of_name(name: Seq<char>) -> CategoryView {
        if name == "Login"@ {
            CategoryView::Login
        } else if name == "BankCard"@ {
            CategoryView::BankCard
        } else if name == "Note"@ {
            CategoryView::Note
        } else {
            CategoryView::Other(name)
        }
    }

    /// A category is proper unless it is labelled with the name of a fixed
    /// one. Reading a name gives a proper category.
    pub open spec fn proper(self) -> bool {
        match self {
            CategoryView::Other(label) => label != "Login"@ && label != "BankCard"@ && label
                != "Note"@,
            _ => true,
        }
    }
}

impl Clone for Category {
    fn clone(&self) -> (copy: Self)
        ensures
            copy@ == self@,
    {
        match self {
            Category::Login => Category::Login,
            Category::BankCard => Category::BankCard,
            Category::Note => Category::Note,
            Category::Other(label) => Category::Other(label.clone()),
        }
    }
}

impl Category {
    /// Reads a stored name. Never fails: a name that is none of the three
    /// fixed ones becomes the label of the category.
    pub fn from_string(category: String) -> (found: Category)
        ensures
            found@ == CategoryView::of_name(category@),
            found@.proper(),
    {
        if same_text(category.as_str(), "Login") {
            Category::Login
        } else if same_text(category.as_str(), "BankCard") {
            Category::BankCard
        } else if same_text(category.as_str(), "Note") {
            Category::Note
        } else {
            Category::Other(category)
        }
    }

    /// The name under which the category is stored and shown.
    pub fn as_str(&self) -> (name: &str)
        ensures
            name@ == self@.name(),
    {
        match self {
            Category::Login => "Login",
            Category::BankCard => "BankCard",
            Category::Note => "Note",
            Category::Other(label) => label.as_str(),
        }
    }
}

/// The name of a category undoes the reading of it: whatever text a category
/// was read from is the name that it is stored and shown under.
pub proof fn lemma_name_undoes_from_string(name: Seq<char>)
    ensures
        CategoryView::of_name(name).name() == name,
        CategoryView::of_name(name).proper(),
{
}

/// Every proper category is found again under its own name.
pub proof fn lemma_name_names_category(category: CategoryView)
    requires
        category.proper(),
    ensures
        CategoryView::of_name(category.name()) == category,
{
    reveal_strlit("Login");
    reveal_strlit("BankCard");
    reveal_strlit("Note");
    assert("Login"@.len() == 5);
    assert("BankCard"@.len() == 8);
    assert("Note"@.len() == 4);
}

/// A point in time: whole seconds since the Unix epoch, which are negative
/// before it, and the nanoseconds into that second.
#[derive(Debug, PartialEq, Eq, Clone, Copy, Structural)]
pub struct Timestamp {
    pub seconds: i64,
    pub nanos: u32,
}

/// Nanoseconds in a second.
pub const NANOS_PER_SECOND: u32 = 1_000_000_000;

/// Trusted: `std::time::SystemTime::now` and its `duration_since` the Unix
/// epoch. The clock stands after the epoch (`Ok`) or before it (`Err`), by
/// so many whole seconds and nanoseconds; as in every `Duration`, the
/// nanoseconds are fewer than a second. Nothing else is known of the
/// reading.
#[verifier::external_body]
pub(crate) fn clock() -> (reading: Result<(u64, u32), (u64, u32)>)
    ensures
        match reading {
            Ok(after) => after.1 < NANOS_PER_SECOND,
            Err(before) => before.1 < NANOS_PER_SECOND,
        },
{
    match std::time::SystemTime::now().duration_since(std::time::UNIX_EPOCH) {
        Ok(after) => Ok((after.as_secs(), after.subsec_nanos())),
        Err(before) => Err((before.duration().as_secs(), before.duration().subsec_nanos())),
    }
}

impl Timestamp {
    /// The point in time of a reading of the clock: so far after the epoch,
    /// or so far before it. A reading beyond the range of the seconds is
    /// taken for the end of the range.
    pub open spec fn of_reading(reading: Result<(u64, u32), (u64, u32)>) -> Timestamp {
        match reading {
            Ok((seconds, nanos)) => if seconds > i64::MAX {
                Timestamp { seconds: i64::MAX, nanos }
            } else {
                Timestamp { seconds: seconds as i64, nanos }
            },
            Err((seconds, nanos)) => if seconds >= i64::MAX {
                Timestamp { seconds: i64::MIN, nanos: 0 }
            } else if nanos == 0 || nanos >= NANOS_PER_SECOND {
                Timestamp { seconds: (-seconds) as i64, nanos: 0 }
            } else {
                Timestamp {
                    seconds: (-seconds - 1) as i64,
                    nanos: (NANOS_PER_SECOND - nanos) as u32,
                }
            },
        }
    }

    /// The point in time of a reading of the clock.
    pub fn from_reading(reading: Result<(u64, u32), (u64, u32)>) -> (time: Timestamp)
        ensures
            time == Timestamp::of_reading(reading),
    {
        match reading {
            Ok((seconds, nanos)) => if seconds > 0x7fff_ffff_ffff_ffffu64 {
                Timestamp { seconds: i64::MAX, nanos }
            } else {
                Timestamp { seconds: seconds as i64, nanos }
            },
            Err((seconds, nanos)) => if seconds >= 0x7fff_ffff_ffff_ffffu64 {
                Timestamp { seconds: i64::MIN, nanos: 0 }
            } else if nanos == 0 || nanos >= NANOS_PER_SECOND {
                Timestamp { seconds: -(seconds as i64), nanos: 0 }
            } else {
                Timestamp { seconds: -(seconds as i64) - 1, nanos: NANOS_PER_SECOND - nanos }
            },
        }
    }

    /// The time of the clock, wherever it stands.
    pub fn now() -> (now: Timestamp)
        ensures
            now.nanos < NANOS_PER_SECOND,
            exists|reading: Result<(u64, u32), (u64, u32)>|
                now == #[trigger] Timestamp::of_reading(reading),
    {
        Timestamp::from_reading(clock())
    }

    /// Whether `self` is strictly later than `other`.
    pub open spec fn later_than(self, other: Timestamp) -> bool {
        self.seconds > other.seconds || (self.seconds == other.seconds && self.nanos > other.nanos)
    }

    /// Whether `self` is strictly later than `other`.
    pub fn is_later_than(&self, other: &Timestamp) -> (later: bool)
        ensures
            later == self.later_than(*other),
    {
        self.seconds > other.seconds || (self.seconds == other.seconds && self.nanos > other.nanos)
    }
}

/// A titled, categorised container of content.
#[derive(Debug, PartialEq)]
pub struct Record {
    id: u64,
    title: SecretValue,
    subtitle: SecretValue,
    category: Category,
    created: Timestamp,
    last_modified: Timestamp,
}

/// What a [`Record`] is.
pub struct RecordView {
    pub id: u64,
    pub title: Seq<char>,
    pub subtitle: Seq<char>,
    pub category: CategoryView,
    pub created: Timestamp,
    pub last_modified: Timestamp,
}

impl View for Record {
    type V = RecordView;

    closed spec fn view(&self) -> RecordView {
        RecordView {
            id: self.id,
            title: self.title@,
            subtitle: self.subtitle@,
            category: self.category@,
            created: self.created,
            last_modified: self.last_modified,
        }
    }
}

impl Clone for Record {
    fn clone(&self) -> (copy: Self)
        ensures
            copy@ == self@,
    {
        Record {
            id: self.id,
            title: self.title.clone(),
            subtitle: self.subtitle.clone(),
            category: self.category.clone(),
            created: self.created,
            last_modified: self.last_modified,
        }
    }
}

impl Record {
    /// A record that is not stored yet: its id is 0, and both of its times
    /// are read from the clock.
    pub fn new(title: String, subtitle: String, category: Category) -> (record: Record)
        ensures
            record@.id == 0,
            record@.title == title@,
            record@.subtitle == subtitle@,
            record@.category == category@,
            exists|reading: Result<(u64, u32), (u64, u32)>|
                record@.created == #[trigger] Timestamp::of_reading(reading),
            exists|reading: Result<(u64, u32), (u64, u32)>|
                record@.last_modified == #[trigger] Timestamp::of_reading(reading),
    {
        Record {
            id: 0,
            title: SecretValue::new(title),
            subtitle: SecretValue::new(subtitle),
            category,
            created: Timestamp::now(),
            last_modified: Timestamp::now(),
        }
    }

    pub fn id(&self) -> (id: u64)
        ensures
            id == self@.id,
    {
        self.id
    }

    pub fn title(&self) -> (title: &str)
        ensures
            title@ == self@.title,
    {
        self.title.expose_secret()
    }

    pub fn subtitle(&self) -> (subtitle: &str)
        ensures
            subtitle@ == self@.subtitle,
    {
        self.subtitle.expose_secret()
    }

    pub fn category(&self) -> (category: &Category)
        ensures
            category@ == self@.category,
    {
        &self.category
    }

    pub fn created(&self) -> (created: Timestamp)
        ensures
            created == self@.created,
    {
        self.created
    }

    pub fn last_modified(&self) -> (last_modified: Timestamp)
        ensures
            last_modified == self@.last_modified,
    {
        self.last_modified
    }

    pub fn set_id(&mut self, id: u64)
        ensures
            final(self)@ == (RecordView { id, ..old(self)@ }),
    {
        self.id = id;
    }

    pub fn set_created(&mut self, created: Timestamp)
        ensures
            final(self)@ == (RecordView { created, ..old(self)@ }),
    {
        self.created = created;
    }

    pub fn set_last_modified(&mut self, last_modified: Timestamp)
        ensures
            final(self)@ == (RecordView { last_modified, ..old(self)@ }),
    {
        self.last_modified = last_modified;
    }

    /// Replaces the title; the old one is wiped.
    pub fn set_title(&mut self, title: String)
        ensures
            final(self)@ == (RecordView { title: title@, ..old(self)@ }),
    {
        self.title = SecretValue::new(title);
    }

    /// Replaces the subtitle; the old one is wiped.
    pub fn set_subtitle(&mut self, subtitle: String)
        ensures
            final(self)@ == (RecordView { subtitle: subtitle@, ..old(self)@ }),
    {
        self.subtitle = SecretValue::new(subtitle);
    }

    pub fn set_category(&mut self, category: Category)
        ensures
            final(self)@ == (RecordView { category: category@, ..old(self)@ }),
    {
        self.category = category;
    }
}

/// One labelled field of a record.
#[derive(Debug, PartialEq)]
pub struct Content {
    id: u64,
    label: SecretValue,
    position: u32,
    required: bool,
    value: Value,
}

/// What a [`Content`] is.
pub struct ContentView {
    pub id: u64,
    pub label: Seq<char>,
    pub position: u32,
    pub required: bool,
    pub value: ValueView,
}

impl View for Content {
    type V = ContentView;

    closed spec fn view(&self) -> ContentView {
        ContentView {
            id: self.id,
            label: self.label@,
            position: self.position,
            required: self.required,
            value: self.value@,
        }
    }
}

/// What the generic export shows of a [`Content`]. The value of a secret
/// kind is not in it.
#[derive(Debug, PartialEq)]
pub struct ExportedContent {
    pub id: u64,
    pub label: String,
    pub position: u32,
    pub required: bool,
    pub kind: ValueKind,
    pub value: Option<String>,
}

impl Content {
    /// A field that is not stored yet: its id is 0.
    pub fn new(label: String, position: u32, required: bool, value: Value) -> (content: Content)
        ensures
            content@ == (ContentView {
                id: 0,
                label: label@,
                position,
                required,
                value: value@,
            }),
    {
        Content { id: 0, label: SecretValue::new(label), position, required, value }
    }

    /// The tag of the value's kind.
    pub fn kind(&self) -> (tag: &'static str)
        ensures
            tag@ == self@.value.kind.tag(),
    {
        self.value.kind().as_str()
    }

    pub fn id(&self) -> (id: u64)
        ensures
            id == self@.id,
    {
        self.id
    }

    pub fn label(&self) -> (label: &str)
        ensures
            label@ == self@.label,
    {
        self.label.expose_secret()
    }

    pub fn position(&self) -> (position: u32)
        ensures
            position == self@.position,
    {
        self.position
    }

    pub fn required(&self) -> (required: bool)
        ensures
            required == self@.required,
    {
        self.required
    }

    pub fn value(&self) -> (value: &Value)
        ensures
            value@ == self@.value,
    {
        &self.value
    }

    pub fn set_id(&mut self, id: u64)
        ensures
            final(self)@ == (ContentView { id, ..old(self)@ }),
    {
        self.id = id;
    }

    /// Replaces the label; the old one is wiped.
    pub fn set_label(&mut self, label: String)
        ensures
            final(self)@ == (ContentView { label: label@, ..old(self)@ }),
    {
        self.label = SecretValue::new(label);
    }

    /// Moves the field to another position. Positions are the caller's to
    /// number; nothing here keeps them apart.
    pub fn set_position(&mut self, position: u32)
        ensures
            final(self)@ == (ContentView { position, ..old(self)@ }),
    {
        self.position = position;
    }

    pub fn set_required(&mut self, required: bool)
        ensures
            final(self)@ == (ContentView { required, ..old(self)@ }),
    {
        self.required = required;
    }

    /// Replaces the value, which may be of another kind; the old one is
    /// wiped.
    pub fn set_value(&mut self, value: Value)
        ensures
            final(self)@ == (ContentView { value: value@, ..old(self)@ }),
    {
        self.value = value;
    }

    /// The generic export. A secret value never appears in it; it is only
    /// had from [`Value::as_str`] or [`Value::to_secret_string`].
    pub fn export(&self) -> (shown: ExportedContent)
        ensures
            shown.id == self@.id,
            shown.label@ == self@.label,
            shown.position == self@.position,
            shown.required == self@.required,
            shown.kind == self@.value.kind,
            self@.value.kind.secret() ==> shown.value is None,
            !self@.value.kind.secret() ==> shown.value is Some && shown.value->0@
                == self@.value.text,
    {
        let value = match self.value.exported() {
            Some(text) => Some(text.to_owned()),
            None => None,
        };
        ExportedContent {
            id: self.id,
            label: self.label.expose_secret().to_owned(),
            position: self.position,
            required: self.required,
            kind: self.value.kind(),
            value,
        }
    }
}

} // verus!
