//! One log event as a GELF document: which fields the document has, under
//! which keys and in which order.

use crate::level::Level;
use vstd::prelude::*;
use vstd::string::StringExecFns;

verus! {

/// A point in time: whole seconds since the Unix epoch, and the
/// milliseconds into the second.
#[derive(Clone, Copy, Debug, PartialEq, Eq, Structural)]
pub struct Timestamp {
    pub seconds: i64,
    pub millis: u32,
}

/// The value of one field of a document.
#[derive(Debug, PartialEq, Eq)]
pub enum Value {
    /// A text.
    Text(String),
    /// A time, written as seconds with a fraction.
    Time(Timestamp),
    /// A severity, written as its number.
    Severity(Level),
    /// A number.
    Number(u32),
}

/// What the value of a field is, to the contracts.
pub enum ValueView {
    Text(Seq<char>),
    Time(Timestamp),
    Severity(Level),
    Number(u32),
}

impl View for Value {
    type V = ValueView;

    open spec fn view(&self) -> ValueView {
        match self {
            Value::Text(text) => ValueView::Text(text@),
            Value::Time(time) => ValueView::Time(*time),
            Value::Severity(level) => ValueView::Severity(*level),
            Value::Number(number) => ValueView::Number(*number),
        }
    }
}

/// One field of a document.
#[derive(Debug, PartialEq, Eq)]
pub struct Field {
    pub key: String,
    pub value: Value,
}

impl View for Field {
    type V = (Seq<char>, ValueView);

    open spec fn view(&self) -> (Seq<char>, ValueView) {
        (self.key@, self.value@)
    }
}

/// The fields of a document as the contracts see them.
pub open spec fn fields_view(fields: Seq<Field>) -> Seq<(Seq<char>, ValueView)> {
    fields.map_values(|field: Field| field@)
}

/// The one field of a value that the event may have, or none.
pub open spec fn optional_field(key: Seq<char>, value: Option<ValueView>) -> Seq<
    (Seq<char>, ValueView),
> {
    match value {
        Some(value) => seq![(key, value)],
        None => seq![],
    }
}

/// The key of an additional field in the document: the caller's key behind
/// an underscore.
pub open spec fn additional_key(key: Seq<char>) -> Seq<char> {
    seq!['_'] + key
}

/// The additional fields as the document has them: the last one first, each
/// under its key behind an underscore.
pub open spec fn additional_fields(additional: Seq<(Seq<char>, Seq<char>)>) -> Seq<
    (Seq<char>, ValueView),
> {
    Seq::new(
        additional.len(),
        |i: int|
            (
                additional_key(additional[additional.len() - 1 - i].0),
                ValueView::Text(additional[additional.len() - 1 - i].1),
            ),
    )
}

/// One log event.
pub struct Message<'a> {
    pub version: &'static str,
    pub host: &'a str,
    pub short_message: String,
    pub full_message: Option<String>,
    pub timestamp: Option<Timestamp>,
    pub level: Option<Level>,
    pub module: Option<&'static str>,
    pub file: Option<&'static str>,
    pub line: Option<u32>,
    pub column: Option<u32>,
    pub additional: Vec<(&'static str, String)>,
}

impl<'a> Message<'a> {
    /// The additional key and value pairs of the event, as texts.
    pub open spec fn spec_additional(&self) -> Seq<(Seq<char>, Seq<char>)> {
        pairs_view(self.additional@)
    }

    /// The fields of the event's document, in their order: version, host and
    /// short message; then, as far as the event has them, full message,
    /// timestamp, level, module, file, line and column; then the additional
    /// fields, the last one first.
    pub open spec fn spec_fields(&self) -> Seq<(Seq<char>, ValueView)> {
        seq![
            ("version"@, ValueView::Text(self.version@)),
            ("host"@, ValueView::Text(self.host@)),
            ("short_message"@, ValueView::Text(self.short_message@)),
        ] + optional_field(
            "full_message"@,
            match self.full_message {
                Some(text) => Some(ValueView::Text(text@)),
                None => None,
            },
        ) + optional_field(
            "timestamp"@,
            match self.timestamp {
                Some(time) => Some(ValueView::Time(time)),
                None => None,
            },
        ) + optional_field(
            "level"@,
            match self.level {
                Some(level) => Some(ValueView::Severity(level)),
                None => None,
            },
        ) + optional_field(
            "_module"@,
            match self.module {
                Some(text) => Some(ValueView::Text(text@)),
                None => None,
            },
        ) + optional_field(
            "_file"@,
            match self.file {
                Some(text) => Some(ValueView::Text(text@)),
                None => None,
            },
        ) + optional_field(
            "_line"@,
            match self.line {
                Some(number) => Some(ValueView::Number(number)),
                None => None,
            },
        ) + optional_field(
            "_column"@,
            match self.column {
                Some(number) => Some(ValueView::Number(number)),
                None => None,
            },
        ) + additional_fields(self.spec_additional())
    }

    /// The fields of the event's document, in their order.
    pub fn fields(&self) -> (fields: Vec<Field>)
        ensures
            fields_view(fields@) == self.spec_fields(),
    {
        let mut fields: Vec<Field> = Vec::new();
        assert(fields_view(fields@) =~= Seq::empty());
        push_field(&mut fields, "version", Value::Text(String::from_str(self.version)));
        push_field(&mut fields, "host", Value::Text(String::from_str(self.host)));
        push_field(&mut fields, "short_message", Value::Text(self.short_message.clone()));
        let ghost required = fields_view(fields@);
        assert(required == seq![
            ("version"@, ValueView::Text(self.version@)),
            ("host"@, ValueView::Text(self.host@)),
            ("short_message"@, ValueView::Text(self.short_message@)),
        ]);
        let full_message: Option<Value> = match &self.full_message {
            Some(text) => Some(Value::Text(text.clone())),
            None => None,
        };
        push_optional(&mut fields, "full_message", full_message);
        let timestamp: Option<Value> = match self.timestamp {
            Some(time) => Some(Value::Time(time)),
            None => None,
        };
        push_optional(&mut fields, "timestamp", timestamp);
        let level: Option<Value> = match self.level {
            Some(level) => Some(Value::Severity(level)),
            None => None,
        };
        push_optional(&mut fields, "level", level);
        let ghost described = fields_view(fields@);
        assert(described == required + optional_field(
            "full_message"@,
            match self.full_message {
                Some(text) => Some(ValueView::Text(text@)),
                None => None,
            },
        ) + optional_field(
            "timestamp"@,
            match self.timestamp {
                Some(time) => Some(ValueView::Time(time)),
                None => None,
            },
        ) + optional_field(
            "level"@,
            match self.level {
                Some(level) => Some(ValueView::Severity(level)),
                None => None,
            },
        ));
        let module: Option<Value> = match self.module {
            Some(text) => Some(Value::Text(String::from_str(text))),
            None => None,
        };
        push_optional(&mut fields, "_module", module);
        let file: Option<Value> = match self.file {
            Some(text) => Some(Value::Text(String::from_str(text))),
            None => None,
        };
        push_optional(&mut fields, "_file", file);
        let line: Option<Value> = match self.line {
            Some(number) => Some(Value::Number(number)),
            None => None,
        };
        push_optional(&mut fields, "_line", line);
        let column: Option<Value> = match self.column {
            Some(number) => Some(Value::Number(number)),
            None => None,
        };
        push_optional(&mut fields, "_column", column);
        let ghost located = fields_view(fields@);
        assert(located == described + optional_field(
            "_module"@,
            match self.module {
                Some(text) => Some(ValueView::Text(text@)),
                None => None,
            },
        ) + optional_field(
            "_file"@,
            match self.file {
                Some(text) => Some(ValueView::Text(text@)),
                None => None,
            },
        ) + optional_field(
            "_line"@,
            match self.line {
                Some(number) => Some(ValueView::Number(number)),
                None => None,
            },
        ) + optional_field(
            "_column"@,
            match self.column {
                Some(number) => Some(ValueView::Number(number)),
                None => None,
            },
        ));
        push_additional(&mut fields, &self.additional);
        assert(fields_view(fields@) == located + additional_fields(self.spec_additional()));
        fields
    }
}

/// The additional key and value pairs as texts.
pub open spec fn pairs_view(additional: Seq<(&'static str, String)>) -> Seq<
    (Seq<char>, Seq<char>),
> {
    additional.map_values(|pair: (&'static str, String)| (pair.0@, pair.1@))
}

/// Puts a field behind the others.
fn push_field(fields: &mut Vec<Field>, key: &str, value: Value)
    ensures
        fields_view(final(fields)@) == fields_view(old(fields)@).push((key@, value@)),
{
    let ghost before = fields_view(fields@);
    fields.push(Field { key: String::from_str(key), value });
    assert(fields_view(fields@) =~= before.push((key@, value@)));
}

/// Puts a field behind the others, if there is a value for it.
fn push_optional(fields: &mut Vec<Field>, key: &str, value: Option<Value>)
    ensures
        fields_view(final(fields)@) == fields_view(old(fields)@) + optional_field(
            key@,
            match value {
                Some(value) => Some(value@),
                None => None,
            },
        ),
{
    let ghost before = fields_view(fields@);
    match value {
        Some(value) => {
            push_field(fields, key, value);
            assert(before.push((key@, value@)) =~= before + seq![(key@, value@)]);
        },
        None => {
            assert(before =~= before + Seq::empty());
        },
    }
}

/// Puts the additional fields behind the others: the last one first, each
/// under its key behind an underscore.
fn push_additional(fields: &mut Vec<Field>, additional: &Vec<(&'static str, String)>)
    ensures
        fields_view(final(fields)@) == fields_view(old(fields)@) + additional_fields(
            pairs_view(additional@),
        ),
{
    let ghost fixed = fields_view(fields@);
    let ghost target = additional_fields(pairs_view(additional@));
    let count: usize = additional.len();
    let mut done: usize = 0;
    assert(fixed =~= fixed + target.take(0));
    while done < count
        invariant
            done <= count,
            count == additional@.len(),
            target == additional_fields(pairs_view(additional@)),
            fields_view(fields@) == fixed + target.take(done as int),
        decreases count - done,
    {
        let pair = &additional[count - 1 - done];
        let mut key = String::from_str("_");
        key.append(pair.0);
        proof {
            reveal_strlit("_");
            assert(key@ =~= additional_key(pair.0@));
        }
        let ghost before = fields_view(fields@);
        fields.push(Field { key, value: Value::Text(pair.1.clone()) });
        assert(fields_view(fields@) =~= before.push(target[done as int]));
        assert(fixed + target.take(done as int + 1) =~= (fixed + target.take(done as int)).push(
            target[done as int],
        ));
        done = done + 1;
    }
    assert(target.take(count as int) =~= target);
}

} // verus!
