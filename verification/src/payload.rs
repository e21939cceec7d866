//! The value that an event handler receives: the event's name under `type`,
//! and the fields that belong to the kind of event.

use vstd::prelude::*;
use crate::error::PluginError;
use crate::text::decimal;
use crate::text::decimal_text;
use crate::text::join3;
use crate::text::owned;
use crate::types::DocumentId;
use crate::types::EventData;
use crate::types::PluginEvent;
use crate::vm::new_table;
use crate::vm::table_set_count;
use crate::vm::table_set_text;

verus! {

/// What a field of a payload holds.
pub enum PayloadValue {
    Text(String),
    Count(usize),
}

/// One field of a payload.
pub struct PayloadField {
    pub name: String,
    pub value: PayloadValue,
}

/// A field of a payload as a mathematical value.
pub enum FieldModel {
    Text { name: Seq<char>, text: Seq<char> },
    Count { name: Seq<char>, count: usize },
}

impl PayloadField {
    /// The field as a mathematical value.
    pub open spec fn model(self) -> FieldModel {
        match self.value {
            PayloadValue::Text(t) => FieldModel::Text { name: self.name@, text: t@ },
            PayloadValue::Count(n) => FieldModel::Count { name: self.name@, count: n },
        }
    }
}

/// How a document id is shown to scripts.
pub open spec fn document_id_text(id: DocumentId) -> Seq<char> {
    "DocumentId("@ + decimal(id.0 as nat) + ")"@
}

/// The fields that an event carries besides its type: buffer events carry
/// the document id and, where there is one, the path; a mode change carries
/// the old and the new mode; a key press carries the key; diagnostics carry
/// the document id and their number.
pub open spec fn data_fields(data: EventData) -> Seq<FieldModel> {
    match data {
        EventData::Buffer { document_id, path } => {
            let id = seq![
                FieldModel::Text { name: "document_id"@, text: document_id_text(document_id) },
            ];
            match path {
                Some(p) => id.push(FieldModel::Text { name: "path"@, text: p@ }),
                None => id,
            }
        },
        EventData::ModeChange { old_mode, new_mode } => seq![
            FieldModel::Text { name: "old_mode"@, text: old_mode@ },
            FieldModel::Text { name: "new_mode"@, text: new_mode@ },
        ],
        EventData::KeyPress { key } => seq![FieldModel::Text { name: "key"@, text: key@ }],
        EventData::LspDiagnostic { document_id, diagnostic_count } => seq![
            FieldModel::Text { name: "document_id"@, text: document_id_text(document_id) },
            FieldModel::Count { name: "diagnostic_count"@, count: diagnostic_count },
        ],
        _ => Seq::empty(),
    }
}

/// The models of the fields of `fields`, in order.
pub open spec fn field_models(fields: Seq<PayloadField>) -> Seq<FieldModel> {
    Seq::new(fields.len(), |i: int| fields[i].model())
}

/// What a handler receives for one event.
pub struct EventPayload {
    /// The name of the event's type; handlers find it under `type`.
    pub event_name: String,
    /// The fields that belong to the kind of event.
    pub fields: Vec<PayloadField>,
}

/// Shows a document id to scripts.
pub fn show_document_id(id: DocumentId) -> (r: String)
    ensures
        r@ == document_id_text(id),
{
    let digits = decimal_text(id.0);
    join3("DocumentId(", digits.as_str(), ")")
}

fn text_field(name: &str, text: String) -> (f: PayloadField)
    ensures
        f.model() == (FieldModel::Text { name: name@, text: text@ }),
{
    PayloadField { name: owned(name), value: PayloadValue::Text(text) }
}

/// The payload of an event.
pub fn event_payload(event: &PluginEvent) -> (r: EventPayload)
    ensures
        r.event_name@ == event.event_type.name(),
        field_models(r.fields@) == data_fields(event.data),
{
    let mut fields: Vec<PayloadField> = Vec::new();
    match &event.data {
        EventData::Buffer { document_id, path } => {
            fields.push(text_field("document_id", show_document_id(*document_id)));
            match path {
                Some(p) => {
                    fields.push(text_field("path", p.clone()));
                },
                None => {},
            }
        },
        EventData::ModeChange { old_mode, new_mode } => {
            fields.push(text_field("old_mode", old_mode.clone()));
            fields.push(text_field("new_mode", new_mode.clone()));
        },
        EventData::KeyPress { key } => {
            fields.push(text_field("key", key.clone()));
        },
        EventData::LspDiagnostic { document_id, diagnostic_count } => {
            fields.push(text_field("document_id", show_document_id(*document_id)));
            fields.push(
                PayloadField {
                    name: owned("diagnostic_count"),
                    value: PayloadValue::Count(*diagnostic_count),
                },
            );
        },
        _ => {},
    }
    assert(field_models(fields@) =~= data_fields(event.data));
    EventPayload { event_name: owned(event.event_type.as_str()), fields }
}

/// Builds the table that a handler receives. It fails only where the
/// interpreter cannot make the table or store the event's name in it; a
/// field that cannot be stored is left out.
pub fn payload_table(lua: &mlua::Lua, payload: &EventPayload) -> (r: Result<
    mlua::Table,
    PluginError,
>)
    ensures
        r matches Err(e) ==> e is LuaError,
{
    let table = match new_table(lua) {
        Ok(t) => t,
        Err(e) => {
            return Err(PluginError::LuaError(e));
        },
    };
    match table_set_text(&table, "type", payload.event_name.as_str()) {
        Ok(()) => {},
        Err(e) => {
            return Err(PluginError::LuaError(e));
        },
    }
    let mut i: usize = 0;
    while i < payload.fields.len()
        invariant
            i <= payload.fields@.len(),
        decreases payload.fields@.len() - i,
    {
        let field = &payload.fields[i];
        match &field.value {
            PayloadValue::Text(t) => {
                let _ = table_set_text(&table, field.name.as_str(), t.as_str());
            },
            PayloadValue::Count(n) => {
                let _ = table_set_count(&table, field.name.as_str(), *n);
            },
        }
        i += 1;
    }
    Ok(table)
}

} // verus!
