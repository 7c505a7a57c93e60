//! A schemaless record entity: an identifier and its field data as one
//! object. It is the plainest marshallable, identifiable entity, for
//! callers that work without a typed one.
use vstd::prelude::*;

use crate::proxy::SurrealDeserializer;
use crate::proxy::SurrealSerializer;
use crate::serialize::SurrealSerialize;
use crate::surreal_id::spec_record_object;
use crate::surreal_id::SurrealId;
use crate::surreal_qr::spec_lookup;
use crate::surreal_qr::SurrealResponseError;
use crate::value::lemma_seq_deep_view;
use crate::value::Object;
use crate::value::Thing;
use crate::value::ThingView;
use crate::value::Value;
use crate::value::ValueView;

verus! {

/// A record: its identifier and its fields.
#[derive(Debug)]
pub struct Record {
    pub id: Thing,
    pub data: Object,
}

/// The view of a record.
pub struct RecordView {
    pub id: ThingView,
    pub data: Seq<(Seq<char>, ValueView)>,
}

impl DeepView for Record {
    type V = RecordView;

    open spec fn deep_view(&self) -> RecordView {
        RecordView { id: self.id.deep_view(), data: self.data.deep_view() }
    }
}

impl SurrealId for Record {
    open spec fn id_of(v: RecordView) -> ThingView {
        v.id
    }

    fn id(&self) -> (t: Thing) {
        self.id.duplicate()
    }
}

impl SurrealSerializer for Record {
    open spec fn ser_ok(v: RecordView) -> bool {
        true
    }

    /// A record serializes as the object of its fields.
    open spec fn serialized(v: RecordView) -> ValueView {
        ValueView::Object(v.data)
    }

    fn serialize(self) -> (out: Value) {
        Value::Object(self.data)
    }
}

impl SurrealDeserializer for Record {
    /// A record reads out of a record-shaped tree whose `id` field is an
    /// identifier leaf; the whole object becomes the record's data. A
    /// missing `id` is a required field read out of no value, and
    /// reports the "no value" signal; a present `id` of another shape
    /// names the identifier shape instead.
    open spec fn deserialized(v: ValueView) -> Result<RecordView, SurrealResponseError> {
        match spec_record_object(v) {
            Err(e) => Err(e),
            Ok(entries) => match spec_lookup(entries, "id"@) {
                Some(ValueView::Thing(t)) => Ok(RecordView { id: t, data: entries }),
                Some(_) => Err(SurrealResponseError::ExpectedAThing),
                None => Err(SurrealResponseError::CannotReadNoneValue),
            },
        }
    }

    fn deserialize(value: &Value) -> (r: Result<Record, SurrealResponseError>) {
        let obj_val: &Value = match value {
            Value::Object(_) => value,
            Value::Array(items) => {
                proof {
                    lemma_seq_deep_view(items@);
                }
                if items.len() != 1 {
                    return Err(SurrealResponseError::ExpectedAnObject);
                }
                match &items[0] {
                    Value::Object(_) => &items[0],
                    _ => {
                        return Err(SurrealResponseError::ExpectedAnObject);
                    },
                }
            },
            _ => {
                return Err(SurrealResponseError::ExpectedAnObject);
            },
        };
        let o = match obj_val {
            Value::Object(o) => o,
            _ => vstd::pervasive::unreached(),
        };
        match o.get("id") {
            Some(Value::Thing(t)) => Ok(Record { id: t.duplicate(), data: o.duplicate() }),
            Some(_) => Err(SurrealResponseError::ExpectedAThing),
            None => Err(SurrealResponseError::CannotReadNoneValue),
        }
    }
}

impl SurrealSerialize for Record {
    /// A record's idiom pairs are exactly its fields, in order.
    open spec fn idioms(v: RecordView) -> Seq<(Seq<char>, ValueView)> {
        v.data
    }

    fn into_idiom_value(&self) -> (r: Vec<(String, Value)>) {
        let copy = self.data.duplicate();
        let Object { entries } = copy;
        proof {
            crate::value::lemma_entries_deep_view(entries@);
            assert(entries.deep_view() =~= self.data.deep_view());
        }
        entries
    }
}

} // verus!
