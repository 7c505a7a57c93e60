//! The polymorphic record reference: either a bare identifier or a
//! fully materialized record, with the identifier derivable from both.
use vstd::prelude::*;

use crate::proxy::SurrealDeserializer;
use crate::proxy::SurrealSerializer;
use crate::surreal_qr::SurrealResponseError;
use crate::value::lemma_seq_deep_view;
use crate::value::Thing;
use crate::value::ThingView;
use crate::value::Value;
use crate::value::ValueView;

verus! {

/// An entity that can name its own record identifier. `id_of` derives
/// the identifier from the entity's view, so both variants of a
/// reference agree on what the identifier is.
pub trait SurrealId: Sized + DeepView {
    spec fn id_of(v: Self::V) -> ThingView;

    fn id(&self) -> (t: Thing)
        ensures
            t.deep_view() == Self::id_of(self.deep_view()),
    ;
}

impl SurrealId for Thing {
    open spec fn id_of(v: ThingView) -> ThingView {
        v
    }

    fn id(&self) -> (t: Thing) {
        self.duplicate()
    }
}

/// A reference to a record: either the bare identifier or the record
/// itself, fully materialized.
#[derive(Debug)]
pub enum Link<T> {
    Id(Thing),
    Record(T),
}

/// The view of a reference.
pub enum LinkView<TV> {
    Id(ThingView),
    Record(TV),
}

impl<T: DeepView> DeepView for Link<T> {
    type V = LinkView<T::V>;

    open spec fn deep_view(&self) -> LinkView<T::V> {
        match self {
            Link::Id(t) => LinkView::Id(t.deep_view()),
            Link::Record(r) => LinkView::Record(r.deep_view()),
        }
    }
}

/// The identifier of a reference: an identifier-only reference holds it;
/// an inline reference asks the record for it.
pub open spec fn spec_link_id<T: SurrealId>(v: LinkView<T::V>) -> ThingView {
    match v {
        LinkView::Id(t) => t,
        LinkView::Record(rv) => T::id_of(rv),
    }
}

impl<T: SurrealId> SurrealId for Link<T> {
    /// The identifier is derivable regardless of variant.
    open spec fn id_of(v: LinkView<T::V>) -> ThingView {
        spec_link_id::<T>(v)
    }

    fn id(&self) -> (t: Thing) {
        match self {
            Link::Id(t) => {
                proof {
                    assert(self.deep_view() == LinkView::<T::V>::Id(t.deep_view()));
                    assert(spec_link_id::<T>(self.deep_view()) == t.deep_view());
                    assert(Self::id_of(self.deep_view()) == t.deep_view());
                }
                t.duplicate()
            },
            Link::Record(r) => r.id(),
        }
    }
}

impl<T: SurrealId> Link<T> {
    /// The materialized record; only an inline reference holds one.
    pub fn record(self) -> (r: T)
        requires
            self matches Link::Record(_),
        ensures
            self matches Link::Record(rec) && r == rec,
    {
        match self {
            Link::Record(r) => r,
            Link::Id(_) => vstd::pervasive::unreached(),
        }
    }
}

impl<T: SurrealId> PartialEq for Link<T> {
    /// Two references are the same reference when they name the same
    /// record, whether or not one of them is materialized.
    fn eq(&self, other: &Link<T>) -> (r: bool) {
        let a = self.id();
        let b = other.id();
        a == b
    }
}

impl<T: SurrealId> vstd::std_specs::cmp::PartialEqSpecImpl for Link<T> {
    open spec fn obeys_eq_spec() -> bool {
        true
    }

    open spec fn eq_spec(&self, other: &Link<T>) -> bool {
        spec_link_id::<T>(self.deep_view()) == spec_link_id::<T>(other.deep_view())
    }
}

impl<T: SurrealId + SurrealSerializer> SurrealSerializer for Link<T> {
    open spec fn ser_ok(v: LinkView<T::V>) -> bool {
        true
    }

    /// A reference always writes back as a pointer: its identifier leaf,
    /// never a duplicated record body.
    open spec fn serialized(v: LinkView<T::V>) -> ValueView {
        ValueView::Thing(spec_link_id::<T>(v))
    }

    fn serialize(self) -> (out: Value) {
        Value::Thing(self.id())
    }
}

/// The record-shaped tree behind a reference: an object is itself; an
/// array of exactly one object coerces to that object; every other
/// shape is the object shape error.
pub open spec fn spec_record_object(v: ValueView) -> Result<
    Seq<(Seq<char>, ValueView)>,
    SurrealResponseError,
> {
    match v {
        ValueView::Object(entries) => Ok(entries),
        ValueView::Array(items) => if items.len() != 1 {
            Err(SurrealResponseError::ExpectedAnObject)
        } else {
            match items[0] {
                ValueView::Object(entries) => Ok(entries),
                _ => Err(SurrealResponseError::ExpectedAnObject),
            }
        },
        _ => Err(SurrealResponseError::ExpectedAnObject),
    }
}

impl<T: SurrealId + SurrealDeserializer> SurrealDeserializer for Link<T> {
    /// An identifier leaf reads as an identifier-only reference; a
    /// record-shaped tree reads the whole record as an inline reference.
    open spec fn deserialized(v: ValueView) -> Result<LinkView<T::V>, SurrealResponseError> {
        match v {
            ValueView::Thing(t) => Ok(LinkView::Id(t)),
            _ => match spec_record_object(v) {
                Err(e) => Err(e),
                Ok(entries) => match T::deserialized(ValueView::Object(entries)) {
                    Ok(rv) => Ok(LinkView::Record(rv)),
                    Err(e) => Err(e),
                },
            },
        }
    }

    fn deserialize(value: &Value) -> (r: Result<Link<T>, SurrealResponseError>) {
        match value {
            Value::Thing(t) => Ok(Link::Id(t.duplicate())),
            Value::Object(_) => match T::deserialize(value) {
                Ok(rec) => Ok(Link::Record(rec)),
                Err(e) => Err(e),
            },
            Value::Array(items) => {
                proof {
                    lemma_seq_deep_view(items@);
                }
                if items.len() != 1 {
                    Err(SurrealResponseError::ExpectedAnObject)
                } else {
                    match &items[0] {
                        Value::Object(_) => match T::deserialize(&items[0]) {
                            Ok(rec) => Ok(Link::Record(rec)),
                            Err(e) => Err(e),
                        },
                        _ => Err(SurrealResponseError::ExpectedAnObject),
                    }
                }
            },
            _ => Err(SurrealResponseError::ExpectedAnObject),
        }
    }
}

} // verus!
