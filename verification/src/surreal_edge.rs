//! The relation entity: two optional endpoint references and an owned
//! relation payload, with the entity's identifier delegated to the
//! payload.
use vstd::prelude::*;

use crate::proxy::SurrealDeserializer;
use crate::proxy::SurrealSerializer;
use crate::surreal_id::Link;
use crate::surreal_id::LinkView;
use crate::surreal_id::SurrealId;
use crate::surreal_qr::SurrealResponseError;
use crate::value::lemma_seq_deep_view;
use crate::value::Thing;
use crate::value::ThingView;
use crate::value::Value;
use crate::value::ValueView;

verus! {

/// A relation binding two optional endpoint references (`in_` and
/// `out`) together with the owned relation payload. At render time both
/// endpoints must be present: an absent endpoint is a caller error.
#[derive(Debug)]
pub struct Edge<I, R, O> {
    pub in_: Option<Link<I>>,
    pub out: Option<Link<O>>,
    pub data: R,
}

/// The view of a relation.
pub struct EdgeView<IV, RV, OV> {
    pub in_: Option<LinkView<IV>>,
    pub out: Option<LinkView<OV>>,
    pub data: RV,
}

impl<I: DeepView, R: DeepView, O: DeepView> DeepView for Edge<I, R, O> {
    type V = EdgeView<I::V, R::V, O::V>;

    open spec fn deep_view(&self) -> EdgeView<I::V, R::V, O::V> {
        EdgeView { in_: self.in_.deep_view(), out: self.out.deep_view(), data: self.data.deep_view() }
    }
}

impl<I: DeepView, R: SurrealId, O: DeepView> SurrealId for Edge<I, R, O> {
    /// The relation's own identifier is the payload's identifier.
    open spec fn id_of(v: EdgeView<I::V, R::V, O::V>) -> ThingView {
        R::id_of(v.data)
    }

    fn id(&self) -> (t: Thing) {
        self.data.id()
    }
}

impl<I: DeepView, R: SurrealSerializer + SurrealId, O: DeepView> SurrealSerializer for Edge<
    I,
    R,
    O,
> {
    open spec fn ser_ok(v: EdgeView<I::V, R::V, O::V>) -> bool {
        true
    }

    /// A relation, like a reference, writes back as a pointer: the
    /// payload's identifier leaf.
    open spec fn serialized(v: EdgeView<I::V, R::V, O::V>) -> ValueView {
        ValueView::Thing(R::id_of(v.data))
    }

    fn serialize(self) -> (out: Value) {
        Value::Thing(self.data.id())
    }
}

/// Wraps a payload and two endpoint-bearing values into a relation,
/// holding only the endpoints' identifiers.
pub trait IntoRelation<I: SurrealId, O: SurrealId>: SurrealSerializer + SurrealId {
    fn relate(self, i: I, o: O) -> (e: Edge<I, Self, O>)
        ensures
            e.deep_view().in_ == Some(LinkView::<I::V>::Id(I::id_of(i.deep_view()))),
            e.deep_view().out == Some(LinkView::<O::V>::Id(O::id_of(o.deep_view()))),
            e.deep_view().data == self.deep_view(),
    ;
}

impl<I: SurrealId, R: SurrealSerializer + SurrealId, O: SurrealId> IntoRelation<I, O> for R {
    fn relate(self, i: I, o: O) -> (e: Edge<I, R, O>) {
        Edge { in_: Some(Link::Id(i.id())), out: Some(Link::Id(o.id())), data: self }
    }
}

/// The record-shaped tree behind a relation: an object is itself; an
/// array coerces only when it holds exactly one member, failing the
/// coercion otherwise; a sole non-object member and every other shape
/// are the object shape error.
pub open spec fn spec_edge_object(v: ValueView) -> Result<
    Seq<(Seq<char>, ValueView)>,
    SurrealResponseError,
> {
    match v {
        ValueView::Object(entries) => Ok(entries),
        ValueView::Array(items) => if items.len() != 1 {
            Err(SurrealResponseError::ExpectedAnArrayWith1ItemToDeserializeToObject)
        } else {
            match items[0] {
                ValueView::Object(entries) => Ok(entries),
                _ => Err(SurrealResponseError::ExpectedAnObject),
            }
        },
        _ => Err(SurrealResponseError::ExpectedAnObject),
    }
}

impl<
    I: SurrealId + SurrealDeserializer,
    R: SurrealSerializer + SurrealId + SurrealDeserializer,
    O: SurrealId + SurrealDeserializer,
> SurrealDeserializer for Edge<I, R, O> {
    /// A relation reads out of a record-shaped tree: the "in" and "out"
    /// fields, when present, read as endpoint references (their absence
    /// is not an error), and the payload reads out of the whole object,
    /// its fields flattened beside the endpoints.
    open spec fn deserialized(v: ValueView) -> Result<
        EdgeView<I::V, R::V, O::V>,
        SurrealResponseError,
    > {
        match spec_edge_object(v) {
            Err(e) => Err(e),
            Ok(entries) => {
                let in_read = match crate::surreal_qr::spec_lookup(entries, "in"@) {
                    None => Ok(None),
                    Some(x) => match Link::<I>::deserialized(x) {
                        Ok(l) => Ok(Some(l)),
                        Err(e) => Err(e),
                    },
                };
                match in_read {
                    Err(e) => Err(e),
                    Ok(in_v) => {
                        let out_read = match crate::surreal_qr::spec_lookup(entries, "out"@) {
                            None => Ok(None),
                            Some(x) => match Link::<O>::deserialized(x) {
                                Ok(l) => Ok(Some(l)),
                                Err(e) => Err(e),
                            },
                        };
                        match out_read {
                            Err(e) => Err(e),
                            Ok(out_v) => match R::deserialized(ValueView::Object(entries)) {
                                Err(e) => Err(e),
                                Ok(d) => Ok(EdgeView { in_: in_v, out: out_v, data: d }),
                            },
                        }
                    },
                }
            },
        }
    }

    fn deserialize(value: &Value) -> (r: Result<Edge<I, R, O>, SurrealResponseError>) {
        let obj_val: &Value = match value {
            Value::Object(_) => value,
            Value::Array(items) => {
                proof {
                    lemma_seq_deep_view(items@);
                }
                if items.len() != 1 {
                    return Err(SurrealResponseError::ExpectedAnArrayWith1ItemToDeserializeToObject);
                }
                match &items[0] {
                    Value::Object(_) => &items[0],
                    _ => {
                        return Err(SurrealResponseError::ExpectedAnObject);
                    },
                }
            },
            _ => {
                return Err(SurrealResponseError::ExpectedAnObject);
            },
        };
        let o = match obj_val {
            Value::Object(o) => o,
            _ => vstd::pervasive::unreached(),
        };
        let in_v: Option<Link<I>> = match o.get("in") {
            None => None,
            Some(x) => match Link::<I>::deserialize(x) {
                Ok(l) => Some(l),
                Err(e) => {
                    return Err(e);
                },
            },
        };
        let out_v: Option<Link<O>> = match o.get("out") {
            None => None,
            Some(x) => match Link::<O>::deserialize(x) {
                Ok(l) => Some(l),
                Err(e) => {
                    return Err(e);
                },
            },
        };
        match R::deserialize(obj_val) {
            Err(e) => Err(e),
            Ok(d) => Ok(Edge { in_: in_v, out: out_v, data: d }),
        }
    }
}

} // verus!
