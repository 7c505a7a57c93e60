//! Pure builders that render typed entities into canonical
//! query-fragment text: identifier, content, record, array, scalar and
//! relate expressions.
use vstd::prelude::*;
use vstd::string::StringExecFns;

use crate::proxy::SurrealSerializer;
use crate::render::push_thing_text;
use crate::render::push_value_text;
use crate::render::spec_thing_text;
use crate::render::spec_value_text;
use crate::render::thing_text;
use crate::surreal_edge::Edge;
use crate::surreal_edge::EdgeView;
use crate::surreal_id::spec_link_id;
use crate::surreal_id::LinkView;
use crate::surreal_id::SurrealId;
use crate::surreal_qr::SurrealResponseError;
use crate::value::ThingView;

verus! {

/// The canonical "upsert this entity" fragment: the identifier, a
/// space, and the content expression.
pub open spec fn spec_record_text<T: SurrealSerializer + SurrealId>(v: T::V) -> Seq<char> {
    spec_thing_text(T::id_of(v)) + " CONTENT "@ + spec_value_text(T::serialized(v))
}

/// Renders the canonical record fragment of an entity.
pub fn record<T: SurrealSerializer + SurrealId>(target: T) -> (s: String)
    requires
        T::ser_ok(target.deep_view()),
    ensures
        s@ == spec_record_text::<T>(target.deep_view()),
{
    let mut s = String::new();
    let t = target.id();
    push_thing_text(&mut s, &t);
    s.append(" CONTENT ");
    let body = target.serialize();
    push_value_text(&mut s, &body);
    proof {
        assert(s@ =~= spec_record_text::<T>(target.deep_view()));
    }
    s
}

/// Renders the identifier expression of an entity.
pub fn id<T: SurrealId>(target: &T) -> (s: String)
    ensures
        s@ == spec_thing_text(T::id_of(target.deep_view())),
{
    let t = target.id();
    thing_text(&t)
}

/// The content expression: the keyword and the entity's serialized tree.
pub open spec fn spec_content_text<T: SurrealSerializer>(v: T::V) -> Seq<char> {
    "CONTENT "@ + spec_value_text(T::serialized(v))
}

/// Renders the content expression of an entity.
pub fn content<T: SurrealSerializer>(target: T) -> (s: String)
    requires
        T::ser_ok(target.deep_view()),
    ensures
        s@ == spec_content_text::<T>(target.deep_view()),
{
    let mut s = String::new();
    s.append("CONTENT ");
    let body = target.serialize();
    push_value_text(&mut s, &body);
    proof {
        assert(s@ =~= spec_content_text::<T>(target.deep_view()));
    }
    s
}

/// Renders a sequence of entities as one array expression.
pub fn array<T: SurrealSerializer>(target: Vec<T>) -> (s: String)
    requires
        Vec::<T>::ser_ok(target.deep_view()),
    ensures
        s@ == spec_value_text(Vec::<T>::serialized(target.deep_view())),
{
    let ghost v = target.deep_view();
    let body = target.serialize();
    let mut s = String::new();
    push_value_text(&mut s, &body);
    proof {
        assert(s@ =~= spec_value_text(Vec::<T>::serialized(v)));
    }
    s
}

/// Renders one value as a scalar expression.
pub fn val<T: SurrealSerializer>(target: T) -> (s: String)
    requires
        T::ser_ok(target.deep_view()),
    ensures
        s@ == spec_value_text(T::serialized(target.deep_view())),
{
    let ghost v = target.deep_view();
    let body = target.serialize();
    let mut s = String::new();
    push_value_text(&mut s, &body);
    proof {
        assert(s@ =~= spec_value_text(T::serialized(v)));
    }
    s
}

/// The relate fragment of a relation whose endpoints are both present:
/// the incoming identifier, the relation's table, the outgoing
/// identifier, and the payload's content expression.
pub open spec fn spec_relate_text<
    I: SurrealId,
    R: SurrealSerializer + SurrealId,
    O: SurrealId,
>(v: EdgeView<I::V, R::V, O::V>) -> Seq<char> {
    match (v.in_, v.out) {
        (Some(li), Some(lo)) => "RELATE "@ + spec_thing_text(spec_link_id::<I>(li)) + " -> "@
            + R::id_of(v.data).table + " -> "@ + spec_thing_text(spec_link_id::<O>(lo))
            + " CONTENT "@ + spec_value_text(R::serialized(v.data)),
        _ => Seq::empty(),
    }
}

/// Renders the relate fragment of a relation. An absent endpoint is a
/// caller error, reported before any text is produced: no fragment with
/// a missing segment is ever emitted.
pub fn relate<I: SurrealId, R: SurrealSerializer + SurrealId, O: SurrealId>(
    target: Edge<I, R, O>,
) -> (r: Result<String, SurrealResponseError>)
    requires
        R::ser_ok(target.data.deep_view()),
    ensures
        target.in_ is Some && target.out is Some ==> (r matches Ok(s) && s@
            == spec_relate_text::<I, R, O>(target.deep_view())),
        !(target.in_ is Some && target.out is Some) ==> r == Err::<String, SurrealResponseError>(
            SurrealResponseError::CannotReadNoneValue,
        ),
{
    let ghost v = target.deep_view();
    let in_id = match &target.in_ {
        Some(l) => l.id(),
        None => {
            return Err(SurrealResponseError::CannotReadNoneValue);
        },
    };
    let out_id = match &target.out {
        Some(l) => l.id(),
        None => {
            return Err(SurrealResponseError::CannotReadNoneValue);
        },
    };
    let rel_id = target.data.id();
    let mut s = String::new();
    s.append("RELATE ");
    push_thing_text(&mut s, &in_id);
    s.append(" -> ");
    s.append(rel_id.table.as_str());
    s.append(" -> ");
    push_thing_text(&mut s, &out_id);
    s.append(" CONTENT ");
    let body = target.data.serialize();
    push_value_text(&mut s, &body);
    proof {
        assert(s@ =~= spec_relate_text::<I, R, O>(v));
    }
    Ok(s)
}

/// Reference rendering: the identifier expression of an identifier-only
/// reference is the identifier's own text form, and of an inline
/// reference the record's derived identifier text form; when the two
/// name the same record, the rendered text is the same.
pub proof fn lemma_reference_rendering<T: SurrealId>(t: ThingView, rv: T::V)
    ensures
        spec_thing_text(spec_link_id::<T>(LinkView::Id(t))) == spec_thing_text(t),
        spec_thing_text(spec_link_id::<T>(LinkView::Record(rv))) == spec_thing_text(T::id_of(rv)),
        T::id_of(rv) == t ==> spec_thing_text(spec_link_id::<T>(LinkView::Id(t)))
            == spec_thing_text(spec_link_id::<T>(LinkView::Record(rv))),
{
}

} // verus!
