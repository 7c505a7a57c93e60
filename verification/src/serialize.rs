//! The idiom/value pairing of an entity and the legacy per-field
//! expressions built from it: a field-assignment list and the older
//! comma-joined pair form.
use vstd::prelude::*;
use vstd::string::StringExecFns;

use crate::render::push_value_text;
use crate::render::spec_value_text;
use crate::surreal_edge::Edge;
use crate::surreal_edge::EdgeView;
use crate::surreal_id::spec_link_id;
use crate::surreal_id::Link;
use crate::surreal_id::LinkView;
use crate::surreal_id::SurrealId;
use crate::value::Thing;
use crate::value::ThingView;
use crate::value::Value;
use crate::value::ValueView;

verus! {

/// The field-assignment pairs of an entity, joined as `k = v` with a
/// comma between pairs.
pub open spec fn spec_set_pairs(idioms: Seq<(Seq<char>, ValueView)>) -> Seq<char>
    decreases idioms.len(),
{
    if idioms.len() == 0 {
        Seq::empty()
    } else {
        idioms[0].0 + " = "@ + spec_value_text(idioms[0].1) + spec_set_tail(idioms.drop_first())
    }
}

/// The assignments after the first, each preceded by a separator.
pub open spec fn spec_set_tail(idioms: Seq<(Seq<char>, ValueView)>) -> Seq<char>
    decreases idioms.len(),
{
    if idioms.len() == 0 {
        Seq::empty()
    } else {
        ", "@ + idioms[0].0 + " = "@ + spec_value_text(idioms[0].1) + spec_set_tail(
            idioms.drop_first(),
        )
    }
}

/// The whole field-assignment expression.
pub open spec fn spec_set_expression(idioms: Seq<(Seq<char>, ValueView)>) -> Seq<char> {
    "SET "@ + spec_set_pairs(idioms)
}

/// The older pair form: `k=v`, joined by bare commas.
pub open spec fn spec_content_pairs(idioms: Seq<(Seq<char>, ValueView)>) -> Seq<char>
    decreases idioms.len(),
{
    if idioms.len() == 0 {
        Seq::empty()
    } else {
        idioms[0].0 + "="@ + spec_value_text(idioms[0].1) + spec_content_tail(idioms.drop_first())
    }
}

/// The pairs after the first, each preceded by a comma.
pub open spec fn spec_content_tail(idioms: Seq<(Seq<char>, ValueView)>) -> Seq<char>
    decreases idioms.len(),
{
    if idioms.len() == 0 {
        Seq::empty()
    } else {
        ","@ + idioms[0].0 + "="@ + spec_value_text(idioms[0].1) + spec_content_tail(
            idioms.drop_first(),
        )
    }
}

/// An entity that can list itself as idiom/value pairs, one per field,
/// in declaration order.
pub trait SurrealSerialize: Sized + DeepView {
    spec fn idioms(v: Self::V) -> Seq<(Seq<char>, ValueView)>;

    fn into_idiom_value(&self) -> (r: Vec<(String, Value)>)
        ensures
            r.deep_view() == Self::idioms(self.deep_view()),
    ;

    /// The field-assignment expression over this entity's pairs.
    fn into_set_expression(&self) -> (s: String)
        ensures
            s@ == spec_set_expression(Self::idioms(self.deep_view())),
    {
        let idioms = self.into_idiom_value();
        let ghost iv = idioms.deep_view();
        let mut s = String::new();
        s.append("SET ");
        if idioms.len() > 0 {
            s.append(idioms[0].0.as_str());
            s.append(" = ");
            push_value_text(&mut s, &idioms[0].1);
            proof {
                assert(iv.drop_first() =~= iv.skip(1));
                assert("SET "@ + spec_set_pairs(iv) =~= s@ + spec_set_tail(iv.skip(1)));
            }
            let mut i: usize = 1;
            while i < idioms.len()
                invariant
                    1 <= i <= idioms@.len(),
                    iv == idioms.deep_view(),
                    iv.len() == idioms@.len(),
                    "SET "@ + spec_set_pairs(iv) == s@ + spec_set_tail(iv.skip(i as int)),
                decreases idioms.len() - i,
            {
                let ghost prev = s@;
                proof {
                    assert(iv.skip(i as int)[0] == iv[i as int]);
                    assert(iv.skip(i as int).drop_first() =~= iv.skip(i + 1));
                }
                s.append(", ");
                s.append(idioms[i].0.as_str());
                s.append(" = ");
                push_value_text(&mut s, &idioms[i].1);
                proof {
                    let e0 = iv.skip(i as int)[0];
                    assert(s@ =~= prev + ", "@ + e0.0 + " = "@ + spec_value_text(e0.1));
                    assert("SET "@ + spec_set_pairs(iv) =~= s@ + spec_set_tail(iv.skip(i + 1)));
                }
                i = i + 1;
            }
            proof {
                assert(spec_set_tail(iv.skip(idioms@.len() as int)) =~= Seq::<char>::empty());
                assert(s@ =~= "SET "@ + spec_set_pairs(iv));
            }
        } else {
            proof {
                assert(s@ =~= spec_set_expression(iv));
            }
        }
        s
    }

    /// The identifier expression of an identifiable entity.
    fn into_id_expression(&self) -> (s: String) where Self: SurrealId
        ensures
            s@ == crate::render::spec_thing_text(Self::id_of(self.deep_view())),
    {
        let t = self.id();
        crate::render::thing_text(&t)
    }

    /// The older comma-joined pair expression over this entity's pairs.
    fn into_content_expression(&self) -> (s: String)
        ensures
            s@ == spec_content_pairs(Self::idioms(self.deep_view())),
    {
        let idioms = self.into_idiom_value();
        let ghost iv = idioms.deep_view();
        let mut s = String::new();
        if idioms.len() > 0 {
            s.append(idioms[0].0.as_str());
            s.append("=");
            push_value_text(&mut s, &idioms[0].1);
            proof {
                assert(iv.drop_first() =~= iv.skip(1));
                assert(spec_content_pairs(iv) =~= s@ + spec_content_tail(iv.skip(1)));
            }
            let mut i: usize = 1;
            while i < idioms.len()
                invariant
                    1 <= i <= idioms@.len(),
                    iv == idioms.deep_view(),
                    iv.len() == idioms@.len(),
                    spec_content_pairs(iv) == s@ + spec_content_tail(iv.skip(i as int)),
                decreases idioms.len() - i,
            {
                let ghost prev = s@;
                proof {
                    assert(iv.skip(i as int)[0] == iv[i as int]);
                    assert(iv.skip(i as int).drop_first() =~= iv.skip(i + 1));
                }
                s.append(",");
                s.append(idioms[i].0.as_str());
                s.append("=");
                push_value_text(&mut s, &idioms[i].1);
                proof {
                    let e0 = iv.skip(i as int)[0];
                    assert(s@ =~= prev + ","@ + e0.0 + "="@ + spec_value_text(e0.1));
                    assert(spec_content_pairs(iv) =~= s@ + spec_content_tail(iv.skip(i + 1)));
                }
                i = i + 1;
            }
            proof {
                assert(spec_content_tail(iv.skip(idioms@.len() as int)) =~= Seq::<char>::empty());
                assert(s@ =~= spec_content_pairs(iv));
            }
        } else {
            proof {
                assert(s@ =~= spec_content_pairs(iv));
            }
        }
        s
    }
}

impl SurrealSerialize for Thing {
    /// An identifier lists itself as its one `id` field.
    open spec fn idioms(v: ThingView) -> Seq<(Seq<char>, ValueView)> {
        seq![("id"@, ValueView::Thing(v))]
    }

    fn into_idiom_value(&self) -> (r: Vec<(String, Value)>) {
        let mut r: Vec<(String, Value)> = Vec::new();
        r.push(("id".to_owned(), Value::Thing(self.duplicate())));
        proof {
            assert(r.deep_view() =~= Self::idioms(self.deep_view()));
        }
        r
    }
}

impl<T: SurrealSerialize + SurrealId> SurrealSerialize for Link<T> {
    /// An identifier-only reference lists its identifier; an inline
    /// reference lists the record's own pairs.
    open spec fn idioms(v: LinkView<T::V>) -> Seq<(Seq<char>, ValueView)> {
        match v {
            LinkView::Id(t) => seq![("id"@, ValueView::Thing(t))],
            LinkView::Record(rv) => T::idioms(rv),
        }
    }

    fn into_idiom_value(&self) -> (r: Vec<(String, Value)>) {
        match self {
            Link::Id(t) => {
                let mut r: Vec<(String, Value)> = Vec::new();
                r.push(("id".to_owned(), Value::Thing(t.duplicate())));
                proof {
                    assert(r.deep_view() =~= Self::idioms(self.deep_view()));
                }
                r
            },
            Link::Record(rec) => rec.into_idiom_value(),
        }
    }
}

impl<
    I: SurrealId,
    R: crate::proxy::SurrealSerializer + SurrealId,
    O: SurrealId,
> SurrealSerialize for Edge<I, R, O> {
    /// A relation lists its incoming endpoint (or the missing value),
    /// its own identifier under `relation`, and its outgoing endpoint.
    open spec fn idioms(v: EdgeView<I::V, R::V, O::V>) -> Seq<(Seq<char>, ValueView)> {
        seq![
            (
                "in"@,
                match v.in_ {
                    Some(l) => ValueView::Thing(spec_link_id::<I>(l)),
                    None => ValueView::Absent,
                },
            ),
            ("relation"@, ValueView::Thing(R::id_of(v.data))),
            (
                "out"@,
                match v.out {
                    Some(l) => ValueView::Thing(spec_link_id::<O>(l)),
                    None => ValueView::Absent,
                },
            ),
        ]
    }

    fn into_idiom_value(&self) -> (r: Vec<(String, Value)>) {
        let mut r: Vec<(String, Value)> = Vec::new();
        let in_value = match &self.in_ {
            Some(l) => Value::Thing(l.id()),
            None => Value::Absent,
        };
        r.push(("in".to_owned(), in_value));
        r.push(("relation".to_owned(), Value::Thing(self.data.id())));
        let out_value = match &self.out {
            Some(l) => Value::Thing(l.id()),
            None => Value::Absent,
        };
        r.push(("out".to_owned(), out_value));
        proof {
            assert(r.deep_view() =~= Self::idioms(self.deep_view()));
        }
        r
    }
}

} // verus!
