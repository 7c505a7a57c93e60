//! Query-response handling: the structural path language, the navigator
//! that selects a sub-tree out of a response value, and the accessors
//! that check a value's shape.
use vstd::prelude::*;

use crate::proxy::SurrealDeserializer;
use crate::value::lemma_entries_deep_view;
use crate::value::lemma_seq_deep_view;
use crate::value::Bytes;
use crate::value::Datetime;
use crate::value::Duration;
use crate::value::GeometryPoint;
use crate::value::Number;
use crate::value::Object;
use crate::value::Thing;
use crate::value::Uuid;
use crate::value::Value;
use crate::value::ValueView;

verus! {

broadcast use {lemma_seq_deep_view, lemma_entries_deep_view};

/// The closed taxonomy of shape errors: each member names the shape that
/// was expected and missing, a bounds violation, or the one coercion that
/// failed.
#[derive(Debug, Clone, Copy, PartialEq, Eq, Structural)]
pub enum SurrealResponseError {
    ExpectedAnObject,
    ExpectedAnArray,
    ExpectedANumber,
    ExpectedANumberI64,
    ExpectedANumberF64,
    ExpectedANumberDecimal,
    ExpectedAStrand,
    ExpectedAThing,
    ExpectedADuration,
    ExpectedADatetime,
    ExpectedAGeometry,
    ExpectedABool,
    ExpectedAUuid,
    ExpectedABytes,
    ExpectedASet,
    UnexpectedValueType,
    OutOfRange,
    CannotReadNoneValue,
    ExpectedAnArrayWith1ItemToDeserializeToObject,
}

impl SurrealResponseError {
    /// The member's name, as embedding code prints it when it wraps one
    /// of these errors into its own error type.
    pub open spec fn spec_name(&self) -> Seq<char> {
        match self {
            SurrealResponseError::ExpectedAnObject => "ExpectedAnObject"@,
            SurrealResponseError::ExpectedAnArray => "ExpectedAnArray"@,
            SurrealResponseError::ExpectedANumber => "ExpectedANumber"@,
            SurrealResponseError::ExpectedANumberI64 => "ExpectedANumberI64"@,
            SurrealResponseError::ExpectedANumberF64 => "ExpectedANumberF64"@,
            SurrealResponseError::ExpectedANumberDecimal => "ExpectedANumberDecimal"@,
            SurrealResponseError::ExpectedAStrand => "ExpectedAStrand"@,
            SurrealResponseError::ExpectedAThing => "ExpectedAThing"@,
            SurrealResponseError::ExpectedADuration => "ExpectedADuration"@,
            SurrealResponseError::ExpectedADatetime => "ExpectedADatetime"@,
            SurrealResponseError::ExpectedAGeometry => "ExpectedAGeometry"@,
            SurrealResponseError::ExpectedABool => "ExpectedABool"@,
            SurrealResponseError::ExpectedAUuid => "ExpectedAUuid"@,
            SurrealResponseError::ExpectedABytes => "ExpectedABytes"@,
            SurrealResponseError::ExpectedASet => "ExpectedASet"@,
            SurrealResponseError::UnexpectedValueType => "UnexpectedValueType"@,
            SurrealResponseError::OutOfRange => "OutOfRange"@,
            SurrealResponseError::CannotReadNoneValue => "CannotReadNoneValue"@,
            SurrealResponseError::ExpectedAnArrayWith1ItemToDeserializeToObject => "ExpectedAnArrayWith1ItemToDeserializeToObject"@,
        }
    }

    pub fn name(&self) -> (r: String)
        ensures
            r@ == self.spec_name(),
    {
        match self {
            SurrealResponseError::ExpectedAnObject => "ExpectedAnObject".to_owned(),
            SurrealResponseError::ExpectedAnArray => "ExpectedAnArray".to_owned(),
            SurrealResponseError::ExpectedANumber => "ExpectedANumber".to_owned(),
            SurrealResponseError::ExpectedANumberI64 => "ExpectedANumberI64".to_owned(),
            SurrealResponseError::ExpectedANumberF64 => "ExpectedANumberF64".to_owned(),
            SurrealResponseError::ExpectedANumberDecimal => "ExpectedANumberDecimal".to_owned(),
            SurrealResponseError::ExpectedAStrand => "ExpectedAStrand".to_owned(),
            SurrealResponseError::ExpectedAThing => "ExpectedAThing".to_owned(),
            SurrealResponseError::ExpectedADuration => "ExpectedADuration".to_owned(),
            SurrealResponseError::ExpectedADatetime => "ExpectedADatetime".to_owned(),
            SurrealResponseError::ExpectedAGeometry => "ExpectedAGeometry".to_owned(),
            SurrealResponseError::ExpectedABool => "ExpectedABool".to_owned(),
            SurrealResponseError::ExpectedAUuid => "ExpectedAUuid".to_owned(),
            SurrealResponseError::ExpectedABytes => "ExpectedABytes".to_owned(),
            SurrealResponseError::ExpectedASet => "ExpectedASet".to_owned(),
            SurrealResponseError::UnexpectedValueType => "UnexpectedValueType".to_owned(),
            SurrealResponseError::OutOfRange => "OutOfRange".to_owned(),
            SurrealResponseError::CannotReadNoneValue => "CannotReadNoneValue".to_owned(),
            SurrealResponseError::ExpectedAnArrayWith1ItemToDeserializeToObject => "ExpectedAnArrayWith1ItemToDeserializeToObject".to_owned(),
        }
    }
}

/// A structural path: index access, field access, or an ordered chain of
/// paths (chains may nest).
#[derive(Debug)]
pub enum RPath<'a> {
    Index(usize),
    Field(&'a str),
    Chain(Vec<RPath<'a>>),
}

/// The mathematical view of a path.
pub enum RPathView {
    Index(int),
    Field(Seq<char>),
    Chain(Seq<RPathView>),
}

impl<'a> RPath<'a> {
    /// The views of the steps of a chain, in order.
    pub open spec fn steps_deep_view(s: Seq<RPath<'a>>) -> Seq<RPathView>
        decreases s,
    {
        if s.len() == 0 {
            Seq::empty()
        } else {
            RPath::steps_deep_view(s.drop_last()).push(s.last().deep_view())
        }
    }
}

impl<'a> DeepView for RPath<'a> {
    type V = RPathView;

    open spec fn deep_view(&self) -> RPathView
        decreases self,
    {
        match self {
            RPath::Index(i) => RPathView::Index(*i as int),
            RPath::Field(f) => RPathView::Field(f@),
            RPath::Chain(steps) => RPathView::Chain(RPath::steps_deep_view(steps@)),
        }
    }
}

/// The view of a chain step is the step's view, position by position.
pub broadcast proof fn lemma_steps_deep_view<'a>(s: Seq<RPath<'a>>)
    ensures
        #[trigger] RPath::steps_deep_view(s).len() == s.len(),
        forall|i: int| 0 <= i < s.len() ==> RPath::steps_deep_view(s)[i] == s[i].deep_view(),
    decreases s,
{
    if s.len() > 0 {
        lemma_steps_deep_view(s.drop_last());
        assert(RPath::steps_deep_view(s) == RPath::steps_deep_view(s.drop_last()).push(
            s.last().deep_view(),
        ));
        assert forall|i: int| 0 <= i < s.len() implies RPath::steps_deep_view(s)[i]
            == s[i].deep_view() by {
            if i < s.len() - 1 {
                assert(RPath::steps_deep_view(s)[i] == RPath::steps_deep_view(s.drop_last())[i]);
                assert(s.drop_last()[i] == s[i]);
            } else {
                assert(RPath::steps_deep_view(s)[i] == s.last().deep_view());
            }
        }
    }
}

/// What a chain extension means: an existing chain gains one step at its
/// end; a single step becomes a two-step chain.
pub open spec fn spec_extended(p: RPathView, q: RPathView) -> RPathView {
    match p {
        RPathView::Chain(steps) => RPathView::Chain(steps.push(q)),
        _ => RPathView::Chain(seq![p, q]),
    }
}

impl<'a> RPath<'a> {
    /// The identity constructor kept for call-site symmetry with `get`.
    pub fn from(path: RPath<'a>) -> (r: RPath<'a>)
        ensures
            r.deep_view() == path.deep_view(),
    {
        path
    }

    /// Extends this path by one more step, yielding a chain.
    pub fn get(self, path: RPath<'a>) -> (r: RPath<'a>)
        ensures
            r.deep_view() == spec_extended(self.deep_view(), path.deep_view()),
    {
        broadcast use lemma_steps_deep_view;

        let ghost self_view = self.deep_view();
        let ghost path_view = path.deep_view();
        match self {
            RPath::Chain(mut chain) => {
                let ghost pre = chain@;
                chain.push(path);
                proof {
                    assert(chain@.drop_last() =~= pre);
                    assert(RPath::steps_deep_view(chain@) =~= RPath::steps_deep_view(pre).push(
                        path_view,
                    ));
                }
                RPath::Chain(chain)
            },
            RPath::Index(index) => {
                let mut chain: Vec<RPath<'a>> = Vec::new();
                chain.push(RPath::Index(index));
                chain.push(path);
                proof {
                    assert(RPath::steps_deep_view(chain@) =~= seq![self_view, path_view]);
                }
                RPath::Chain(chain)
            },
            RPath::Field(field) => {
                let mut chain: Vec<RPath<'a>> = Vec::new();
                chain.push(RPath::Field(field));
                chain.push(path);
                proof {
                    assert(RPath::steps_deep_view(chain@) =~= seq![self_view, path_view]);
                }
                RPath::Chain(chain)
            },
        }
    }
}

/// The shape rule for arrays: the missing value reads as "no array", an
/// array reads as itself, and every other variant is a shape error.
pub open spec fn spec_as_array(v: ValueView) -> Result<
    Option<Seq<ValueView>>,
    SurrealResponseError,
> {
    match v {
        ValueView::Absent => Ok(None),
        ValueView::Array(items) => Ok(Some(items)),
        _ => Err(SurrealResponseError::ExpectedAnArray),
    }
}

/// The shape rule for objects, with the one coercion: the missing value
/// and the empty array read as "no object"; an object reads as itself; an
/// array reads as an object only when it holds exactly one member and
/// that member is an object; every other shape is the object shape
/// error.
pub open spec fn spec_as_object(v: ValueView) -> Result<
    Option<Seq<(Seq<char>, ValueView)>>,
    SurrealResponseError,
> {
    match v {
        ValueView::Absent => Ok(None),
        ValueView::Object(entries) => Ok(Some(entries)),
        ValueView::Array(items) => if items.len() == 0 {
            Ok(None)
        } else if items.len() != 1 {
            Err(SurrealResponseError::ExpectedAnObject)
        } else {
            match items[0] {
                ValueView::Object(entries) => Ok(Some(entries)),
                _ => Err(SurrealResponseError::ExpectedAnObject),
            }
        },
        _ => Err(SurrealResponseError::ExpectedAnObject),
    }
}

/// The first entry bound to the key, if any; keys are unique, so "first"
/// is also "only".
pub open spec fn spec_lookup(entries: Seq<(Seq<char>, ValueView)>, key: Seq<char>) -> Option<
    ValueView,
>
    decreases entries.len(),
{
    if entries.len() == 0 {
        None
    } else if entries[0].0 == key {
        Some(entries[0].1)
    } else {
        spec_lookup(entries.drop_first(), key)
    }
}

/// Relies on str's `PartialEq`: two string slices are equal exactly when
/// their character sequences are equal.
#[verifier::external_body]
fn str_eq(a: &str, b: &str) -> (r: bool)
    ensures
        r == (a@ == b@),
{
    a == b
}

impl Object {
    /// The value bound to the field name, if any.
    pub fn get(&self, name: &str) -> (r: Option<&Value>)
        ensures
            match r {
                Some(v) => spec_lookup(self.deep_view(), name@) == Some(v.deep_view()),
                None => spec_lookup(self.deep_view(), name@) is None,
            },
    {
        proof {
            assert(self.deep_view().skip(0) =~= self.deep_view());
        }
        let mut i: usize = 0;
        while i < self.entries.len()
            invariant
                i <= self.entries.len(),
                spec_lookup(self.deep_view(), name@) == spec_lookup(
                    self.deep_view().skip(i as int),
                    name@,
                ),
            decreases self.entries.len() - i,
        {
            proof {
                lemma_entries_deep_view(self.entries@);
                assert(self.deep_view().skip(i as int)[0] == (
                    self.entries@[i as int].0@,
                    self.entries@[i as int].1.deep_view(),
                ));
            }
            if str_eq(self.entries[i].0.as_str(), name) {
                return Some(&self.entries[i].1);
            }
            proof {
                assert(self.deep_view().skip(i as int).drop_first() =~= self.deep_view().skip(
                    i + 1,
                ));
            }
            i = i + 1;
        }
        None
    }
}

/// What navigation returns: index access walks into an array with a
/// bounds check; field access walks into an object (after the one-object
/// coercion), a missing field yielding the missing value; a chain walks
/// its steps left to right, the empty chain being the identity.
pub open spec fn nav(v: ValueView, p: RPathView) -> Result<ValueView, SurrealResponseError>
    decreases p, 1int,
{
    match p {
        RPathView::Index(i) => match spec_as_array(v) {
            Err(e) => Err(e),
            Ok(None) => Ok(ValueView::Absent),
            Ok(Some(items)) => if 0 <= i < items.len() {
                Ok(items[i])
            } else {
                Err(SurrealResponseError::OutOfRange)
            },
        },
        RPathView::Field(name) => match spec_as_object(v) {
            Err(e) => Err(e),
            Ok(None) => Ok(ValueView::Absent),
            Ok(Some(entries)) => match spec_lookup(entries, name) {
                None => Ok(ValueView::Absent),
                Some(x) => Ok(x),
            },
        },
        RPathView::Chain(steps) => nav_steps(v, steps),
    }
}

/// Chain navigation: each step sees exactly the sub-tree the previous
/// step produced.
pub open spec fn nav_steps(v: ValueView, steps: Seq<RPathView>) -> Result<
    ValueView,
    SurrealResponseError,
>
    decreases steps, 0int,
{
    if steps.len() == 0 {
        Ok(v)
    } else {
        match nav(v, steps[0]) {
            Err(e) => Err(e),
            Ok(v2) => nav_steps(v2, steps.drop_first()),
        }
    }
}

/// One result value out of a store response, wrapped for navigation and
/// marshalling.
#[derive(Debug)]
pub struct SurrealQR(pub Value);

impl DeepView for SurrealQR {
    type V = ValueView;

    open spec fn deep_view(&self) -> ValueView {
        self.0.deep_view()
    }
}

/// The view of a navigation result: the sub-tree's view on success, the
/// error itself otherwise.
pub open spec fn result_view(r: Result<SurrealQR, SurrealResponseError>) -> Result<
    ValueView,
    SurrealResponseError,
> {
    match r {
        Ok(q) => Ok(q.deep_view()),
        Err(e) => Err(e),
    }
}

impl SurrealQR {
    /// Some for a present value, None for the missing value and the
    /// explicit null.
    pub fn optional(self) -> (r: Option<SurrealQR>)
        ensures
            self.0.spec_is_none_or_null() ==> r is None,
            !self.0.spec_is_none_or_null() ==> (r matches Some(q) && q.deep_view()
                == self.deep_view()),
    {
        match self.0 {
            Value::Absent => None,
            Value::Null => None,
            _ => Some(self),
        }
    }

    /// True for the missing value and the explicit null.
    pub fn is_none(&self) -> (r: bool)
        ensures
            r == self.0.spec_is_none_or_null(),
    {
        self.0.is_none_or_null()
    }

    /// The object shape rule of `spec_as_object`, handing back a borrow
    /// of the object it selects.
    pub fn object(&self) -> (r: Result<Option<&Object>, SurrealResponseError>)
        ensures
            match r {
                Ok(Some(o)) => spec_as_object(self.deep_view()) == Ok::<
                    Option<Seq<(Seq<char>, ValueView)>>,
                    SurrealResponseError,
                >(Some(o.deep_view())),
                Ok(None) => spec_as_object(self.deep_view()) == Ok::<
                    Option<Seq<(Seq<char>, ValueView)>>,
                    SurrealResponseError,
                >(None),
                Err(e) => spec_as_object(self.deep_view()) == Err::<
                    Option<Seq<(Seq<char>, ValueView)>>,
                    SurrealResponseError,
                >(e),
            },
    {
        match &self.0 {
            Value::Absent => Ok(None),
            Value::Object(o) => Ok(Some(o)),
            Value::Array(items) => {
                proof {
                    lemma_seq_deep_view(items@);
                }
                if items.len() == 0 {
                    Ok(None)
                } else if items.len() != 1 {
                    Err(SurrealResponseError::ExpectedAnObject)
                } else {
                    match &items[0] {
                        Value::Object(o) => Ok(Some(o)),
                        _ => Err(SurrealResponseError::ExpectedAnObject),
                    }
                }
            },
            _ => Err(SurrealResponseError::ExpectedAnObject),
        }
    }

    /// The array shape rule of `spec_as_array`, handing back a borrow of
    /// the members.
    pub fn array(&self) -> (r: Result<Option<&Vec<Value>>, SurrealResponseError>)
        ensures
            match r {
                Ok(Some(items)) => spec_as_array(self.deep_view()) == Ok::<
                    Option<Seq<ValueView>>,
                    SurrealResponseError,
                >(Some(Value::seq_deep_view(items@))),
                Ok(None) => spec_as_array(self.deep_view()) == Ok::<
                    Option<Seq<ValueView>>,
                    SurrealResponseError,
                >(None),
                Err(e) => spec_as_array(self.deep_view()) == Err::<
                    Option<Seq<ValueView>>,
                    SurrealResponseError,
                >(e),
            },
    {
        match &self.0 {
            Value::Absent => Ok(None),
            Value::Array(items) => Ok(Some(items)),
            _ => Err(SurrealResponseError::ExpectedAnArray),
        }
    }

    /// Navigates this value along the path, handing back a copy of the
    /// selected sub-tree; the source is never changed.
    pub fn get(&self, path: &RPath<'_>) -> (r: Result<SurrealQR, SurrealResponseError>)
        ensures
            result_view(r) == nav(self.deep_view(), path.deep_view()),
        decreases path,
    {
        broadcast use lemma_steps_deep_view;

        match path {
            RPath::Index(index) => {
                match self.array() {
                    Err(e) => Err(e),
                    Ok(None) => Ok(SurrealQR(Value::Absent)),
                    Ok(Some(items)) => {
                        if *index >= items.len() {
                            Err(SurrealResponseError::OutOfRange)
                        } else {
                            Ok(SurrealQR(items[*index].duplicate()))
                        }
                    },
                }
            },
            RPath::Field(field) => {
                match self.object() {
                    Err(e) => Err(e),
                    Ok(None) => Ok(SurrealQR(Value::Absent)),
                    Ok(Some(o)) => match o.get(field) {
                        None => Ok(SurrealQR(Value::Absent)),
                        Some(v) => Ok(SurrealQR(v.duplicate())),
                    },
                }
            },
            RPath::Chain(steps) => {
                let mut cur = SurrealQR(self.0.duplicate());
                let mut i: usize = 0;
                proof {
                    assert(RPath::steps_deep_view(steps@).skip(0) =~= RPath::steps_deep_view(
                        steps@,
                    ));
                }
                while i < steps.len()
                    invariant
                        *path == RPath::Chain(*steps),
                        i <= steps.len(),
                        nav_steps(self.deep_view(), RPath::steps_deep_view(steps@)) == nav_steps(
                            cur.deep_view(),
                            RPath::steps_deep_view(steps@).skip(i as int),
                        ),
                    decreases steps.len() - i,
                {
                    proof {
                        vstd::std_specs::vec::axiom_vec_index_decreases(*steps, i as int);
                        assert(decreases_to!(*path => path->Chain_0));
                        lemma_steps_deep_view(steps@);
                        assert(RPath::steps_deep_view(steps@).skip(i as int)[0] == steps@[
                        i as int].deep_view());
                    }
                    let next = cur.get(&steps[i]);
                    match next {
                        Err(e) => {
                            return Err(e);
                        },
                        Ok(q) => {
                            proof {
                                assert(RPath::steps_deep_view(steps@).skip(i as int).drop_first()
                                    =~= RPath::steps_deep_view(steps@).skip(i + 1));
                            }
                            cur = q;
                            i = i + 1;
                        },
                    }
                }
                proof {
                    assert(RPath::steps_deep_view(steps@).skip(steps@.len() as int).len() == 0);
                }
                Ok(cur)
            },
        }
    }
}

/// What selecting out of a whole response returns: a response is the
/// ordered sequence of per-statement result values. Index access picks a
/// statement's result; field access reads a field of the first result; a
/// chain does the former with its first step and navigates the rest. The
/// empty chain selects nothing and is refused.
pub open spec fn spec_select(resp: Seq<ValueView>, p: RPathView) -> Result<
    ValueView,
    SurrealResponseError,
> {
    match p {
        RPathView::Index(i) => if 0 <= i < resp.len() {
            Ok(resp[i])
        } else {
            Err(SurrealResponseError::OutOfRange)
        },
        RPathView::Field(name) => if resp.len() == 0 {
            Err(SurrealResponseError::OutOfRange)
        } else {
            nav(resp[0], RPathView::Field(name))
        },
        RPathView::Chain(steps) => if steps.len() == 0 {
            Err(SurrealResponseError::UnexpectedValueType)
        } else {
            let first = match steps[0] {
                RPathView::Index(i) => if 0 <= i < resp.len() {
                    Ok(resp[i])
                } else {
                    Err(SurrealResponseError::OutOfRange)
                },
                _ => if resp.len() == 0 {
                    Err(SurrealResponseError::OutOfRange)
                } else {
                    nav(resp[0], steps[0])
                },
            };
            match first {
                Err(e) => Err(e),
                Ok(v) => nav_steps(v, steps.drop_first()),
            }
        },
    }
}

/// Selects one result value out of a response: the entry point handed to
/// the transport layer, which holds the response as one value per
/// executed statement.
pub fn select(response: &Vec<Value>, path: &RPath<'_>) -> (r: Result<
    SurrealQR,
    SurrealResponseError,
>)
    ensures
        result_view(r) == spec_select(response.deep_view(), path.deep_view()),
{
    broadcast use lemma_steps_deep_view;

    match path {
        RPath::Index(index) => {
            if *index < response.len() {
                Ok(SurrealQR(response[*index].duplicate()))
            } else {
                Err(SurrealResponseError::OutOfRange)
            }
        },
        RPath::Field(field) => {
            if response.len() == 0 {
                Err(SurrealResponseError::OutOfRange)
            } else {
                let first = SurrealQR(response[0].duplicate());
                first.get(&RPath::Field(field))
            }
        },
        RPath::Chain(steps) => {
            if steps.len() == 0 {
                return Err(SurrealResponseError::UnexpectedValueType);
            }
            let first = match &steps[0] {
                RPath::Index(index) => {
                    if *index < response.len() {
                        Ok(SurrealQR(response[*index].duplicate()))
                    } else {
                        Err(SurrealResponseError::OutOfRange)
                    }
                },
                other => {
                    if response.len() == 0 {
                        Err(SurrealResponseError::OutOfRange)
                    } else {
                        let head = SurrealQR(response[0].duplicate());
                        head.get(other)
                    }
                },
            };
            match first {
                Err(e) => Err(e),
                Ok(v) => {
                    proof {
                        assert(RPath::steps_deep_view(steps@).skip(1) =~= RPath::steps_deep_view(
                            steps@,
                        ).drop_first());
                    }
                    let rest = v.get_steps_from(steps, 1);
                    rest
                },
            }
        },
    }
}

impl SurrealQR {
    /// Navigates the steps of a chain from the given position on,
    /// left to right.
    fn get_steps_from(self, steps: &Vec<RPath<'_>>, start: usize) -> (r: Result<
        SurrealQR,
        SurrealResponseError,
    >)
        requires
            start <= steps.len(),
        ensures
            result_view(r) == nav_steps(
                self.deep_view(),
                RPath::steps_deep_view(steps@).skip(start as int),
            ),
    {
        broadcast use lemma_steps_deep_view;

        let ghost orig = self.deep_view();
        let mut cur = self;
        let mut i: usize = start;
        while i < steps.len()
            invariant
                start <= i <= steps.len(),
                orig == self.deep_view(),
                nav_steps(orig, RPath::steps_deep_view(steps@).skip(start as int)) == nav_steps(
                    cur.deep_view(),
                    RPath::steps_deep_view(steps@).skip(i as int),
                ),
            decreases steps.len() - i,
        {
            proof {
                lemma_steps_deep_view(steps@);
                assert(RPath::steps_deep_view(steps@).skip(i as int)[0] == steps@[
                i as int].deep_view());
            }
            let next = cur.get(&steps[i]);
            match next {
                Err(e) => {
                    proof {
                        lemma_steps_deep_view(steps@);
                        assert(nav_steps(
                            cur.deep_view(),
                            RPath::steps_deep_view(steps@).skip(i as int),
                        ) == Err::<ValueView, SurrealResponseError>(e));
                    }
                    return Err(e);
                },
                Ok(q) => {
                    proof {
                        assert(RPath::steps_deep_view(steps@).skip(i as int).drop_first()
                            =~= RPath::steps_deep_view(steps@).skip(i + 1));
                    }
                    cur = q;
                    i = i + 1;
                },
            }
        }
        proof {
            assert(RPath::steps_deep_view(steps@).skip(steps@.len() as int).len() == 0);
        }
        Ok(cur)
    }

    /// The numeric leaf: the missing value reads as "no number", a
    /// number as itself, anything else as the number shape error.
    pub fn number(self) -> (r: Result<Option<Number>, SurrealResponseError>)
        ensures
            match r {
                Ok(Some(n)) => self.deep_view() == ValueView::Number(n),
                Ok(None) => self.deep_view() matches ValueView::Absent,
                Err(e) => e == SurrealResponseError::ExpectedANumber && !(self.deep_view()
                    matches ValueView::Number(_)) && !(self.deep_view() matches ValueView::Absent),
            },
    {
        match self.0 {
            Value::Absent => Ok(None),
            Value::Number(n) => Ok(Some(n)),
            _ => Err(SurrealResponseError::ExpectedANumber),
        }
    }

    /// The string leaf, under the same shape rule.
    pub fn strand(self) -> (r: Result<Option<String>, SurrealResponseError>)
        ensures
            match r {
                Ok(Some(s)) => self.deep_view() == ValueView::Strand(s@),
                Ok(None) => self.deep_view() matches ValueView::Absent,
                Err(e) => e == SurrealResponseError::ExpectedAStrand && !(self.deep_view()
                    matches ValueView::Strand(_)) && !(self.deep_view() matches ValueView::Absent),
            },
    {
        match self.0 {
            Value::Absent => Ok(None),
            Value::Strand(s) => Ok(Some(s)),
            _ => Err(SurrealResponseError::ExpectedAStrand),
        }
    }

    /// The identifier leaf, under the same shape rule.
    pub fn thing(self) -> (r: Result<Option<Thing>, SurrealResponseError>)
        ensures
            match r {
                Ok(Some(t)) => self.deep_view() == ValueView::Thing(t.deep_view()),
                Ok(None) => self.deep_view() matches ValueView::Absent,
                Err(e) => e == SurrealResponseError::ExpectedAThing && !(self.deep_view()
                    matches ValueView::Thing(_)) && !(self.deep_view() matches ValueView::Absent),
            },
    {
        match self.0 {
            Value::Absent => Ok(None),
            Value::Thing(t) => Ok(Some(t)),
            _ => Err(SurrealResponseError::ExpectedAThing),
        }
    }

    /// The duration leaf, under the same shape rule.
    pub fn duration(self) -> (r: Result<Option<Duration>, SurrealResponseError>)
        ensures
            match r {
                Ok(Some(d)) => self.deep_view() == ValueView::Duration(d),
                Ok(None) => self.deep_view() matches ValueView::Absent,
                Err(e) => e == SurrealResponseError::ExpectedADuration && !(self.deep_view()
                    matches ValueView::Duration(_)) && !(self.deep_view()
                    matches ValueView::Absent),
            },
    {
        match self.0 {
            Value::Absent => Ok(None),
            Value::Duration(d) => Ok(Some(d)),
            _ => Err(SurrealResponseError::ExpectedADuration),
        }
    }

    /// The timestamp leaf, under the same shape rule.
    pub fn datetime(self) -> (r: Result<Option<Datetime>, SurrealResponseError>)
        ensures
            match r {
                Ok(Some(d)) => self.deep_view() == ValueView::Datetime(d),
                Ok(None) => self.deep_view() matches ValueView::Absent,
                Err(e) => e == SurrealResponseError::ExpectedADatetime && !(self.deep_view()
                    matches ValueView::Datetime(_)) && !(self.deep_view()
                    matches ValueView::Absent),
            },
    {
        match self.0 {
            Value::Absent => Ok(None),
            Value::Datetime(d) => Ok(Some(d)),
            _ => Err(SurrealResponseError::ExpectedADatetime),
        }
    }

    /// The geometry leaf, under the same shape rule.
    pub fn geometry(self) -> (r: Result<Option<GeometryPoint>, SurrealResponseError>)
        ensures
            match r {
                Ok(Some(g)) => self.deep_view() == ValueView::Geometry(g),
                Ok(None) => self.deep_view() matches ValueView::Absent,
                Err(e) => e == SurrealResponseError::ExpectedAGeometry && !(self.deep_view()
                    matches ValueView::Geometry(_)) && !(self.deep_view()
                    matches ValueView::Absent),
            },
    {
        match self.0 {
            Value::Absent => Ok(None),
            Value::Geometry(g) => Ok(Some(g)),
            _ => Err(SurrealResponseError::ExpectedAGeometry),
        }
    }

    /// The boolean leaf, under the same shape rule.
    pub fn boolean(self) -> (r: Result<Option<bool>, SurrealResponseError>)
        ensures
            match r {
                Ok(Some(b)) => self.deep_view() == ValueView::Bool(b),
                Ok(None) => self.deep_view() matches ValueView::Absent,
                Err(e) => e == SurrealResponseError::ExpectedABool && !(self.deep_view()
                    matches ValueView::Bool(_)) && !(self.deep_view() matches ValueView::Absent),
            },
    {
        match self.0 {
            Value::Absent => Ok(None),
            Value::Bool(b) => Ok(Some(b)),
            _ => Err(SurrealResponseError::ExpectedABool),
        }
    }

    /// The UUID leaf, under the same shape rule.
    pub fn uuid(self) -> (r: Result<Option<Uuid>, SurrealResponseError>)
        ensures
            match r {
                Ok(Some(u)) => self.deep_view() == ValueView::Uuid(u),
                Ok(None) => self.deep_view() matches ValueView::Absent,
                Err(e) => e == SurrealResponseError::ExpectedAUuid && !(self.deep_view()
                    matches ValueView::Uuid(_)) && !(self.deep_view() matches ValueView::Absent),
            },
    {
        match self.0 {
            Value::Absent => Ok(None),
            Value::Uuid(u) => Ok(Some(u)),
            _ => Err(SurrealResponseError::ExpectedAUuid),
        }
    }

    /// The byte-blob leaf, under the same shape rule.
    pub fn bytes(self) -> (r: Result<Option<Bytes>, SurrealResponseError>)
        ensures
            match r {
                Ok(Some(b)) => self.deep_view() == ValueView::Bytes(b.deep_view()),
                Ok(None) => self.deep_view() matches ValueView::Absent,
                Err(e) => e == SurrealResponseError::ExpectedABytes && !(self.deep_view()
                    matches ValueView::Bytes(_)) && !(self.deep_view() matches ValueView::Absent),
            },
    {
        match self.0 {
            Value::Absent => Ok(None),
            Value::Bytes(b) => Ok(Some(b)),
            _ => Err(SurrealResponseError::ExpectedABytes),
        }
    }

    /// The signed integer inside a numeric leaf: a missing value or a
    /// floating number is a signed-integer shape error, and any other
    /// variant the broader number shape error.
    pub fn as_i64(self) -> (r: Result<i64, SurrealResponseError>)
        ensures
            match r {
                Ok(i) => self.deep_view() == ValueView::Number(Number::Int(i)),
                Err(e) => if !(self.deep_view() matches ValueView::Number(_)) && !(
                self.deep_view() matches ValueView::Absent) {
                    e == SurrealResponseError::ExpectedANumber
                } else {
                    e == SurrealResponseError::ExpectedANumberI64 && !(self.deep_view()
                        matches ValueView::Number(Number::Int(_)))
                },
            },
    {
        match self.number() {
            Err(e) => Err(e),
            Ok(Some(Number::Int(i))) => Ok(i),
            Ok(_) => Err(SurrealResponseError::ExpectedANumberI64),
        }
    }

    /// The bit pattern inside a floating numeric leaf, under the same
    /// rule as `as_i64` with the floating shape error.
    pub fn as_float_bits(self) -> (r: Result<u64, SurrealResponseError>)
        ensures
            match r {
                Ok(bits) => self.deep_view() == ValueView::Number(Number::Float(bits)),
                Err(e) => if !(self.deep_view() matches ValueView::Number(_)) && !(
                self.deep_view() matches ValueView::Absent) {
                    e == SurrealResponseError::ExpectedANumber
                } else {
                    e == SurrealResponseError::ExpectedANumberF64 && !(self.deep_view()
                        matches ValueView::Number(Number::Float(_)))
                },
            },
    {
        match self.number() {
            Err(e) => Err(e),
            Ok(Some(Number::Float(bits))) => Ok(bits),
            Ok(_) => Err(SurrealResponseError::ExpectedANumberF64),
        }
    }

    /// Reads this value into a typed one through the marshalling layer.
    pub fn deserialize<T: SurrealDeserializer>(&self) -> (r: Result<
        T,
        SurrealResponseError,
    >)
        ensures
            match r {
                Ok(out) => T::deserialized(self.deep_view()) == Ok::<T::V, SurrealResponseError>(
                    out.deep_view(),
                ),
                Err(e) => T::deserialized(self.deep_view()) == Err::<T::V, SurrealResponseError>(
                    e,
                ),
            },
    {
        T::deserialize(&self.0)
    }
}

/// What shaping a selected value into a sequence means: the missing
/// value and the explicit null read as the empty sequence; an array
/// reads member by member; anything else is the array shape error.
pub open spec fn spec_select_vec<T: SurrealDeserializer>(
    resp: Seq<ValueView>,
    p: RPathView,
) -> Result<Seq<T::V>, SurrealResponseError> {
    match spec_select(resp, p) {
        Err(e) => Err(e),
        Ok(v) => match v {
            ValueView::Absent => Ok(Seq::empty()),
            ValueView::Null => Ok(Seq::empty()),
            _ => match spec_as_array(v) {
                Err(e) => Err(e),
                Ok(None) => Ok(Seq::empty()),
                Ok(Some(items)) => crate::proxy::spec_deserialized_seq::<T>(items),
            },
        },
    }
}

/// Selects one result value out of a response and reads it as a typed
/// sequence: an empty or missing result reads as the empty sequence.
pub fn select_vec<T: SurrealDeserializer>(
    response: &Vec<Value>,
    path: &RPath<'_>,
) -> (r: Result<Vec<T>, SurrealResponseError>)
    ensures
        match r {
            Ok(out) => spec_select_vec::<T>(response.deep_view(), path.deep_view()) == Ok::<
                Seq<T::V>,
                SurrealResponseError,
            >(out.deep_view()),
            Err(e) => spec_select_vec::<T>(response.deep_view(), path.deep_view()) == Err::<
                Seq<T::V>,
                SurrealResponseError,
            >(e),
        },
{
    let value = match select(response, path) {
        Err(e) => {
            return Err(e);
        },
        Ok(v) => v,
    };
    if value.is_none() {
        let out: Vec<T> = Vec::new();
        proof {
            assert(out.deep_view() =~= Seq::<T::V>::empty());
        }
        return Ok(out);
    }
    match value.array() {
        Err(e) => Err(e),
        Ok(None) => {
            let out: Vec<T> = Vec::new();
            proof {
                assert(out.deep_view() =~= Seq::<T::V>::empty());
            }
            Ok(out)
        },
        Ok(Some(_)) => Vec::<T>::deserialize(&value.0),
    }
}

/// What shaping a selected value into an optional means: the missing
/// value, the explicit null, and the empty array all read as the empty
/// optional; everything else goes through the optional member rule.
pub open spec fn spec_select_optional<T: SurrealDeserializer>(
    resp: Seq<ValueView>,
    p: RPathView,
) -> Result<Option<T::V>, SurrealResponseError> {
    match spec_select(resp, p) {
        Err(e) => Err(e),
        Ok(v) => match v {
            ValueView::Absent => Ok(None),
            ValueView::Null => Ok(None),
            ValueView::Array(items) => if items.len() == 0 {
                Ok(None)
            } else {
                Option::<T>::deserialized(ValueView::Array(items))
            },
            _ => Option::<T>::deserialized(v),
        },
    }
}

/// Selects one result value out of a response and reads it as a typed
/// optional: an empty or missing result reads as the empty optional.
pub fn select_optional<T: SurrealDeserializer>(
    response: &Vec<Value>,
    path: &RPath<'_>,
) -> (r: Result<Option<T>, SurrealResponseError>)
    ensures
        match r {
            Ok(out) => spec_select_optional::<T>(response.deep_view(), path.deep_view()) == Ok::<
                Option<T::V>,
                SurrealResponseError,
            >(out.deep_view()),
            Err(e) => spec_select_optional::<T>(response.deep_view(), path.deep_view()) == Err::<
                Option<T::V>,
                SurrealResponseError,
            >(e),
        },
{
    let value = match select(response, path) {
        Err(e) => {
            return Err(e);
        },
        Ok(v) => v,
    };
    if value.is_none() {
        return Ok(None);
    }
    match &value.0 {
        Value::Array(items) => {
            proof {
                lemma_seq_deep_view(items@);
            }
            if items.len() == 0 {
                Ok(None)
            } else {
                Option::<T>::deserialize(&value.0)
            }
        },
        _ => Option::<T>::deserialize(&value.0),
    }
}

/// Navigation identity: the empty chain hands any tree back unchanged.
pub proof fn lemma_navigate_empty_chain(v: ValueView)
    ensures
        nav(v, RPathView::Chain(Seq::empty())) == Ok::<ValueView, SurrealResponseError>(v),
{
}

/// Absence propagation: navigating the missing value along any path
/// yields the missing value again, never an error.
pub proof fn lemma_navigate_absent(p: RPathView)
    ensures
        nav(ValueView::Absent, p) == Ok::<ValueView, SurrealResponseError>(ValueView::Absent),
    decreases p, 1int,
{
    match p {
        RPathView::Chain(steps) => {
            lemma_navigate_absent_steps(steps);
        },
        _ => {},
    }
}

/// Absence propagation along a chain, step by step.
proof fn lemma_navigate_absent_steps(steps: Seq<RPathView>)
    ensures
        nav_steps(ValueView::Absent, steps) == Ok::<ValueView, SurrealResponseError>(
            ValueView::Absent,
        ),
    decreases steps, 0int,
{
    if steps.len() > 0 {
        lemma_navigate_absent(steps[0]);
        lemma_navigate_absent_steps(steps.drop_first());
    }
}

} // verus!
