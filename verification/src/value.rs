//! The dynamic value tree exchanged with the store, together with the plain
//! leaf types it carries and the mathematical view of the whole tree.
use vstd::prelude::*;

verus! {

/// A record identifier: the table (namespace) component and the key component.
#[derive(Debug, Clone)]
pub struct Thing {
    pub table: String,
    pub key: String,
}

/// The mathematical view of a `Thing`.
pub struct ThingView {
    pub table: Seq<char>,
    pub key: Seq<char>,
}

impl DeepView for Thing {
    type V = ThingView;

    open spec fn deep_view(&self) -> ThingView {
        ThingView { table: self.table@, key: self.key@ }
    }
}

impl Thing {
    pub fn new(table: String, key: String) -> (t: Thing)
        ensures
            t.deep_view() == (ThingView { table: table@, key: key@ }),
    {
        Thing { table, key }
    }

    pub fn duplicate(&self) -> (t: Thing)
        ensures
            t.deep_view() == self.deep_view(),
    {
        Thing { table: self.table.clone(), key: self.key.clone() }
    }
}

impl PartialEq for Thing {
    fn eq(&self, other: &Thing) -> (r: bool) {
        self.table == other.table && self.key == other.key
    }
}

impl vstd::std_specs::cmp::PartialEqSpecImpl for Thing {
    open spec fn obeys_eq_spec() -> bool {
        true
    }

    open spec fn eq_spec(&self, other: &Thing) -> bool {
        self.deep_view() == other.deep_view()
    }
}

/// A numeric leaf: integers and floating values stay distinguishable.
/// A floating value is carried as its IEEE 754 bit pattern, so that the
/// tree itself stays within plain integer data.
#[derive(Debug, Clone, Copy, PartialEq, Eq, Structural)]
pub enum Number {
    Int(i64),
    Float(u64),
}

impl DeepView for Number {
    type V = Number;

    open spec fn deep_view(&self) -> Number {
        *self
    }
}

/// A universally unique identifier leaf, carried as its 128-bit value.
#[derive(Debug, Clone, Copy, PartialEq, Eq, Structural)]
pub struct Uuid {
    pub bits: u128,
}

impl DeepView for Uuid {
    type V = Uuid;

    open spec fn deep_view(&self) -> Uuid {
        *self
    }
}

/// A duration leaf: whole seconds and the nanosecond remainder.
#[derive(Debug, Clone, Copy, PartialEq, Eq, Structural)]
pub struct Duration {
    pub secs: u64,
    pub nanos: u32,
}

impl DeepView for Duration {
    type V = Duration;

    open spec fn deep_view(&self) -> Duration {
        *self
    }
}

/// A point in time: seconds since the epoch (possibly negative) and the
/// nanosecond remainder.
#[derive(Debug, Clone, Copy, PartialEq, Eq, Structural)]
pub struct Datetime {
    pub seconds: i64,
    pub nanos: u32,
}

impl DeepView for Datetime {
    type V = Datetime;

    open spec fn deep_view(&self) -> Datetime {
        *self
    }
}

/// A byte blob leaf.
#[derive(Debug, Clone, PartialEq)]
pub struct Bytes {
    pub data: Vec<u8>,
}

impl DeepView for Bytes {
    type V = Seq<u8>;

    open spec fn deep_view(&self) -> Seq<u8> {
        self.data@
    }
}

/// A geometry leaf, modeled as a single point; each coordinate is carried
/// as its IEEE 754 bit pattern.
#[derive(Debug, Clone, Copy, PartialEq, Eq, Structural)]
pub struct GeometryPoint {
    pub long_bits: u64,
    pub lat_bits: u64,
}

impl DeepView for GeometryPoint {
    type V = GeometryPoint;

    open spec fn deep_view(&self) -> GeometryPoint {
        *self
    }
}

/// An object: field names mapped to sub-trees, keys unique, insertion
/// order preserved.
#[derive(Debug, PartialEq)]
pub struct Object {
    pub entries: Vec<(String, Value)>,
}

/// The dynamic tagged-union value exchanged with the store.
///
/// `Absent` is the missing value (an elided field, an empty response);
/// `Null` is an explicit null. `Array` and `Object` are the only
/// recursive variants; all others are leaves.
#[derive(Debug, PartialEq)]
pub enum Value {
    Absent,
    Null,
    Bool(bool),
    Number(Number),
    Strand(String),
    Thing(Thing),
    Uuid(Uuid),
    Duration(Duration),
    Datetime(Datetime),
    Bytes(Bytes),
    Geometry(GeometryPoint),
    Array(Vec<Value>),
    Object(Object),
}

/// The mathematical view of a `Value`.
pub enum ValueView {
    Absent,
    Null,
    Bool(bool),
    Number(Number),
    Strand(Seq<char>),
    Thing(ThingView),
    Uuid(Uuid),
    Duration(Duration),
    Datetime(Datetime),
    Bytes(Seq<u8>),
    Geometry(GeometryPoint),
    Array(Seq<ValueView>),
    Object(Seq<(Seq<char>, ValueView)>),
}

impl Value {
    /// The views of the members of an array, in order.
    pub open spec fn seq_deep_view(s: Seq<Value>) -> Seq<ValueView>
        decreases s,
    {
        if s.len() == 0 {
            Seq::empty()
        } else {
            Value::seq_deep_view(s.drop_last()).push(s.last().deep_view())
        }
    }

    /// The views of the entries of an object, in order.
    pub open spec fn entries_deep_view(s: Seq<(String, Value)>) -> Seq<(Seq<char>, ValueView)>
        decreases s,
    {
        if s.len() == 0 {
            Seq::empty()
        } else {
            Value::entries_deep_view(s.drop_last()).push((s.last().0@, s.last().1.deep_view()))
        }
    }
}

impl DeepView for Value {
    type V = ValueView;

    open spec fn deep_view(&self) -> ValueView
        decreases self,
    {
        match self {
            Value::Absent => ValueView::Absent,
            Value::Null => ValueView::Null,
            Value::Bool(b) => ValueView::Bool(*b),
            Value::Number(n) => ValueView::Number(*n),
            Value::Strand(s) => ValueView::Strand(s@),
            Value::Thing(t) => ValueView::Thing(t.deep_view()),
            Value::Uuid(u) => ValueView::Uuid(*u),
            Value::Duration(d) => ValueView::Duration(*d),
            Value::Datetime(d) => ValueView::Datetime(*d),
            Value::Bytes(b) => ValueView::Bytes(b.data@),
            Value::Geometry(g) => ValueView::Geometry(*g),
            Value::Array(items) => ValueView::Array(Value::seq_deep_view(items@)),
            Value::Object(o) => ValueView::Object(Value::entries_deep_view(o.entries@)),
        }
    }
}

impl DeepView for Object {
    type V = Seq<(Seq<char>, ValueView)>;

    open spec fn deep_view(&self) -> Seq<(Seq<char>, ValueView)> {
        Value::entries_deep_view(self.entries@)
    }
}

/// The view of an array member is the member's view, position by position.
pub broadcast proof fn lemma_seq_deep_view(s: Seq<Value>)
    ensures
        #[trigger] Value::seq_deep_view(s).len() == s.len(),
        forall|i: int| 0 <= i < s.len() ==> Value::seq_deep_view(s)[i] == s[i].deep_view(),
    decreases s,
{
    if s.len() > 0 {
        lemma_seq_deep_view(s.drop_last());
        assert(Value::seq_deep_view(s) == Value::seq_deep_view(s.drop_last()).push(
            s.last().deep_view(),
        ));
        assert forall|i: int| 0 <= i < s.len() implies Value::seq_deep_view(s)[i]
            == s[i].deep_view() by {
            if i < s.len() - 1 {
                assert(Value::seq_deep_view(s)[i] == Value::seq_deep_view(s.drop_last())[i]);
                assert(s.drop_last()[i] == s[i]);
            } else {
                assert(Value::seq_deep_view(s)[i] == s.last().deep_view());
            }
        }
    }
}

/// The view of an object entry is the key's view paired with the
/// sub-tree's view, position by position.
pub broadcast proof fn lemma_entries_deep_view(s: Seq<(String, Value)>)
    ensures
        #[trigger] Value::entries_deep_view(s).len() == s.len(),
        forall|i: int|
            0 <= i < s.len() ==> Value::entries_deep_view(s)[i] == (s[i].0@, s[i].1.deep_view()),
    decreases s,
{
    if s.len() > 0 {
        lemma_entries_deep_view(s.drop_last());
        assert forall|i: int| 0 <= i < s.len() implies Value::entries_deep_view(s)[i] == (
        s[i].0@,
        s[i].1.deep_view(),
        ) by {
            if i < s.len() - 1 {
                assert(Value::entries_deep_view(s)[i] == Value::entries_deep_view(
                    s.drop_last(),
                )[i]);
                assert(s.drop_last()[i] == s[i]);
            } else {
                assert(Value::entries_deep_view(s)[i] == (s.last().0@, s.last().1.deep_view()));
            }
        }
    }
}

impl Bytes {
    pub fn duplicate(&self) -> (r: Bytes)
        ensures
            r.deep_view() == self.deep_view(),
    {
        let mut data: Vec<u8> = Vec::new();
        let mut i: usize = 0;
        while i < self.data.len()
            invariant
                i <= self.data.len(),
                data@ == self.data@.take(i as int),
            decreases self.data.len() - i,
        {
            data.push(self.data[i]);
            i = i + 1;
            proof {
                assert(data@ =~= self.data@.take(i as int));
            }
        }
        proof {
            assert(data@ =~= self.data@);
        }
        Bytes { data }
    }
}

impl Object {
    /// A structural copy of the object: same entries, same order.
    pub fn duplicate(&self) -> (r: Object)
        ensures
            r.deep_view() == self.deep_view(),
        decreases self,
    {
        let mut entries: Vec<(String, Value)> = Vec::new();
        let mut i: usize = 0;
        while i < self.entries.len()
            invariant
                i <= self.entries.len(),
                Value::entries_deep_view(entries@) == Value::entries_deep_view(
                    self.entries@.take(i as int),
                ),
            decreases self.entries.len() - i,
        {
            let key = self.entries[i].0.clone();
            let sub = self.entries[i].1.duplicate();
            let ghost pre = entries@;
            entries.push((key, sub));
            i = i + 1;
            proof {
                assert(entries@.drop_last() =~= pre);
                lemma_take_one_more_entry(self.entries@, i - 1);
                lemma_entries_push(pre, entries@.last(), self.entries@.take(i as int));
            }
        }
        proof {
            assert(self.entries@.take(self.entries@.len() as int) =~= self.entries@);
        }
        Object { entries }
    }
}

/// Extending by one entry with an equal view keeps the entry views equal.
proof fn lemma_entries_push(s: Seq<(String, Value)>, e: (String, Value), t: Seq<(String, Value)>)
    requires
        Value::entries_deep_view(s) == Value::entries_deep_view(t.drop_last()),
        t.len() > 0,
        e.0@ == t.last().0@,
        e.1.deep_view() == t.last().1.deep_view(),
    ensures
        Value::entries_deep_view(s.push(e)) == Value::entries_deep_view(t),
{
    assert(s.push(e).drop_last() =~= s);
    assert(s.push(e).last() == e);
}

/// Taking one more element appends that element's view.
proof fn lemma_take_one_more_entry(s: Seq<(String, Value)>, i: int)
    requires
        0 <= i < s.len(),
    ensures
        s.take(i + 1).drop_last() =~= s.take(i),
        s.take(i + 1).last() == s[i],
{
}

/// Extending by one member with an equal view keeps the member views equal.
proof fn lemma_members_push(s: Seq<Value>, e: Value, t: Seq<Value>)
    requires
        Value::seq_deep_view(s) == Value::seq_deep_view(t.drop_last()),
        t.len() > 0,
        e.deep_view() == t.last().deep_view(),
    ensures
        Value::seq_deep_view(s.push(e)) == Value::seq_deep_view(t),
{
    assert(s.push(e).drop_last() =~= s);
    assert(s.push(e).last() == e);
}

impl Value {
    /// A structural copy of the tree: navigation and marshalling hand out
    /// copies rather than mutating a source tree.
    pub fn duplicate(&self) -> (r: Value)
        ensures
            r.deep_view() == self.deep_view(),
        decreases self,
    {
        match self {
            Value::Absent => Value::Absent,
            Value::Null => Value::Null,
            Value::Bool(b) => Value::Bool(*b),
            Value::Number(n) => Value::Number(*n),
            Value::Strand(s) => Value::Strand(s.clone()),
            Value::Thing(t) => Value::Thing(t.duplicate()),
            Value::Uuid(u) => Value::Uuid(*u),
            Value::Duration(d) => Value::Duration(*d),
            Value::Datetime(d) => Value::Datetime(*d),
            Value::Bytes(b) => Value::Bytes(b.duplicate()),
            Value::Geometry(g) => Value::Geometry(*g),
            Value::Object(o) => Value::Object(o.duplicate()),
            Value::Array(items) => {
                let mut copied: Vec<Value> = Vec::new();
                let mut i: usize = 0;
                while i < items.len()
                    invariant
                        *self == Value::Array(*items),
                        i <= items.len(),
                        Value::seq_deep_view(copied@) == Value::seq_deep_view(
                            items@.take(i as int),
                        ),
                    decreases items.len() - i,
                {
                    proof {
                        vstd::std_specs::vec::axiom_vec_index_decreases(*items, i as int);
                        assert(decreases_to!(*self => self->Array_0));
                        assert(self->Array_0 == *items);
                    }
                    let sub = items[i].duplicate();
                    let ghost pre = copied@;
                    copied.push(sub);
                    i = i + 1;
                    proof {
                        assert(copied@.drop_last() =~= pre);
                        assert(items@.take(i as int).drop_last() =~= items@.take(i - 1));
                        lemma_members_push(pre, copied@.last(), items@.take(i as int));
                    }
                }
                proof {
                    assert(items@.take(items@.len() as int) =~= items@);
                }
                Value::Array(copied)
            },
        }
    }

    /// True for the missing value and for the explicit null, false for
    /// every other variant.
    pub open spec fn spec_is_none_or_null(&self) -> bool {
        self.deep_view() matches ValueView::Absent || self.deep_view() matches ValueView::Null
    }

    pub fn is_none_or_null(&self) -> (r: bool)
        ensures
            r == self.spec_is_none_or_null(),
    {
        match self {
            Value::Absent => true,
            Value::Null => true,
            _ => false,
        }
    }
}

} // verus!
