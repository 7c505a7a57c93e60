//! The marshalling layer: the symmetric pair of contracts that convert a
//! typed value into the dynamic tree and (fallibly) back, implemented
//! for the leaf types, optionals, sequences and owned wrappers.
use vstd::prelude::*;

use crate::surreal_qr::SurrealResponseError;
use crate::value::Bytes;
use crate::value::Datetime;
use crate::value::Duration;
use crate::value::Number;
use crate::value::Thing;
use crate::value::ThingView;
use crate::value::Uuid;
use crate::value::Value;
use crate::value::ValueView;

verus! {

/// Conversion of a typed value into the dynamic tree. `serialized` names
/// the tree a value turns into; `ser_ok` admits every value whose tree
/// the wire model can carry (only the unsigned integers near the top of
/// their range fall outside it).
pub trait SurrealSerializer: Sized + DeepView {
    spec fn ser_ok(v: Self::V) -> bool;

    spec fn serialized(v: Self::V) -> ValueView;

    fn serialize(self) -> (out: Value)
        requires
            Self::ser_ok(self.deep_view()),
        ensures
            out.deep_view() == Self::serialized(self.deep_view()),
    ;
}

/// Fallible conversion from the dynamic tree back into a typed value.
/// `deserialized` says, for every tree, either the value read out of it
/// or the one shape error reported.
pub trait SurrealDeserializer: Sized + DeepView {
    spec fn deserialized(v: ValueView) -> Result<Self::V, SurrealResponseError>;

    fn deserialize(value: &Value) -> (r: Result<Self, SurrealResponseError>)
        ensures
            match r {
                Ok(out) => Self::deserialized(value.deep_view()) == Ok::<
                    Self::V,
                    SurrealResponseError,
                >(out.deep_view()),
                Err(e) => Self::deserialized(value.deep_view()) == Err::<
                    Self::V,
                    SurrealResponseError,
                >(e),
            },
    ;

    /// The default entry point: an elided argument is first normalized
    /// to the missing value, so every implementation sees a real tree.
    fn from_option(value: Option<&Value>) -> (r: Result<Self, SurrealResponseError>)
        ensures
            ({
                let tree = match value {
                    Some(v) => v.deep_view(),
                    None => ValueView::Absent,
                };
                match r {
                    Ok(out) => Self::deserialized(tree) == Ok::<Self::V, SurrealResponseError>(
                        out.deep_view(),
                    ),
                    Err(e) => Self::deserialized(tree) == Err::<Self::V, SurrealResponseError>(e),
                }
            }),
    {
        match value {
            None => Self::deserialize(&Value::Absent),
            Some(v) => Self::deserialize(v),
        }
    }
}

impl SurrealSerializer for i64 {
    open spec fn ser_ok(v: i64) -> bool {
        true
    }

    open spec fn serialized(v: i64) -> ValueView {
        ValueView::Number(Number::Int(v))
    }

    fn serialize(self) -> (out: Value) {
        Value::Number(Number::Int(self))
    }
}

impl SurrealDeserializer for i64 {
    open spec fn deserialized(v: ValueView) -> Result<i64, SurrealResponseError> {
        match v {
            ValueView::Number(Number::Int(i)) => Ok(i),
            _ => Err(SurrealResponseError::ExpectedANumberI64),
        }
    }

    fn deserialize(value: &Value) -> (r: Result<i64, SurrealResponseError>) {
        match value {
            Value::Number(Number::Int(i)) => Ok(*i),
            _ => Err(SurrealResponseError::ExpectedANumberI64),
        }
    }
}

impl SurrealSerializer for i32 {
    open spec fn ser_ok(v: i32) -> bool {
        true
    }

    open spec fn serialized(v: i32) -> ValueView {
        ValueView::Number(Number::Int(v as i64))
    }

    fn serialize(self) -> (out: Value) {
        Value::Number(Number::Int(self as i64))
    }
}

impl SurrealDeserializer for i32 {
    open spec fn deserialized(v: ValueView) -> Result<i32, SurrealResponseError> {
        match v {
            ValueView::Number(Number::Int(i)) => if i32::MIN <= i <= i32::MAX {
                Ok(i as i32)
            } else {
                Err(SurrealResponseError::ExpectedANumberI64)
            },
            _ => Err(SurrealResponseError::ExpectedANumberI64),
        }
    }

    fn deserialize(value: &Value) -> (r: Result<i32, SurrealResponseError>) {
        match value {
            Value::Number(Number::Int(i)) => {
                if i32::MIN as i64 <= *i && *i <= i32::MAX as i64 {
                    Ok(*i as i32)
                } else {
                    Err(SurrealResponseError::ExpectedANumberI64)
                }
            },
            _ => Err(SurrealResponseError::ExpectedANumberI64),
        }
    }
}

impl SurrealSerializer for u64 {
    /// The wire model carries integers as signed 64-bit values, so the
    /// upper half of the unsigned range has no tree.
    open spec fn ser_ok(v: u64) -> bool {
        v <= i64::MAX
    }

    open spec fn serialized(v: u64) -> ValueView {
        ValueView::Number(Number::Int(v as i64))
    }

    fn serialize(self) -> (out: Value) {
        Value::Number(Number::Int(self as i64))
    }
}

impl SurrealDeserializer for u64 {
    open spec fn deserialized(v: ValueView) -> Result<u64, SurrealResponseError> {
        match v {
            ValueView::Number(Number::Int(i)) => if i >= 0 {
                Ok(i as u64)
            } else {
                Err(SurrealResponseError::ExpectedANumberI64)
            },
            _ => Err(SurrealResponseError::ExpectedANumberI64),
        }
    }

    fn deserialize(value: &Value) -> (r: Result<u64, SurrealResponseError>) {
        match value {
            Value::Number(Number::Int(i)) => {
                if *i >= 0 {
                    Ok(*i as u64)
                } else {
                    Err(SurrealResponseError::ExpectedANumberI64)
                }
            },
            _ => Err(SurrealResponseError::ExpectedANumberI64),
        }
    }
}

impl SurrealSerializer for bool {
    open spec fn ser_ok(v: bool) -> bool {
        true
    }

    open spec fn serialized(v: bool) -> ValueView {
        ValueView::Bool(v)
    }

    fn serialize(self) -> (out: Value) {
        Value::Bool(self)
    }
}

impl SurrealDeserializer for bool {
    open spec fn deserialized(v: ValueView) -> Result<bool, SurrealResponseError> {
        match v {
            ValueView::Bool(b) => Ok(b),
            _ => Err(SurrealResponseError::ExpectedABool),
        }
    }

    fn deserialize(value: &Value) -> (r: Result<bool, SurrealResponseError>) {
        match value {
            Value::Bool(b) => Ok(*b),
            _ => Err(SurrealResponseError::ExpectedABool),
        }
    }
}

impl SurrealSerializer for String {
    open spec fn ser_ok(v: Seq<char>) -> bool {
        true
    }

    open spec fn serialized(v: Seq<char>) -> ValueView {
        ValueView::Strand(v)
    }

    fn serialize(self) -> (out: Value) {
        Value::Strand(self)
    }
}

impl SurrealDeserializer for String {
    open spec fn deserialized(v: ValueView) -> Result<Seq<char>, SurrealResponseError> {
        match v {
            ValueView::Strand(s) => Ok(s),
            _ => Err(SurrealResponseError::ExpectedAStrand),
        }
    }

    fn deserialize(value: &Value) -> (r: Result<String, SurrealResponseError>) {
        match value {
            Value::Strand(s) => Ok(s.clone()),
            _ => Err(SurrealResponseError::ExpectedAStrand),
        }
    }
}

impl SurrealSerializer for Thing {
    open spec fn ser_ok(v: ThingView) -> bool {
        true
    }

    open spec fn serialized(v: ThingView) -> ValueView {
        ValueView::Thing(v)
    }

    fn serialize(self) -> (out: Value) {
        Value::Thing(self)
    }
}

impl SurrealDeserializer for Thing {
    open spec fn deserialized(v: ValueView) -> Result<ThingView, SurrealResponseError> {
        match v {
            ValueView::Thing(t) => Ok(t),
            _ => Err(SurrealResponseError::ExpectedAThing),
        }
    }

    fn deserialize(value: &Value) -> (r: Result<Thing, SurrealResponseError>) {
        match value {
            Value::Thing(t) => Ok(t.duplicate()),
            _ => Err(SurrealResponseError::ExpectedAThing),
        }
    }
}

impl SurrealSerializer for Uuid {
    open spec fn ser_ok(v: Uuid) -> bool {
        true
    }

    open spec fn serialized(v: Uuid) -> ValueView {
        ValueView::Uuid(v)
    }

    fn serialize(self) -> (out: Value) {
        Value::Uuid(self)
    }
}

impl SurrealDeserializer for Uuid {
    open spec fn deserialized(v: ValueView) -> Result<Uuid, SurrealResponseError> {
        match v {
            ValueView::Uuid(u) => Ok(u),
            _ => Err(SurrealResponseError::ExpectedAUuid),
        }
    }

    fn deserialize(value: &Value) -> (r: Result<Uuid, SurrealResponseError>) {
        match value {
            Value::Uuid(u) => Ok(*u),
            _ => Err(SurrealResponseError::ExpectedAUuid),
        }
    }
}

impl SurrealSerializer for Duration {
    open spec fn ser_ok(v: Duration) -> bool {
        true
    }

    open spec fn serialized(v: Duration) -> ValueView {
        ValueView::Duration(v)
    }

    fn serialize(self) -> (out: Value) {
        Value::Duration(self)
    }
}

impl SurrealDeserializer for Duration {
    open spec fn deserialized(v: ValueView) -> Result<Duration, SurrealResponseError> {
        match v {
            ValueView::Duration(d) => Ok(d),
            _ => Err(SurrealResponseError::ExpectedADuration),
        }
    }

    fn deserialize(value: &Value) -> (r: Result<Duration, SurrealResponseError>) {
        match value {
            Value::Duration(d) => Ok(*d),
            _ => Err(SurrealResponseError::ExpectedADuration),
        }
    }
}

impl SurrealSerializer for Datetime {
    open spec fn ser_ok(v: Datetime) -> bool {
        true
    }

    open spec fn serialized(v: Datetime) -> ValueView {
        ValueView::Datetime(v)
    }

    fn serialize(self) -> (out: Value) {
        Value::Datetime(self)
    }
}

impl SurrealDeserializer for Datetime {
    open spec fn deserialized(v: ValueView) -> Result<Datetime, SurrealResponseError> {
        match v {
            ValueView::Datetime(d) => Ok(d),
            _ => Err(SurrealResponseError::ExpectedADatetime),
        }
    }

    fn deserialize(value: &Value) -> (r: Result<Datetime, SurrealResponseError>) {
        match value {
            Value::Datetime(d) => Ok(*d),
            _ => Err(SurrealResponseError::ExpectedADatetime),
        }
    }
}

impl SurrealSerializer for Bytes {
    open spec fn ser_ok(v: Seq<u8>) -> bool {
        true
    }

    open spec fn serialized(v: Seq<u8>) -> ValueView {
        ValueView::Bytes(v)
    }

    fn serialize(self) -> (out: Value) {
        Value::Bytes(self)
    }
}

impl SurrealDeserializer for Bytes {
    open spec fn deserialized(v: ValueView) -> Result<Seq<u8>, SurrealResponseError> {
        match v {
            ValueView::Bytes(b) => Ok(b),
            _ => Err(SurrealResponseError::ExpectedABytes),
        }
    }

    fn deserialize(value: &Value) -> (r: Result<Bytes, SurrealResponseError>) {
        match value {
            Value::Bytes(b) => Ok(b.duplicate()),
            _ => Err(SurrealResponseError::ExpectedABytes),
        }
    }
}

impl<T: SurrealSerializer> SurrealSerializer for Vec<T> {
    open spec fn ser_ok(v: Seq<T::V>) -> bool {
        forall|i: int| 0 <= i < v.len() ==> T::ser_ok(#[trigger] v[i])
    }

    open spec fn serialized(v: Seq<T::V>) -> ValueView {
        ValueView::Array(v.map_values(|x: T::V| T::serialized(x)))
    }

    fn serialize(self) -> (out: Value) {
        let ghost orig = self.deep_view();
        let mut rest = self;
        let mut members: Vec<Value> = Vec::new();
        proof {
            assert(orig.skip(0) =~= orig);
        }
        while rest.len() > 0
            invariant
                Self::ser_ok(orig),
                members@.len() + rest@.len() == orig.len(),
                rest.deep_view() =~= orig.skip(members@.len() as int),
                Value::seq_deep_view(members@) =~= orig.take(members@.len() as int).map_values(
                    |x: T::V| T::serialized(x),
                ),
            decreases rest.len(),
        {
            let ghost k = members@.len() as int;
            let ghost rest_view = rest.deep_view();
            let ghost old_vec = rest@;
            let x = rest.remove(0);
            proof {
                assert(rest_view[0] == orig[k]);
                assert(x.deep_view() == rest_view[0]);
                assert(T::ser_ok(orig[k]));
                assert forall|j: int| 0 <= j < rest@.len() implies rest.deep_view()[j]
                    == orig.skip(k + 1)[j] by {
                    assert(rest@[j] == old_vec[j + 1]);
                    assert(rest_view[j + 1] == old_vec[j + 1].deep_view());
                    assert(orig.skip(k)[j + 1] == orig[k + 1 + j]);
                }
            }
            let v = x.serialize();
            let ghost pre = members@;
            members.push(v);
            proof {
                assert(members@.drop_last() =~= pre);
                crate::value::lemma_seq_deep_view(pre);
                crate::value::lemma_seq_deep_view(members@);
                assert(Value::seq_deep_view(members@) =~= Value::seq_deep_view(pre).push(
                    v.deep_view(),
                ));
                assert(Value::seq_deep_view(members@) =~= orig.take(k + 1).map_values(
                    |x: T::V| T::serialized(x),
                ));
            }
        }
        proof {
            assert(orig.take(members@.len() as int) =~= orig);
        }
        Value::Array(members)
    }
}

/// What reading a sequence means: each member through the member rule,
/// in order, stopping at the first error.
pub open spec fn spec_deserialized_seq<T: SurrealDeserializer>(items: Seq<ValueView>) -> Result<
    Seq<T::V>,
    SurrealResponseError,
>
    decreases items.len(),
{
    if items.len() == 0 {
        Ok(Seq::empty())
    } else {
        match T::deserialized(items[0]) {
            Err(e) => Err(e),
            Ok(x) => match spec_deserialized_seq::<T>(items.drop_first()) {
                Err(e) => Err(e),
                Ok(tail) => Ok(seq![x] + tail),
            },
        }
    }
}

impl<T: SurrealDeserializer> SurrealDeserializer for Vec<T> {
    open spec fn deserialized(v: ValueView) -> Result<Seq<T::V>, SurrealResponseError> {
        match v {
            ValueView::Array(items) => spec_deserialized_seq::<T>(items),
            _ => Err(SurrealResponseError::ExpectedAnArray),
        }
    }

    fn deserialize(value: &Value) -> (r: Result<Vec<T>, SurrealResponseError>) {
        match value {
            Value::Array(items) => {
                let ghost items_view = Value::seq_deep_view(items@);
                proof {
                    crate::value::lemma_seq_deep_view(items@);
                    assert(items_view.skip(0) =~= items_view);
                }
                let mut out: Vec<T> = Vec::new();
                let mut i: usize = 0;
                while i < items.len()
                    invariant
                        i <= items.len(),
                        value.deep_view() == ValueView::Array(items_view),
                        items_view == Value::seq_deep_view(items@),
                        items_view.len() == items@.len(),
                        spec_deserialized_seq::<T>(items_view) == match spec_deserialized_seq::<T>(
                            items_view.skip(i as int),
                        ) {
                            Err(e) => Err::<Seq<T::V>, SurrealResponseError>(e),
                            Ok(tail) => Ok::<Seq<T::V>, SurrealResponseError>(
                                out.deep_view() + tail,
                            ),
                        },
                    decreases items.len() - i,
                {
                    proof {
                        crate::value::lemma_seq_deep_view(items@);
                        assert(items_view.skip(i as int)[0] == items@[i as int].deep_view());
                    }
                    match T::deserialize(&items[i]) {
                        Err(e) => {
                            proof {
                                assert(spec_deserialized_seq::<T>(items_view.skip(i as int))
                                    == Err::<Seq<T::V>, SurrealResponseError>(e));
                            }
                            return Err(e);
                        },
                        Ok(x) => {
                            let ghost pre = out.deep_view();
                            let ghost xv = x.deep_view();
                            out.push(x);
                            proof {
                                assert(out.deep_view() =~= pre.push(xv));
                                assert(items_view.skip(i as int).drop_first() =~= items_view.skip(
                                    i + 1,
                                ));
                                assert forall|tail: Seq<T::V>|
                                    true implies pre + (seq![xv] + tail) =~= (pre.push(xv)
                                    + tail) by {}
                            }
                            i = i + 1;
                        },
                    }
                }
                proof {
                    assert(items_view.skip(items@.len() as int).len() == 0);
                    assert(out.deep_view() + Seq::<T::V>::empty() =~= out.deep_view());
                }
                Ok(out)
            },
            _ => Err(SurrealResponseError::ExpectedAnArray),
        }
    }
}

impl<T: SurrealSerializer> SurrealSerializer for Option<T> {
    open spec fn ser_ok(v: Option<T::V>) -> bool {
        match v {
            Some(x) => T::ser_ok(x),
            None => true,
        }
    }

    open spec fn serialized(v: Option<T::V>) -> ValueView {
        match v {
            Some(x) => T::serialized(x),
            None => ValueView::Absent,
        }
    }

    fn serialize(self) -> (out: Value) {
        match self {
            Some(x) => x.serialize(),
            None => Value::Absent,
        }
    }
}

impl<T: SurrealDeserializer> SurrealDeserializer for Option<T> {
    open spec fn deserialized(v: ValueView) -> Result<Option<T::V>, SurrealResponseError> {
        match v {
            ValueView::Absent => Ok(None),
            _ => match T::deserialized(v) {
                Ok(x) => Ok(Some(x)),
                Err(SurrealResponseError::CannotReadNoneValue) => Ok(None),
                Err(e) => Err(e),
            },
        }
    }

    fn deserialize(value: &Value) -> (r: Result<Option<T>, SurrealResponseError>) {
        match value {
            Value::Absent => Ok(None),
            _ => {
                match T::deserialize(value) {
                    Ok(x) => Ok(Some(x)),
                    Err(SurrealResponseError::CannotReadNoneValue) => Ok(None),
                    Err(e) => Err(e),
                }
            },
        }
    }
}

impl<T: SurrealSerializer> SurrealSerializer for Box<T> {
    open spec fn ser_ok(v: T::V) -> bool {
        T::ser_ok(v)
    }

    open spec fn serialized(v: T::V) -> ValueView {
        T::serialized(v)
    }

    fn serialize(self) -> (out: Value) {
        (*self).serialize()
    }
}

impl<T: SurrealDeserializer> SurrealDeserializer for Box<T> {
    open spec fn deserialized(v: ValueView) -> Result<T::V, SurrealResponseError> {
        T::deserialized(v)
    }

    fn deserialize(value: &Value) -> (r: Result<Box<T>, SurrealResponseError>) {
        match T::deserialize(value) {
            Ok(x) => Ok(Box::new(x)),
            Err(e) => Err(e),
        }
    }
}

/// Round trip: a signed 64-bit integer deserializes back to itself.
pub proof fn lemma_round_trip_i64(v: i64)
    ensures
        i64::deserialized(i64::serialized(v)) == Ok::<i64, SurrealResponseError>(v),
{
}

/// Round trip: a signed 32-bit integer deserializes back to itself.
pub proof fn lemma_round_trip_i32(v: i32)
    ensures
        i32::deserialized(i32::serialized(v)) == Ok::<i32, SurrealResponseError>(v),
{
}

/// Round trip: an unsigned integer the wire model carries deserializes
/// back to itself.
pub proof fn lemma_round_trip_u64(v: u64)
    requires
        v <= i64::MAX,
    ensures
        u64::deserialized(u64::serialized(v)) == Ok::<u64, SurrealResponseError>(v),
{
}

/// Round trip: a boolean deserializes back to itself.
pub proof fn lemma_round_trip_bool(v: bool)
    ensures
        bool::deserialized(bool::serialized(v)) == Ok::<bool, SurrealResponseError>(v),
{
}

/// Round trip: a string deserializes back to itself.
pub proof fn lemma_round_trip_string(v: Seq<char>)
    ensures
        String::deserialized(String::serialized(v)) == Ok::<Seq<char>, SurrealResponseError>(v),
{
}

/// Round trip: an identifier deserializes back to itself.
pub proof fn lemma_round_trip_thing(v: ThingView)
    ensures
        Thing::deserialized(Thing::serialized(v)) == Ok::<ThingView, SurrealResponseError>(v),
{
}

/// Round trip: a UUID deserializes back to itself.
pub proof fn lemma_round_trip_uuid(v: Uuid)
    ensures
        Uuid::deserialized(Uuid::serialized(v)) == Ok::<Uuid, SurrealResponseError>(v),
{
}

/// Round trip: a duration deserializes back to itself.
pub proof fn lemma_round_trip_duration(v: Duration)
    ensures
        Duration::deserialized(Duration::serialized(v)) == Ok::<Duration, SurrealResponseError>(v),
{
}

/// Round trip: a timestamp deserializes back to itself.
pub proof fn lemma_round_trip_datetime(v: Datetime)
    ensures
        Datetime::deserialized(Datetime::serialized(v)) == Ok::<Datetime, SurrealResponseError>(v),
{
}

/// Round trip: a byte blob deserializes back to itself.
pub proof fn lemma_round_trip_bytes(v: Seq<u8>)
    ensures
        Bytes::deserialized(Bytes::serialized(v)) == Ok::<Seq<u8>, SurrealResponseError>(v),
{
}

/// Optional softening: reading an optional out of a present tree whose
/// member rule reports the "no value" signal collapses to the empty
/// optional rather than propagating an error.
pub proof fn lemma_option_softening<T: SurrealDeserializer>(v: ValueView)
    requires
        !(v matches ValueView::Absent),
        T::deserialized(v) == Err::<T::V, SurrealResponseError>(
            SurrealResponseError::CannotReadNoneValue,
        ),
    ensures
        Option::<T>::deserialized(v) == Ok::<Option<T::V>, SurrealResponseError>(None),
{
}

/// Reading a sequence out of anything but an array reports the array
/// shape error.
pub proof fn lemma_sequence_expects_array<T: SurrealDeserializer>(v: ValueView)
    requires
        !(v matches ValueView::Array(_)),
    ensures
        Vec::<T>::deserialized(v) == Err::<Seq<T::V>, SurrealResponseError>(
            SurrealResponseError::ExpectedAnArray,
        ),
{
}

/// Reading a sequence out of an array whose members all read cleanly
/// yields exactly the members' values, in the array's order.
pub proof fn lemma_sequence_order<T: SurrealDeserializer>(items: Seq<ValueView>)
    requires
        forall|i: int| 0 <= i < items.len() ==> (#[trigger] T::deserialized(items[i])) is Ok,
    ensures
        Vec::<T>::deserialized(ValueView::Array(items)) matches Ok(s) && s.len() == items.len()
            && forall|i: int|
            0 <= i < items.len() ==> T::deserialized(items[i]) == Ok::<T::V, SurrealResponseError>(
                s[i],
            ),
    decreases items.len(),
{
    if items.len() > 0 {
        assert(T::deserialized(items[0]) is Ok);
        assert forall|i: int| 0 <= i < items.drop_first().len() implies (#[trigger] T::deserialized(
            items.drop_first()[i],
        )) is Ok by {
            assert(items.drop_first()[i] == items[i + 1]);
        }
        lemma_sequence_order::<T>(items.drop_first());
        let x = T::deserialized(items[0])->Ok_0;
        let tail = spec_deserialized_seq::<T>(items.drop_first())->Ok_0;
        let s = seq![x] + tail;
        assert(spec_deserialized_seq::<T>(items) == Ok::<Seq<T::V>, SurrealResponseError>(s));
        assert forall|i: int| 0 <= i < items.len() implies T::deserialized(items[i]) == Ok::<
            T::V,
            SurrealResponseError,
        >(s[i]) by {
            if i == 0 {
                assert(s[0] == x);
            } else {
                assert(s[i] == tail[i - 1]);
                assert(items.drop_first()[i - 1] == items[i]);
            }
        }
    }
}

} // verus!
