//! A generic serialized record: an ordered list of key/value fields, the
//! catalog representation from which an item definition is decoded and to
//! which it is encoded. Values are scalars, lists of integers, or one level
//! of nested record (used for the sprite configuration).

use vstd::prelude::*;

verus! {

/// A scalar value inside a nested record.
#[derive(Clone, Debug)]
pub enum Scalar {
    Str(String),
    Int(i64),
    Bool(bool),
}

/// One key/value field of a nested record.
#[derive(Clone, Debug)]
pub struct NestedField {
    pub key: String,
    pub value: Scalar,
}

/// A value of a top-level record field.
#[derive(Clone, Debug)]
pub enum Value {
    Str(String),
    Int(i64),
    Bool(bool),
    IntList(Vec<i64>),
    Rec(Vec<NestedField>),
}

/// One key/value field of a record.
#[derive(Clone, Debug)]
pub struct Field {
    pub key: String,
    pub value: Value,
}

/// A serialized record: an ordered list of fields. Duplicate keys are
/// tolerated; the first occurrence of a key wins on lookup.
#[derive(Clone, Debug)]
pub struct Record {
    pub fields: Vec<Field>,
}

/// Mathematical model of a `Scalar`.
pub ghost enum ScalarModel {
    Str(Seq<char>),
    Int(int),
    Bool(bool),
}

/// Mathematical model of a `Value`.
pub ghost enum ValueModel {
    Str(Seq<char>),
    Int(int),
    Bool(bool),
    IntList(Seq<int>),
    Rec(Seq<(Seq<char>, ScalarModel)>),
}

/// Mathematical model of a whole record: the sequence of its fields.
pub type RecordModel = Seq<(Seq<char>, ValueModel)>;

/// Model of a nested record's fields.
pub type NestedModel = Seq<(Seq<char>, ScalarModel)>;

impl View for Scalar {
    type V = ScalarModel;

    open spec fn view(&self) -> ScalarModel {
        match self {
            Scalar::Str(s) => ScalarModel::Str(s@),
            Scalar::Int(i) => ScalarModel::Int(*i as int),
            Scalar::Bool(b) => ScalarModel::Bool(*b),
        }
    }
}

impl View for NestedField {
    type V = (Seq<char>, ScalarModel);

    open spec fn view(&self) -> (Seq<char>, ScalarModel) {
        (self.key@, self.value@)
    }
}

/// The model of a nested record's field list.
pub open spec fn nested_fields_view(fields: Seq<NestedField>) -> NestedModel {
    fields.map(|i: int, f: NestedField| f@)
}

impl View for Value {
    type V = ValueModel;

    open spec fn view(&self) -> ValueModel {
        match self {
            Value::Str(s) => ValueModel::Str(s@),
            Value::Int(i) => ValueModel::Int(*i as int),
            Value::Bool(b) => ValueModel::Bool(*b),
            Value::IntList(xs) => ValueModel::IntList(xs@.map(|i: int, x: i64| x as int)),
            Value::Rec(fs) => ValueModel::Rec(nested_fields_view(fs@)),
        }
    }
}

impl View for Field {
    type V = (Seq<char>, ValueModel);

    open spec fn view(&self) -> (Seq<char>, ValueModel) {
        (self.key@, self.value@)
    }
}

impl View for Record {
    type V = RecordModel;

    open spec fn view(&self) -> RecordModel {
        self.fields@.map(|i: int, f: Field| f@)
    }
}

/// The value of the first field at or after position `i` whose key is `key`.
pub open spec fn lookup_from(fields: RecordModel, i: int, key: Seq<char>) -> Option<ValueModel>
    decreases fields.len() - i,
{
    if i < 0 || i >= fields.len() {
        None
    } else if fields[i].0 == key {
        Some(fields[i].1)
    } else {
        lookup_from(fields, i + 1, key)
    }
}

/// The value of the first field of the record whose key is `key`.
pub open spec fn lookup(fields: RecordModel, key: Seq<char>) -> Option<ValueModel> {
    lookup_from(fields, 0, key)
}

/// The value of the first nested field at or after position `i` whose key is `key`.
pub open spec fn nested_lookup_from(fields: NestedModel, i: int, key: Seq<char>) -> Option<
    ScalarModel,
>
    decreases fields.len() - i,
{
    if i < 0 || i >= fields.len() {
        None
    } else if fields[i].0 == key {
        Some(fields[i].1)
    } else {
        nested_lookup_from(fields, i + 1, key)
    }
}

/// The value of the first nested field whose key is `key`.
pub open spec fn nested_lookup(fields: NestedModel, key: Seq<char>) -> Option<ScalarModel> {
    nested_lookup_from(fields, 0, key)
}

/// String equality against a literal key, stated over the views.
pub fn str_eq(a: &String, b: &str) -> (r: bool)
    ensures
        r == (a@ == b@),
{
    let owned: String = b.to_owned();
    *a == owned
}

impl Record {
    /// An empty record.
    pub fn new() -> (r: Record)
        ensures
            r@ == Seq::<(Seq<char>, ValueModel)>::empty(),
    {
        let r = Record { fields: Vec::new() };
        proof {
            assert(r@ =~= Seq::<(Seq<char>, ValueModel)>::empty());
        }
        r
    }

    /// Append a field to the record.
    pub fn push(&mut self, key: String, value: Value)
        ensures
            final(self)@ == old(self)@.push((key@, value@)),
    {
        let ghost prev = self@;
        let ghost f_view = (key@, value@);
        self.fields.push(Field { key, value });
        proof {
            assert(final(self)@ =~= prev.push(f_view));
        }
    }

    /// Look a key up: the value of the first field with that key, if any.
    pub fn get<'a>(&'a self, key: &str) -> (r: Option<&'a Value>)
        ensures
            match r {
                Some(v) => lookup(self@, key@) == Some(v@),
                None => lookup(self@, key@) is None,
            },
    {
        let n = self.fields.len();
        let mut i: usize = 0;
        while i < n
            invariant
                0 <= i <= n,
                n == self.fields@.len(),
                lookup(self@, key@) == lookup_from(self@, i as int, key@),
            decreases n - i,
        {
            let f = &self.fields[i];
            if str_eq(&f.key, key) {
                return Some(&f.value);
            }
            i = i + 1;
        }
        None
    }
}

/// Look a key up in a nested record's fields.
pub fn nested_get<'a>(fields: &'a Vec<NestedField>, key: &str) -> (r: Option<&'a Scalar>)
    ensures
        match r {
            Some(v) => nested_lookup(nested_fields_view(fields@), key@) == Some(v@),
            None => nested_lookup(nested_fields_view(fields@), key@) is None,
        },
{
    let n = fields.len();
    let mut i: usize = 0;
    while i < n
        invariant
            0 <= i <= n,
            n == fields@.len(),
            nested_lookup(nested_fields_view(fields@), key@) == nested_lookup_from(
                nested_fields_view(fields@),
                i as int,
                key@,
            ),
        decreases n - i,
    {
        let f = &fields[i];
        if str_eq(&f.key, key) {
            return Some(&f.value);
        }
        i = i + 1;
    }
    None
}

} // verus!
