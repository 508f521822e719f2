//! The wire form of a record: an ordered list of named fields, each holding
//! text, bytes or an unsigned integer.
//!
//! Decoding looks each expected field up by its exact name: a name that is
//! absent is a missing field, a name given twice is a duplicate field, a value
//! of another kind is an invalid type, and names that are not expected are
//! ignored.
use vstd::prelude::*;

verus! {

/// A value carried by one field on the wire.
pub enum WireValue {
    Text(String),
    Bytes(Vec<u8>),
    Unsigned(usize),
}

/// The mathematical content of a [`WireValue`].
pub ghost enum ValueModel {
    Text(Seq<char>),
    Bytes(Seq<u8>),
    Unsigned(nat),
}

impl View for WireValue {
    type V = ValueModel;

    open spec fn view(&self) -> ValueModel {
        match self {
            WireValue::Text(s) => ValueModel::Text(s@),
            WireValue::Bytes(b) => ValueModel::Bytes(b@),
            WireValue::Unsigned(n) => ValueModel::Unsigned(*n as nat),
        }
    }
}

/// One named field of a record.
pub struct WireField {
    pub key: String,
    pub value: WireValue,
}

/// A field as a pair of its name and the content of its value.
pub type FieldModel = (Seq<char>, ValueModel);

impl View for WireField {
    type V = FieldModel;

    open spec fn view(&self) -> FieldModel {
        (self.key@, self.value@)
    }
}

/// The content of a whole record, field by field.
pub open spec fn record_model(rec: Seq<WireField>) -> Seq<FieldModel> {
    rec.map_values(|f: WireField| f@)
}

/// The names of the fields of a record, in order.
pub open spec fn field_names(r: Seq<FieldModel>) -> Seq<Seq<char>> {
    r.map_values(|f: FieldModel| f.0)
}

/// The upper-case form of an ASCII lower-case letter; any other character
/// is kept.
pub open spec fn ascii_upper(c: char) -> char {
    if 'a' <= c && c <= 'z' {
        (((c as u32) - 32) as u8) as char
    } else {
        c
    }
}

/// The camelCase form of a snake_case name: each underscore is dropped and
/// the letter that follows it is raised to upper case.
pub open spec fn camel_case(s: Seq<char>) -> Seq<char>
    decreases s.len(),
{
    if s.len() == 0 {
        s
    } else if s[0] == '_' && s.len() >= 2 {
        seq![ascii_upper(s[1])] + camel_case(s.subrange(2, s.len() as int))
    } else {
        seq![s[0]] + camel_case(s.drop_first())
    }
}

/// How often a name occurs in a record, and with what value when it occurs once.
pub ghost enum Occurrence {
    Absent,
    Once(ValueModel),
    Repeated,
}

/// The occurrence of `key` among the fields of `r`.
pub open spec fn occurrence(r: Seq<FieldModel>, key: Seq<char>) -> Occurrence
    decreases r.len(),
{
    if r.len() == 0 {
        Occurrence::Absent
    } else {
        let before = occurrence(r.drop_last(), key);
        if r.last().0 == key {
            match before {
                Occurrence::Absent => Occurrence::Once(r.last().1),
                _ => Occurrence::Repeated,
            }
        } else {
            before
        }
    }
}

/// Where a field of `rec` is named `key`: its position, and whether another
/// field carries the same name.
enum Found {
    Absent,
    Once(usize),
    Repeated,
}

/// Scans `rec` for the fields named `key`.
fn find_field(rec: &Vec<WireField>, key: &String) -> (r: Found)
    ensures
        match occurrence(record_model(rec@), key@) {
            Occurrence::Absent => r is Absent,
            Occurrence::Repeated => r is Repeated,
            Occurrence::Once(v) => r matches Found::Once(i) && i < rec@.len()
                && rec@[i as int].value@ == v,
        },
{
    let ghost model = record_model(rec@);
    let mut found = Found::Absent;
    let mut i: usize = 0;
    while i < rec.len()
        invariant
            i <= rec@.len(),
            model == record_model(rec@),
            match occurrence(model.subrange(0, i as int), key@) {
                Occurrence::Absent => found is Absent,
                Occurrence::Repeated => found is Repeated,
                Occurrence::Once(v) => found matches Found::Once(j) && j < i
                    && rec@[j as int].value@ == v,
            },
        decreases rec@.len() - i,
    {
        assert(model.subrange(0, i + 1).drop_last() =~= model.subrange(0, i as int));
        if rec[i].key == *key {
            found =
            match found {
                Found::Absent => Found::Once(i),
                _ => Found::Repeated,
            };
        }
        i = i + 1;
    }
    assert(model.subrange(0, i as int) =~= model);
    found
}


/// Why a record could not be decoded.
#[derive(Clone, Copy, Debug, PartialEq, Eq, Structural)]
pub enum WireErrorKind {
    /// No field carries an expected name.
    MissingField,
    /// Two or more fields carry an expected name.
    DuplicateField,
    /// The field carries a value of another kind than expected.
    InvalidType,
}

/// A decoding failure, with the name of the field it concerns.
#[derive(Debug)]
pub struct WireError {
    pub kind: WireErrorKind,
    pub field: String,
}

/// A decoding failure as its kind and the field name.
pub type FaultModel = (WireErrorKind, Seq<char>);

impl View for WireError {
    type V = FaultModel;

    open spec fn view(&self) -> FaultModel {
        (self.kind, self.field@)
    }
}

/// The failure reported for `key` when `r` does not hold one value of the
/// expected kind under it.
pub open spec fn lookup_fault(r: Seq<FieldModel>, key: Seq<char>) -> FaultModel {
    match occurrence(r, key) {
        Occurrence::Absent => (WireErrorKind::MissingField, key),
        Occurrence::Repeated => (WireErrorKind::DuplicateField, key),
        Occurrence::Once(_) => (WireErrorKind::InvalidType, key),
    }
}

/// The text held by the field `key` of `r`.
pub open spec fn text_field(r: Seq<FieldModel>, key: Seq<char>) -> Result<Seq<char>, FaultModel> {
    match occurrence(r, key) {
        Occurrence::Once(ValueModel::Text(s)) => Ok(s),
        _ => Err(lookup_fault(r, key)),
    }
}

/// The bytes held by the field `key` of `r`.
pub open spec fn bytes_field(r: Seq<FieldModel>, key: Seq<char>) -> Result<Seq<u8>, FaultModel> {
    match occurrence(r, key) {
        Occurrence::Once(ValueModel::Bytes(b)) => Ok(b),
        _ => Err(lookup_fault(r, key)),
    }
}

/// The unsigned integer held by the field `key` of `r`.
pub open spec fn unsigned_field(r: Seq<FieldModel>, key: Seq<char>) -> Result<nat, FaultModel> {
    match occurrence(r, key) {
        Occurrence::Once(ValueModel::Unsigned(n)) => Ok(n),
        _ => Err(lookup_fault(r, key)),
    }
}

fn fault(rec: &Vec<WireField>, key: &String, found: &Found) -> (e: WireError)
    requires
        match occurrence(record_model(rec@), key@) {
            Occurrence::Absent => *found is Absent,
            Occurrence::Repeated => *found is Repeated,
            Occurrence::Once(_) => *found is Once,
        },
    ensures
        e@ == lookup_fault(record_model(rec@), key@),
{
    let kind = match found {
        Found::Absent => WireErrorKind::MissingField,
        Found::Repeated => WireErrorKind::DuplicateField,
        Found::Once(_) => WireErrorKind::InvalidType,
    };
    WireError { kind, field: key.clone() }
}

/// Reads the text of the field named `key`.
pub fn read_text(rec: &Vec<WireField>, key: &String) -> (r: Result<String, WireError>)
    ensures
        match text_field(record_model(rec@), key@) {
            Ok(s) => r matches Ok(t) && t@ == s,
            Err(f) => r matches Err(e) && e@ == f,
        },
{
    let found = find_field(rec, key);
    if let Found::Once(i) = found {
        if let WireValue::Text(s) = &rec[i].value {
            return Ok(s.clone());
        }
    }
    Err(fault(rec, key, &found))
}

/// Reads the bytes of the field named `key`.
pub fn read_bytes(rec: &Vec<WireField>, key: &String) -> (r: Result<Vec<u8>, WireError>)
    ensures
        match bytes_field(record_model(rec@), key@) {
            Ok(b) => r matches Ok(v) && v@ == b,
            Err(f) => r matches Err(e) && e@ == f,
        },
{
    let found = find_field(rec, key);
    if let Found::Once(i) = found {
        if let WireValue::Bytes(b) = &rec[i].value {
            return Ok(copy_bytes(b));
        }
    }
    Err(fault(rec, key, &found))
}

/// Reads the unsigned integer of the field named `key`.
pub fn read_unsigned(rec: &Vec<WireField>, key: &String) -> (r: Result<usize, WireError>)
    ensures
        match unsigned_field(record_model(rec@), key@) {
            Ok(n) => r matches Ok(v) && v as nat == n,
            Err(f) => r matches Err(e) && e@ == f,
        },
{
    let found = find_field(rec, key);
    if let Found::Once(i) = found {
        if let WireValue::Unsigned(n) = &rec[i].value {
            return Ok(*n);
        }
    }
    Err(fault(rec, key, &found))
}

/// A copy of a byte sequence.
pub fn copy_bytes(b: &Vec<u8>) -> (r: Vec<u8>)
    ensures
        r@ == b@,
{
    let r = b.clone();
    assert(r@ =~= b@);
    r
}


/// A name that no field of `r` carries is absent.
pub proof fn lemma_key_absent(r: Seq<FieldModel>, key: Seq<char>)
    requires
        forall|j: int| 0 <= j < r.len() ==> r[j].0 != key,
    ensures
        occurrence(r, key) is Absent,
    decreases r.len(),
{
    if r.len() > 0 {
        lemma_key_absent(r.drop_last(), key);
    }
}

/// No two fields of `r` carry the same name.
pub open spec fn distinct_keys(r: Seq<FieldModel>) -> bool {
    forall|i: int, j: int| 0 <= i < r.len() && 0 <= j < r.len() && i != j ==> r[i].0 != r[j].0
}

/// In a record whose names are distinct, each name occurs once, with its
/// field's value.
pub proof fn lemma_key_once(r: Seq<FieldModel>, i: int)
    requires
        0 <= i < r.len(),
        distinct_keys(r),
    ensures
        occurrence(r, r[i].0) == Occurrence::Once(r[i].1),
    decreases r.len(),
{
    let p = r.drop_last();
    if i == r.len() - 1 {
        assert forall|j: int| 0 <= j < p.len() implies p[j].0 != r[i].0 by {
            assert(p[j] == r[j]);
        }
        lemma_key_absent(p, r[i].0);
    } else {
        assert(p[i] == r[i]);
        assert(distinct_keys(p)) by {
            assert forall|a: int, b: int|
                0 <= a < p.len() && 0 <= b < p.len() && a != b implies p[a].0 != p[b].0 by {
                assert(p[a] == r[a] && p[b] == r[b]);
            }
        }
        lemma_key_once(p, i);
    }
}

} // verus!
