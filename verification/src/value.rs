//! The typed payload attached to outbound records as an additional
//! field. The adapter stores and forwards these values; it never
//! interprets them.

use vstd::prelude::*;

verus! {

/// One structured field value.
///
/// Scalar payloads are held directly. A floating-point payload is held
/// as the bit pattern of a 64-bit IEEE-754 number, since the adapter
/// only carries it through; helpers outside the library convert to and
/// from the native representation. A nested payload — a sequence or a
/// map — is carried as its rendered text: the adapter never interprets
/// a value, and flattening nested data is the delivery collaborator's
/// concern.
#[derive(Debug, PartialEq)]
pub enum FieldValue {
    Null,
    Bool(bool),
    Int(i64),
    UInt(u64),
    Float(u64),
    Text(String),
}

impl FieldValue {
    /// An exact copy: the result is equal to `self`.
    pub fn duplicate(&self) -> (r: FieldValue)
        ensures
            r == *self,
    {
        match self {
            FieldValue::Null => FieldValue::Null,
            FieldValue::Bool(b) => FieldValue::Bool(*b),
            FieldValue::Int(i) => FieldValue::Int(*i),
            FieldValue::UInt(u) => FieldValue::UInt(*u),
            FieldValue::Float(bits) => FieldValue::Float(*bits),
            FieldValue::Text(s) => FieldValue::Text(s.clone()),
        }
    }
}

} // verus!
