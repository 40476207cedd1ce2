//! Static descriptors of error codes, and the traits that error-code enums implement.

use crate::error_impl::ErrorSourceStatic;
use core::any::TypeId;
use vstd::prelude::*;

verus! {

#[verifier::external_type_specification]
#[verifier::external_body]
pub struct ExTypeId(TypeId);

/// Relies on `TypeId`'s `==`: two ids compare equal exactly when they identify the same type.
#[verifier::external_body]
fn type_ids_equal(a: &TypeId, b: &TypeId) -> (r: bool)
    ensures
        r == (*a == *b),
{
    *a == *b
}

/// Relies on `TypeId::of`: the identity of the type `T`.
#[verifier::external_body]
pub(crate) fn type_id_of<T: ?Sized + 'static>() -> TypeId {
    TypeId::of::<T>()
}

/// Represents the info underlying an error code.
pub struct ErrorCodeInfo {
    /// The type ID of this error code.
    pub tid: TypeId,
    /// The value of this error code.
    pub value: u32,
    /// The name of the enum type underlying this error code.
    pub enum_name: &'static str,
    /// The name of this error code.
    pub variant_name: &'static str,
    /// The message this error code should be translated to.
    pub message: Option<&'static str>,
}

impl ErrorCodeInfo {
    /// Two codes are the same code when both their owning type and their value agree.
    pub open spec fn same_code_spec(&self, other: &ErrorCodeInfo) -> bool {
        self.tid == other.tid && self.value == other.value
    }

    /// Returns whether `other` names the same code as `self`: same owning type, same value.
    pub fn same_code(&self, other: &ErrorCodeInfo) -> (r: bool)
        ensures
            r == self.same_code_spec(other),
    {
        type_ids_equal(&self.tid, &other.tid) && self.value == other.value
    }

    /// Returns whether `val` is this error code: its type owns this code, and the type
    /// reports `val` as this code's value.
    pub fn is_value<T: ErrorCodePrivate>(&self, val: T) -> bool {
        self.is_value_with_id(&type_id_of::<T>(), val)
    }

    /// Returns whether `val`, of a type whose id is `tid`, is this error code. The type's own
    /// test of the value is asked only when this code belongs to `tid`; so the answer is
    /// false for a code of another type, whatever the values.
    pub fn is_value_with_id<T: ErrorCodePrivate>(&self, tid: &TypeId, val: T) -> (r: bool)
        ensures
            r ==> self.tid == *tid,
    {
        type_ids_equal(&self.tid, tid) && val.is_value(self.value)
    }

    /// Returns the typed value of this code if its owning type is `T`.
    pub fn decode_value<T: ErrorCodePrivate>(&self) -> Option<T> {
        self.decode_value_with_id(&type_id_of::<T>())
    }

    /// Returns the value of this code as a `T`, whose type id is `tid`, exactly when this
    /// code belongs to `tid`; the type's decoder is asked only then.
    pub fn decode_value_with_id<T: ErrorCodePrivate>(&self, tid: &TypeId) -> (r: Option<T>)
        ensures
            r is Some <==> self.tid == *tid,
    {
        if type_ids_equal(&self.tid, tid) {
            Some(T::from_value(self.value))
        } else {
            None
        }
    }
}

/// A type that can be used as an error code for this crate.
pub trait ErrorCode: 'static + Copy + Eq + ErrorCodePrivate {

}

/// The internal error code trait implementation.
pub trait ErrorCodePrivate: 'static + Copy {
    /// Returns the internal error info code for this type.
    fn info(self) -> &'static ErrorCodeInfo;

    /// Returns the static error source that reports this code on its own.
    fn error_source(self) -> &'static ErrorSourceStatic;

    /// Returns true if the value matches this enum.
    fn is_value(self, value: u32) -> bool;

    /// Returns an enum value corresponding to this error code.
    ///
    /// This should *panic* if the value does not correspond to a known enum variant.
    fn from_value(value: u32) -> Self;
}

} // verus!
