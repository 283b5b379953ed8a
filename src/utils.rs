use core::any::TypeId;
use vstd::prelude::*;

verus! {

#[verifier::external_type_specification]
#[verifier::external_body]
pub struct ExTypeId(TypeId);

/// Relies on `core::any::TypeId::of`: the identifier of a type. Nothing is
/// stated of the value.
pub assume_specification<T: ?Sized + 'static>[ TypeId::of::<T> ]() -> TypeId;

/// The identifier of the type of `value`.
pub fn get_type_of<T: 'static>(value: &T) -> TypeId {
    TypeId::of::<T>()
}

} // verus!
