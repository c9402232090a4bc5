use std::any::TypeId;

use vstd::prelude::*;

use crate::object::JsObject;

verus! {

/// A Rust type that a host exposes to the code of a realm as a class.
pub trait Class: Sized + 'static {

}

/// The constructor of a class and its prototype.
#[derive(Clone, Copy, Debug, PartialEq, Eq, Structural)]
pub struct StandardConstructor {
    pub constructor: JsObject,
    pub prototype: JsObject,
}

/// `TypeId::of`, of which nothing is claimed here: the declaration lets `class_key` speak
/// of the values that it returns.
pub assume_specification<T: ?Sized + 'static>[ TypeId::of::<T> ]() -> TypeId
;

/// The key under which a realm keeps class `C`: the value that `TypeId::of::<C>` returns.
pub open spec fn class_key<C: Class>() -> TypeId {
    choose|id: TypeId| call_ensures(TypeId::of::<C>, (), id)
}

/// `TypeId::of`: it returns the same value for a type every time it is called.
#[verifier::external_body]
pub(crate) fn type_id_of<C: Class>() -> (id: TypeId)
    ensures
        id == class_key::<C>(),
{
    TypeId::of::<C>()
}

/// `==` of `TypeId`: it holds of equal values and of no others.
#[verifier::external_body]
fn type_ids_equal(a: &TypeId, b: &TypeId) -> (equal: bool)
    ensures
        equal == (*a == *b),
{
    a == b
}

/// Tells whether a realm keeps classes `C` and `D` under one key.
pub fn same_class<C: Class, D: Class>() -> (same: bool)
    ensures
        same == (class_key::<C>() == class_key::<D>()),
{
    type_ids_equal(&type_id_of::<C>(), &type_id_of::<D>())
}

} // verus!
