use vstd::prelude::*;

use crate::error::JsResult;
use crate::object::{JsObject, Objects, PropertyDescriptor, PropertyKey};
use crate::realm::{Heap, Realm};

verus! {

/// The engine that realms belong to, as far as a realm carries its values along without
/// looking into them.
pub trait Engine: Sized {
    /// The primitive values of the language.
    type Primitive;

    /// The shape that every object starts from.
    type RootShape;

    /// The intrinsic objects of a realm.
    type Intrinsics;

    /// What a host attaches to a realm.
    type HostDefined: Default;

    /// Makes the intrinsic objects of a realm, not filled in yet. It may fail.
    fn uninit(root_shape: &Self::RootShape) -> Option<Self::Intrinsics>;

    /// Fills in the intrinsic objects of `realm`, and hands the objects back.
    fn initialize(
        realm: Realm,
        intrinsics: &Self::Intrinsics,
        objects: Objects<Self::Primitive>,
    ) -> Objects<Self::Primitive>;
}

/// What a host decides when a realm is created. Each hook may change the properties of
/// objects, and hands the objects back.
pub trait HostHooks<E: Engine> {
    /// Makes the global object of a new realm.
    fn create_global_object(
        &self,
        intrinsics: &E::Intrinsics,
        objects: Objects<E::Primitive>,
    ) -> (JsObject, Objects<E::Primitive>);

    /// Makes the global `this` of a new realm, or leaves it to be the global object.
    fn create_global_this(
        &self,
        intrinsics: &E::Intrinsics,
        objects: Objects<E::Primitive>,
    ) -> (Option<JsObject>, Objects<E::Primitive>);
}

/// The running engine, which carries out the internal methods of exotic objects. They may
/// run code, to which the whole heap is open; the heap is handed back.
pub trait Context<E: Engine> {
    /// The `[[DefineOwnProperty]]` of an exotic object: whether it defined the property, or
    /// what it threw.
    fn define_own_property(
        &self,
        object: JsObject,
        key: PropertyKey,
        descriptor: PropertyDescriptor<E::Primitive>,
        heap: Heap<E>,
    ) -> (JsResult<bool, E::Primitive>, Heap<E>);
}

} // verus!
