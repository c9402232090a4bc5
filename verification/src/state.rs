use std::any::TypeId;

use vstd::prelude::*;

use crate::class::StandardConstructor;
use crate::engine::Engine;
use crate::environment::{self, Scope};
use crate::error::JsResult;
use crate::object::{
    self, Attribute, JsObject, JsValue, ObjectState, PropertyDescriptor, PropertyKeyView,
};
use crate::realm::{Module, Realm};
use crate::string::{self, JsString};

verus! {

/// What a realm holds.
#[verifier::ext_equal]
pub struct RealmState<E: Engine> {
    pub intrinsics: E::Intrinsics,
    pub bindings: Seq<Option<JsValue<E::Primitive>>>,
    pub scope: Scope,
    pub global_object: JsObject,
    pub global_this: JsObject,
    pub global_this_fixed: bool,
    pub templates: Map<u64, JsObject>,
    pub modules: Map<JsString, Module>,
    pub classes: Map<TypeId, StandardConstructor>,
    pub host_defined: E::HostDefined,
}

impl<E: Engine> RealmState<E> {
    /// A realm as it is created. Without a global `this` of its own the global object
    /// is it.
    pub open spec fn fresh(
        intrinsics: E::Intrinsics,
        global_object: JsObject,
        global_this: Option<JsObject>,
        host_defined: E::HostDefined,
    ) -> Self {
        RealmState {
            intrinsics,
            bindings: Seq::empty(),
            scope: Scope { num_bindings: 0 },
            global_object,
            global_this: match global_this {
                Some(this) => this,
                None => global_object,
            },
            global_this_fixed: false,
            templates: Map::empty(),
            modules: Map::empty(),
            classes: Map::empty(),
            host_defined,
        }
    }

    /// The realm with its global `this` fixed as it is.
    pub open spec fn fixed(self) -> Self {
        RealmState { global_this_fixed: true, ..self }
    }

    /// The realm with its global `this` fixed to be `global_this`.
    pub open spec fn fixed_to(self, global_this: JsObject) -> Self {
        RealmState { global_this, global_this_fixed: true, ..self }
    }

    /// The realm with a slot for every binding of its scope.
    pub open spec fn resized(self) -> Self {
        RealmState { bindings: environment::grown(self.bindings, self.scope.num_bindings as nat), ..self }
    }

    /// The realm with `template` for `site`.
    pub open spec fn with_template(self, site: u64, template: JsObject) -> Self {
        RealmState { templates: self.templates.insert(site, template), ..self }
    }

    /// The template for `site`.
    pub open spec fn template(self, site: u64) -> Option<JsObject> {
        if self.templates.contains_key(site) {
            Some(self.templates[site])
        } else {
            None
        }
    }

    /// The realm with the class under `key` registered as `constructor`.
    pub open spec fn with_class(self, key: TypeId, constructor: StandardConstructor) -> Self {
        RealmState { classes: self.classes.insert(key, constructor), ..self }
    }

    /// The realm with no class under `key`.
    pub open spec fn without_class(self, key: TypeId) -> Self {
        RealmState { classes: self.classes.remove(key), ..self }
    }

    /// The class under `key`.
    pub open spec fn class(self, key: TypeId) -> Option<StandardConstructor> {
        if self.classes.contains_key(key) {
            Some(self.classes[key])
        } else {
            None
        }
    }

    /// Whether the realm has the global `this` of `earlier`, fixed exactly if it was then.
    pub open spec fn keeps_global_this_of(self, earlier: Self) -> bool {
        &&& self.global_this == earlier.global_this
        &&& self.global_this_fixed == earlier.global_this_fixed
    }

    /// What may come of a realm: its intrinsics and its global object stay the same, its
    /// global `this` changes only in the step that fixes it, and once fixed stays so.
    pub open spec fn evolves_to(self, later: Self) -> bool {
        &&& later.intrinsics == self.intrinsics
        &&& later.global_object == self.global_object
        &&& self.global_this_fixed ==> later.global_this_fixed
        &&& self.global_this_fixed || !later.global_this_fixed ==> later.global_this
            == self.global_this
    }
}

/// What a heap holds: its number, the objects and their properties, and the realms.
#[verifier::ext_equal]
pub struct HeapState<E: Engine> {
    pub number: u32,
    pub objects: Map<JsObject, ObjectState<E::Primitive>>,
    pub realms: Seq<RealmState<E>>,
}

/// The key of the `globalThis` property.
pub open spec fn global_this_key() -> PropertyKeyView {
    PropertyKeyView::String(string::text_units("globalThis"@))
}

/// The `globalThis` property for a global `this`: writable and configurable, but not
/// enumerable.
pub open spec fn global_this_property<P>(global_this: JsObject) -> PropertyDescriptor<P> {
    object::data_property(
        JsValue::Object(global_this),
        Attribute { writable: true, enumerable: false, configurable: true },
    )
}

/// What the error says that comes once the global `this` of a realm is fixed.
pub open spec fn global_this_fixed_message() -> Seq<char> {
    "the global `this` value of this realm is already fixed: it can be initialized only once, and only before any code runs in the realm"@
}

/// What comes of the answer of an object to a definition: a refusal is a `TypeError`.
pub open spec fn or_throw<P>(answer: JsResult<bool, P>, result: JsResult<(), P>) -> bool {
    match answer {
        Ok(true) => result is Ok,
        Ok(false) => result matches Err(error) && error.is_type_error(
            "cannot redefine property"@,
        ),
        Err(thrown) => result == Err::<(), _>(thrown),
    }
}

impl<E: Engine> HeapState<E> {
    /// Whether `realm` is one of this heap.
    pub open spec fn contains(self, realm: Realm) -> bool {
        realm.heap_number() == self.number && realm.id() < self.realms.len()
    }

    /// Whether `realm` is the one that is created next in this heap.
    pub open spec fn is_next(self, realm: Realm) -> bool {
        realm.heap_number() == self.number && realm.id() == self.realms.len()
    }

    /// What `realm` holds.
    pub open spec fn realm(self, realm: Realm) -> RealmState<E> {
        self.realms[realm.id() as int]
    }

    /// The heap with `state` in place of what `realm` holds.
    pub open spec fn with_realm(self, realm: Realm, state: RealmState<E>) -> Self {
        HeapState { realms: self.realms.update(realm.id() as int, state), ..self }
    }

    /// The properties of the global object of `realm`.
    pub open spec fn global(self, realm: Realm) -> ObjectState<E::Primitive> {
        self.objects[self.realm(realm).global_object]
    }

    /// The heap with a property defined on the global object of `realm`.
    pub open spec fn with_global_property(
        self,
        realm: Realm,
        key: PropertyKeyView,
        descriptor: PropertyDescriptor<E::Primitive>,
    ) -> Self {
        HeapState {
            objects: self.objects.insert(
                self.realm(realm).global_object,
                self.global(realm).define(key, descriptor),
            ),
            ..self
        }
    }

    /// Whether the global `this` of `realm` may still be initialized.
    pub open spec fn window_open(self, realm: Realm) -> bool {
        !self.realm(realm).global_this_fixed
    }

    /// The heap after the global `this` of `realm` is fixed to be `global_this`.
    pub open spec fn begun(self, realm: Realm, global_this: JsObject) -> Self {
        self.with_realm(realm, self.realm(realm).fixed_to(global_this))
    }

    /// Whether the initialization of the global `this` of `realm` would succeed, its global
    /// object being an ordinary one: the former is not fixed, and the latter admits a new
    /// `globalThis`.
    pub open spec fn can_finish(self, realm: Realm) -> bool {
        self.window_open(realm) && self.global(realm).admits(global_this_key())
    }

    /// The heap after an attempt to initialize the global `this` of `realm`, its global
    /// object being an ordinary one. Where that does not admit a new `globalThis`, the global `this` is fixed to the
    /// new one all the same.
    pub open spec fn finished(self, realm: Realm, global_this: JsObject) -> Self {
        let fixed = self.begun(realm, global_this);
        if !self.window_open(realm) {
            self
        } else if self.global(realm).admits(global_this_key()) {
            fixed.with_global_property(
                realm,
                global_this_key(),
                global_this_property(global_this),
            )
        } else {
            fixed
        }
    }

    /// Whether a property may be registered under `key` on the global object of `realm`:
    /// there is none yet, and the object takes more.
    pub open spec fn can_register(self, realm: Realm, key: PropertyKeyView) -> bool {
        !self.global(realm).has(key) && self.global(realm).extensible
    }

    /// The heap after an attempt to register a property on the global object of `realm`,
    /// that being an ordinary one.
    pub open spec fn registered(
        self,
        realm: Realm,
        key: PropertyKeyView,
        value: JsValue<E::Primitive>,
        attribute: Attribute,
    ) -> Self {
        if self.can_register(realm, key) {
            self.with_global_property(realm, key, object::data_property(value, attribute))
        } else {
            self
        }
    }

    /// What such an attempt returns. Where the global object itself does not admit the
    /// property, that is the error of the definition.
    pub open spec fn register_result(
        self,
        realm: Realm,
        key: PropertyKeyView,
        result: JsResult<(), E::Primitive>,
    ) -> bool {
        match result {
            Ok(_) => self.can_register(realm, key),
            Err(error) => {
                &&& !self.can_register(realm, key)
                &&& error.is_type_error(
                    if self.global(realm).has(key) && self.global(
                        realm,
                    ).properties[key].configurable {
                        "the property is already defined"@
                    } else {
                        "cannot redefine property"@
                    },
                )
            },
        }
    }

    /// What may come of a heap: it keeps its number, no realm is lost, and each evolves as a
    /// realm may.
    pub open spec fn evolves_to(self, later: Self) -> bool {
        &&& later.number == self.number
        &&& self.realms.len() <= later.realms.len()
        &&& forall|i: int|
            0 <= i < self.realms.len() ==> (#[trigger] self.realms[i]).evolves_to(later.realms[i])
    }
}

} // verus!
