use std::any::TypeId;

use rustc_hash::FxHashMap;
use vstd::prelude::*;

use crate::class::{self, type_id_of, Class, StandardConstructor};
use crate::engine::{Context, Engine, HostHooks};
use crate::environment::{GlobalEnvironment, Scope};
use crate::error::{JsError, JsResult, TypeError};
use crate::fx_map::{fx_contains_key, fx_get, fx_insert, fx_remove};
use crate::object::{
    self, cannot_redefine, Attribute, JsObject, JsValue, ObjectState, Objects, PropertyDescriptor,
    PropertyKey, PropertyKeyView,
};
use crate::state::{self, HeapState, RealmState};
use crate::string::JsString;

verus! {

/// A reference to a realm of a [`Heap`].
///
/// ECMAScript calls these Realm Records. A clone refers to the same realm, and two
/// references into one heap, or into heaps of different numbers, are equal if and only if
/// they are to the same realm.
#[derive(Clone, Copy, PartialEq, Eq, Structural, Hash)]
pub struct Realm {
    heap: u32,
    index: usize,
}

/// A reference to a module, by the address at which the engine keeps it.
#[derive(Clone, Copy, Debug, PartialEq, Eq, Structural, Hash)]
pub struct Module {
    pub addr: u64,
}

struct Inner<E: Engine> {
    intrinsics: E::Intrinsics,
    /// The global declarative environment of this realm.
    environment: GlobalEnvironment<E::Primitive>,
    /// The global scope of this realm.
    /// This is directly related to the global declarative environment.
    scope: Scope,
    global_object: JsObject,
    /// The global `this` value of this realm.
    ///
    /// Mutable only until the realm's global `this` is fixed; see
    /// [`Realm::finish_global_this_initialization`].
    global_this: JsObject,
    /// Whether this realm's global `this` value is fixed.
    ///
    /// Set either by [`Realm::finish_global_this_initialization`] or by the
    /// first time code runs in this realm, whichever happens first. See that
    /// method for why both of those close the window.
    global_this_fixed: bool,
    template_map: FxHashMap<u64, JsObject>,
    loaded_modules: FxHashMap<JsString, Module>,
    host_classes: FxHashMap<TypeId, StandardConstructor>,
    host_defined: E::HostDefined,
}

/// The memory that realms live in, with the objects that they share. An engine with
/// several heaps gives each a number of its own.
pub struct Heap<E: Engine> {
    number: u32,
    objects: Objects<E::Primitive>,
    realms: Vec<Inner<E>>,
}

impl<E: Engine> View for Inner<E> {
    type V = RealmState<E>;

    closed spec fn view(&self) -> RealmState<E> {
        RealmState {
            intrinsics: self.intrinsics,
            bindings: self.environment@,
            scope: self.scope,
            global_object: self.global_object,
            global_this: self.global_this,
            global_this_fixed: self.global_this_fixed,
            templates: self.template_map@,
            modules: self.loaded_modules@,
            classes: self.host_classes@,
            host_defined: self.host_defined,
        }
    }
}

impl<E: Engine> View for Heap<E> {
    type V = HeapState<E>;

    closed spec fn view(&self) -> HeapState<E> {
        HeapState {
            number: self.number,
            objects: self.objects@,
            realms: Seq::new(self.realms@.len(), |i: int| self.realms@[i]@),
        }
    }
}

impl<E: Engine> Heap<E> {
    /// Creates a heap without realms, in which no object has a property.
    ///
    /// No other heap may have the same number. If one does, the realms at the same position
    /// in the two are equal and have one address, and each heap takes the other's realms for
    /// its own.
    pub fn new(number: u32) -> (heap: Self)
        ensures
            heap@.number == number,
            heap@.realms == Seq::<RealmState<E>>::empty(),
            forall|object: JsObject|
                #[trigger] heap@.objects[object] == ObjectState::<E::Primitive>::plain(),
    {
        Heap { number, objects: Objects::new(), realms: Vec::new() }
    }

    /// Tells whether `realm` is one of this heap.
    pub fn contains(&self, realm: Realm) -> (result: bool)
        ensures
            result == self@.contains(realm),
    {
        realm.heap == self.number && realm.index < self.realms.len()
    }

    /// Gets the objects of this heap.
    pub fn objects(&self) -> (result: &Objects<E::Primitive>)
        ensures
            result@ == self@.objects,
    {
        &self.objects
    }

    /// Gets the objects of this heap, to change their properties.
    pub fn objects_mut(&mut self) -> (result: &mut Objects<E::Primitive>)
        ensures
            result@ == old(self)@.objects,
            final(self)@ == (HeapState { objects: final(result)@, ..old(self)@ }),
            old(self)@.evolves_to(final(self)@),
    {
        &mut self.objects
    }
}

impl Realm {
    /// The number of the heap that the realm is in.
    pub closed spec fn heap_number(self) -> u32 {
        self.heap
    }

    /// The position of the realm in its heap.
    pub closed spec fn id(self) -> nat {
        self.index as nat
    }

    /// The address of the realm.
    pub open spec fn address(self) -> nat {
        (self.heap_number() * 0x1_0000_0000_0000_0000 + self.id() + 1) as nat
    }

    /// Realms are told apart by their heaps and their positions in these, and so by their
    /// addresses, none of which is zero.
    pub proof fn law_identity(a: Realm, b: Realm)
        ensures
            a == b <==> a.heap_number() == b.heap_number() && a.id() == b.id(),
            a == b <==> a.address() == b.address(),
            a.address() != 0,
    {
    }

    /// Creates a new [`Realm`].
    pub fn create<H: HostHooks<E>, E: Engine>(
        hooks: &H,
        root_shape: &E::RootShape,
        heap: &mut Heap<E>,
    ) -> (result: Result<Realm, TypeError>)
        ensures
            exists|intrinsics: Option<E::Intrinsics>|
                {
                    &&& #[trigger] call_ensures(E::uninit, (root_shape,), intrinsics)
                    &&& Self::create_outcome(hooks, intrinsics, old(heap)@, result, final(heap)@)
                },
            old(heap)@.evolves_to(final(heap)@),
    {
        let intrinsics = E::uninit(root_shape);
        Self::create_with(hooks, intrinsics, heap)
    }

    /// What comes of the creation of a realm with `intrinsics`: an error without them, else
    /// a realm with what the hooks made of them. The objects go from hook to hook, then to the
    /// engine to fill in the intrinsics, and are as it left them.
    pub open spec fn create_outcome<H: HostHooks<E>, E: Engine>(
        hooks: &H,
        intrinsics: Option<E::Intrinsics>,
        before: HeapState<E>,
        result: Result<Realm, TypeError>,
        after: HeapState<E>,
    ) -> bool {
        match (intrinsics, result) {
            (None, Err(error)) => {
                &&& error.message@ == "failed to create the realm intrinsics"@
                &&& after == before
            },
            (Some(intrinsics), Ok(realm)) => exists|
                global_object: JsObject,
                global_this: Option<JsObject>,
                host_defined: E::HostDefined,
                given: Objects<E::Primitive>,
                with_object: Objects<E::Primitive>,
                with_this: Objects<E::Primitive>,
                filled_in: Objects<E::Primitive>,
            |
                {
                    &&& given@ == before.objects
                    &&& #[trigger] call_ensures(
                        H::create_global_object,
                        (hooks, &intrinsics, given),
                        (global_object, with_object),
                    )
                    &&& #[trigger] call_ensures(
                        H::create_global_this,
                        (hooks, &intrinsics, with_object),
                        (global_this, with_this),
                    )
                    &&& #[trigger] call_ensures(E::HostDefined::default, (), host_defined)
                    &&& #[trigger] call_ensures(
                        E::initialize,
                        (realm, &intrinsics, with_this),
                        filled_in,
                    )
                    &&& after.objects == filled_in@
                    &&& before.is_next(realm)
                    &&& after.number == before.number
                    &&& after.realms == before.realms.push(
                        RealmState::fresh(intrinsics, global_object, global_this, host_defined),
                    )
                },
            _ => false,
        }
    }

    /// Creates a new [`Realm`] with the intrinsics that the engine made, if it could.
    pub fn create_with<H: HostHooks<E>, E: Engine>(
        hooks: &H,
        intrinsics: Option<E::Intrinsics>,
        heap: &mut Heap<E>,
    ) -> (result: Result<Realm, TypeError>)
        ensures
            Self::create_outcome(hooks, intrinsics, old(heap)@, result, final(heap)@),
            old(heap)@.evolves_to(final(heap)@),
    {
        let intrinsics = match intrinsics {
            Some(intrinsics) => intrinsics,
            None => {
                return Err(TypeError::with_message("failed to create the realm intrinsics"));
            },
        };
        let mut objects = Objects::new();
        std::mem::swap(&mut objects, &mut heap.objects);
        let (global_object, objects) = hooks.create_global_object(&intrinsics, objects);
        let (global_this, objects) = hooks.create_global_this(&intrinsics, objects);
        let host_defined = E::HostDefined::default();
        let realm = Self::allocate(intrinsics, global_object, global_this, host_defined, heap);
        assert(heap@.realm(realm).intrinsics == intrinsics);
        heap.objects = E::initialize(realm, &heap.realms[realm.index].intrinsics, objects);
        Ok(realm)
    }

    /// Adds a realm to the heap.
    pub fn allocate<E: Engine>(
        intrinsics: E::Intrinsics,
        global_object: JsObject,
        global_this: Option<JsObject>,
        host_defined: E::HostDefined,
        heap: &mut Heap<E>,
    ) -> (realm: Realm)
        ensures
            old(heap)@.is_next(realm),
            final(heap)@ == (HeapState {
                realms: old(heap)@.realms.push(
                    RealmState::fresh(intrinsics, global_object, global_this, host_defined),
                ),
                ..old(heap)@
            }),
            old(heap)@.evolves_to(final(heap)@),
    {
        let global_this = match global_this {
            Some(this) => this,
            None => global_object,
        };
        let index: usize = heap.realms.len();
        heap.realms.push(
            Inner {
                intrinsics,
                environment: GlobalEnvironment::global(),
                scope: Scope::new_global(),
                global_object,
                global_this,
                global_this_fixed: false,
                template_map: FxHashMap::default(),
                loaded_modules: FxHashMap::default(),
                host_classes: FxHashMap::default(),
                host_defined,
            },
        );
        Realm { heap: heap.number, index }
    }

    /// Gets the intrinsics of this `Realm`.
    #[must_use]
    pub fn intrinsics<'a, E: Engine>(&self, heap: &'a Heap<E>) -> (result: &'a E::Intrinsics)
        requires
            heap@.contains(*self),
        ensures
            *result == heap@.realm(*self).intrinsics,
    {
        &heap.realms[self.index].intrinsics
    }

    /// Returns an immutable reference to the `[[HostDefined]]` field of the [`Realm`].
    #[must_use]
    pub fn host_defined<'a, E: Engine>(&self, heap: &'a Heap<E>) -> (result: &'a E::HostDefined)
        requires
            heap@.contains(*self),
        ensures
            *result == heap@.realm(*self).host_defined,
    {
        &heap.realms[self.index].host_defined
    }

    /// Returns a mutable reference to the `[[HostDefined]]` field of the [`Realm`].
    #[must_use]
    pub fn host_defined_mut<'a, E: Engine>(&self, heap: &'a mut Heap<E>) -> (result:
        &'a mut E::HostDefined)
        requires
            old(heap)@.contains(*self),
        ensures
            *result == old(heap)@.realm(*self).host_defined,
            final(heap)@ == old(heap)@.with_realm(
                *self,
                RealmState { host_defined: *final(result), ..old(heap)@.realm(*self) },
            ),
            old(heap)@.evolves_to(final(heap)@),
    {
        &mut heap.realms[self.index].host_defined
    }

    /// Checks if this `Realm` has the class `C` registered into its class map.
    #[must_use]
    pub fn has_class<C: Class, E: Engine>(&self, heap: &Heap<E>) -> (result: bool)
        requires
            heap@.contains(*self),
        ensures
            result == (heap@.realm(*self).class(class::class_key::<C>()) is Some),
    {
        fx_contains_key(&heap.realms[self.index].host_classes, &type_id_of::<C>())
    }

    /// Gets the constructor and prototype of the class `C` if it is registered in the class map.
    #[must_use]
    pub fn get_class<C: Class, E: Engine>(&self, heap: &Heap<E>) -> (result: Option<
        StandardConstructor,
    >)
        requires
            heap@.contains(*self),
        ensures
            result == heap@.realm(*self).class(class::class_key::<C>()),
    {
        match fx_get(&heap.realms[self.index].host_classes, &type_id_of::<C>()) {
            Some(spec) => Some(*spec),
            None => None,
        }
    }

    /// Gets the global declarative environment of this realm.
    pub fn environment<'a, E: Engine>(&self, heap: &'a Heap<E>) -> (result: &'a GlobalEnvironment<
        E::Primitive,
    >)
        requires
            heap@.contains(*self),
        ensures
            result@ == heap@.realm(*self).bindings,
    {
        &heap.realms[self.index].environment
    }

    /// Gets the global declarative environment of this realm, to change its bindings.
    pub fn environment_mut<'a, E: Engine>(&self, heap: &'a mut Heap<E>) -> (result:
        &'a mut GlobalEnvironment<E::Primitive>)
        requires
            old(heap)@.contains(*self),
        ensures
            result@ == old(heap)@.realm(*self).bindings,
            final(heap)@ == old(heap)@.with_realm(
                *self,
                RealmState { bindings: final(result)@, ..old(heap)@.realm(*self) },
            ),
            old(heap)@.evolves_to(final(heap)@),
    {
        &mut heap.realms[self.index].environment
    }

    /// Returns the scope of this realm.
    #[must_use]
    pub fn scope<'a, E: Engine>(&self, heap: &'a Heap<E>) -> (result: &'a Scope)
        requires
            heap@.contains(*self),
        ensures
            *result == heap@.realm(*self).scope,
    {
        &heap.realms[self.index].scope
    }

    /// Returns the scope of this realm, for code to declare bindings in it.
    pub fn scope_mut<'a, E: Engine>(&self, heap: &'a mut Heap<E>) -> (result: &'a mut Scope)
        requires
            old(heap)@.contains(*self),
        ensures
            *result == old(heap)@.realm(*self).scope,
            final(heap)@ == old(heap)@.with_realm(
                *self,
                RealmState { scope: *final(result), ..old(heap)@.realm(*self) },
            ),
            old(heap)@.evolves_to(final(heap)@),
    {
        &mut heap.realms[self.index].scope
    }

    /// Gets the global object of this realm.
    pub fn global_object<E: Engine>(&self, heap: &Heap<E>) -> (result: JsObject)
        requires
            heap@.contains(*self),
        ensures
            result == heap@.realm(*self).global_object,
    {
        heap.realms[self.index].global_object
    }

    /// Gets the global `this` of this realm.
    pub fn global_this<E: Engine>(&self, heap: &Heap<E>) -> (result: JsObject)
        requires
            heap@.contains(*self),
        ensures
            result == heap@.realm(*self).global_this,
    {
        heap.realms[self.index].global_this
    }

    /// Records that code has run in this realm, fixing its global `this`.
    pub fn fix_global_this<E: Engine>(&self, heap: &mut Heap<E>)
        requires
            old(heap)@.contains(*self),
        ensures
            final(heap)@ == old(heap)@.with_realm(*self, old(heap)@.realm(*self).fixed()),
            old(heap)@.evolves_to(final(heap)@),
    {
        heap.realms[self.index].global_this_fixed = true;
    }

    /// Begins what [`Realm::finish_global_this_initialization`] completes: installs
    /// `global_this` and fixes it, and returns the `globalThis` property that is then to be
    /// defined on the global object.
    pub fn begin_global_this_initialization<E: Engine>(
        &self,
        global_this: JsObject,
        heap: &mut Heap<E>,
    ) -> (result: Result<
        PropertyDescriptor<E::Primitive>,
        TypeError,
    >)
        requires
            old(heap)@.contains(*self),
        ensures
            match result {
                Ok(descriptor) => {
                    &&& old(heap)@.window_open(*self)
                    &&& descriptor == state::global_this_property::<E::Primitive>(global_this)
                    &&& final(heap)@ == old(heap)@.begun(*self, global_this)
                },
                Err(error) => {
                    &&& !old(heap)@.window_open(*self)
                    &&& error.message@ == state::global_this_fixed_message()
                    &&& final(heap)@ == old(heap)@
                },
            },
            old(heap)@.evolves_to(final(heap)@),
    {
        if heap.realms[self.index].global_this_fixed {
            return Err(
                TypeError::with_message(
                    "the global `this` value of this realm is already fixed: it can be initialized only once, and only before any code runs in the realm",
                ),
            );
        }
        heap.realms[self.index].global_this_fixed = true;
        heap.realms[self.index].global_this = global_this;
        Ok(
            PropertyDescriptor::data(
                JsValue::Object(global_this),
                Attribute { writable: true, enumerable: false, configurable: true },
            ),
        )
    }

    /// Finishes this realm's global `this` initialization, installing
    /// `global_this` as the realm's `[[GlobalThisValue]]`.
    ///
    /// Realm creation is in two halves for a host that needs this. The first is
    /// [`HostHooks::create_global_this`], which runs *during* realm creation,
    /// before any code can run; a host whose global `this` can only be
    /// built with a live engine - an exotic object whose traps call back into
    /// the engine, say - has nothing to return there. This method is the second
    /// half, and the host calls it as soon as the engine is up.
    ///
    /// It is deliberately not a setter. The window closes the moment anything
    /// could have observed the original value, and it closes for good:
    ///
    /// - after any code has run in this realm, because a call frame caches the
    ///   `this` it was entered with and an already-running script may hold the
    ///   old object outright; and
    /// - after a call within it, because the point is to finish an
    ///   initialization, not to keep a realm's identity swappable.
    ///
    /// Outside that window it fails with a `TypeError` and changes nothing.
    ///
    /// Within it, one field is enough. Every other read of the global `this` reads
    /// this field live. The one exception is the `globalThis` property of the global
    /// object, which was written as a snapshot of the original value, and this method
    /// redefines it. Where the global object does not admit that, the method fails with a
    /// `TypeError`, or with what an exotic global object threw, and the global `this` is the
    /// new one and fixed.
    ///
    /// The global *object* is untouched but for that property: `var` bindings and
    /// everything the host installed still land on it, which is what a forwarding global
    /// `this` wants to forward to.
    pub fn finish_global_this_initialization<C: Context<E>, E: Engine>(
        &self,
        global_this: JsObject,
        context: &C,
        heap: &mut Heap<E>,
    ) -> (result: JsResult<(), E::Primitive>)
        requires
            old(heap)@.contains(*self),
        ensures
            !old(heap)@.window_open(*self) ==> {
                &&& final(heap)@ == old(heap)@
                &&& result matches Err(error) && error.is_type_error(
                    state::global_this_fixed_message(),
                )
            },
            old(heap)@.window_open(*self) && !old(heap)@.global(*self).exotic ==> {
                &&& final(heap)@ == old(heap)@.finished(*self, global_this)
                &&& match result {
                    Ok(_) => old(heap)@.can_finish(*self),
                    Err(error) => {
                        &&& !old(heap)@.can_finish(*self)
                        &&& error.is_type_error("cannot redefine property"@)
                    },
                }
            },
            old(heap)@.window_open(*self) && old(heap)@.global(*self).exotic
                ==> Self::exotic_outcome(
                context,
                old(heap)@.begun(*self, global_this),
                old(heap)@.realm(*self).global_object,
                state::global_this_key(),
                state::global_this_property(global_this),
                result,
                final(heap)@,
            ),
            !old(heap)@.window_open(*self) || !old(heap)@.global(*self).exotic
                ==> old(heap)@.evolves_to(final(heap)@),
    {
        let descriptor = match self.begin_global_this_initialization(global_this, heap) {
            Ok(descriptor) => descriptor,
            Err(error) => {
                return Err(JsError::Type(error));
            },
        };
        let key = PropertyKey::String(JsString::from_text("globalThis"));
        let global_object = self.global_object(heap);
        if heap.objects.is_exotic(global_object) {
            return Self::define_exotic(global_object, key, descriptor, context, heap);
        }
        match heap.objects.define_property_or_throw(global_object, key, descriptor) {
            Ok(_) => Ok(()),
            Err(error) => Err(JsError::Type(error)),
        }
    }

    /// What comes of a property definition on an exotic object: the object is asked in the
    /// heap `before`, the heap is as it left it, and its answer decides.
    pub open spec fn exotic_outcome<C: Context<E>, E: Engine>(
        context: &C,
        before: HeapState<E>,
        object: JsObject,
        key: PropertyKeyView,
        descriptor: PropertyDescriptor<E::Primitive>,
        result: JsResult<(), E::Primitive>,
        after: HeapState<E>,
    ) -> bool {
        exists|
            name: PropertyKey,
            given: Heap<E>,
            answer: JsResult<bool, E::Primitive>,
            left: Heap<E>,
        |
            {
                &&& name@ == key
                &&& given@ == before
                &&& #[trigger] call_ensures(
                    C::define_own_property,
                    (context, object, name, descriptor, given),
                    (answer, left),
                )
                &&& after == left@
                &&& state::or_throw(answer, result)
            }
    }

    /// Defines a property on an exotic object.
    fn define_exotic<C: Context<E>, E: Engine>(
        object: JsObject,
        key: PropertyKey,
        descriptor: PropertyDescriptor<E::Primitive>,
        context: &C,
        heap: &mut Heap<E>,
    ) -> (result: JsResult<(), E::Primitive>)
        ensures
            Self::exotic_outcome(
                context,
                old(heap)@,
                object,
                key@,
                descriptor,
                result,
                final(heap)@,
            ),
    {
        let mut lent = Heap::new(heap.number);
        std::mem::swap(&mut lent, heap);
        let (answer, left) = context.define_own_property(object, key, descriptor, lent);
        *heap = left;
        Self::defined_or_throw(answer)
    }

    /// Turns the answer of an object to a property definition into a result: it raises a
    /// `TypeError` if the object refused.
    pub fn defined_or_throw<P>(answer: JsResult<bool, P>) -> (result: JsResult<(), P>)
        ensures
            state::or_throw(answer, result),
    {
        match answer {
            Ok(true) => Ok(()),
            Ok(false) => Err(JsError::Type(cannot_redefine())),
            Err(thrown) => Err(thrown),
        }
    }

    /// Gets the modules loaded in this realm, by their specifiers.
    pub fn loaded_modules<'a, E: Engine>(&self, heap: &'a Heap<E>) -> (result: &'a FxHashMap<
        JsString,
        Module,
    >)
        requires
            heap@.contains(*self),
        ensures
            result@ == heap@.realm(*self).modules,
    {
        &heap.realms[self.index].loaded_modules
    }

    /// Gets the modules loaded in this realm, to load more of them.
    pub fn loaded_modules_mut<'a, E: Engine>(&self, heap: &'a mut Heap<E>) -> (result:
        &'a mut FxHashMap<JsString, Module>)
        requires
            old(heap)@.contains(*self),
        ensures
            result@ == old(heap)@.realm(*self).modules,
            final(heap)@ == old(heap)@.with_realm(
                *self,
                RealmState { modules: final(result)@, ..old(heap)@.realm(*self) },
            ),
            old(heap)@.evolves_to(final(heap)@),
    {
        &mut heap.realms[self.index].loaded_modules
    }

    /// Resizes the number of bindings on the global environment.
    pub fn resize_global_env<E: Engine>(&self, heap: &mut Heap<E>)
        requires
            old(heap)@.contains(*self),
        ensures
            final(heap)@ == old(heap)@.with_realm(*self, old(heap)@.realm(*self).resized()),
            old(heap)@.evolves_to(final(heap)@),
    {
        let binding_number: u32 = self.scope(heap).num_bindings();
        self.environment_mut(heap).grow(binding_number as usize);
    }

    /// Keeps `template` for the call site `site`.
    pub fn push_template<E: Engine>(&self, site: u64, template: JsObject, heap: &mut Heap<E>)
        requires
            old(heap)@.contains(*self),
        ensures
            final(heap)@ == old(heap)@.with_realm(
                *self,
                old(heap)@.realm(*self).with_template(site, template),
            ),
            old(heap)@.evolves_to(final(heap)@),
    {
        fx_insert(&mut heap.realms[self.index].template_map, site, template);
    }

    /// Gets the template that is kept for the call site `site`.
    pub fn lookup_template<E: Engine>(&self, site: u64, heap: &Heap<E>) -> (result: Option<
        JsObject,
    >)
        requires
            heap@.contains(*self),
        ensures
            result == heap@.realm(*self).template(site),
    {
        match fx_get(&heap.realms[self.index].template_map, &site) {
            Some(template) => Some(*template),
            None => None,
        }
    }

    /// Register a property on the global object of this realm.
    ///
    /// It will return an error if the property is already defined. An exotic global object
    /// decides by its own internal method.
    pub fn register_property<K, V, C: Context<E>, E: Engine>(
        &self,
        key: K,
        value: V,
        attribute: Attribute,
        context: &C,
        heap: &mut Heap<E>,
    ) -> (result: JsResult<(), E::Primitive>) where
        K: Into<PropertyKey>,
        V: Into<JsValue<E::Primitive>>,

        requires
            old(heap)@.contains(*self),
        ensures
            exists|k: PropertyKey, v: JsValue<E::Primitive>|
                {
                    &&& #[trigger] call_ensures(K::into, (key,), k)
                    &&& #[trigger] call_ensures(V::into, (value,), v)
                    &&& self.register_outcome(
                        context,
                        old(heap)@,
                        k@,
                        v,
                        attribute,
                        result,
                        final(heap)@,
                    )
                },
            !old(heap)@.global(*self).exotic ==> old(heap)@.evolves_to(final(heap)@),
    {
        self.register_property_value(key.into(), value.into(), attribute, context, heap)
    }

    /// What comes of the registration of a property on the global object.
    pub open spec fn register_outcome<C: Context<E>, E: Engine>(
        self,
        context: &C,
        before: HeapState<E>,
        key: PropertyKeyView,
        value: JsValue<E::Primitive>,
        attribute: Attribute,
        result: JsResult<(), E::Primitive>,
        after: HeapState<E>,
    ) -> bool {
        if before.global(self).exotic {
            Self::exotic_outcome(
                context,
                before,
                before.realm(self).global_object,
                key,
                object::data_property(value, attribute),
                result,
                after,
            )
        } else {
            &&& before.register_result(self, key, result)
            &&& after == before.registered(self, key, value, attribute)
        }
    }

    /// Register a property on the global object of this realm, by its very key and value.
    ///
    /// It will return an error if the property is already defined. An exotic global object
    /// decides by its own internal method.
    pub fn register_property_value<C: Context<E>, E: Engine>(
        &self,
        key: PropertyKey,
        value: JsValue<E::Primitive>,
        attribute: Attribute,
        context: &C,
        heap: &mut Heap<E>,
    ) -> (result: JsResult<(), E::Primitive>)
        requires
            old(heap)@.contains(*self),
        ensures
            self.register_outcome(
                context,
                old(heap)@,
                key@,
                value,
                attribute,
                result,
                final(heap)@,
            ),
            !old(heap)@.global(*self).exotic ==> old(heap)@.evolves_to(final(heap)@),
    {
        let descriptor = PropertyDescriptor::data(value, attribute);
        let global_object = self.global_object(heap);
        if heap.objects.is_exotic(global_object) {
            return Self::define_exotic(global_object, key, descriptor, context, heap);
        }
        if let Some(current) = heap.objects.get_own_property(global_object, &key) {
            if current.configurable {
                return Err(
                    JsError::Type(TypeError::with_message("the property is already defined")),
                );
            } else {
                return Err(JsError::Type(cannot_redefine()));
            }
        }
        match heap.objects.define_property_or_throw(global_object, key, descriptor) {
            Ok(_) => Ok(()),
            Err(error) => Err(JsError::Type(error)),
        }
    }

    /// Register a class `C` in this realm.
    pub fn register_class<C: Class, E: Engine>(
        &self,
        spec: StandardConstructor,
        heap: &mut Heap<E>,
    )
        requires
            old(heap)@.contains(*self),
        ensures
            final(heap)@ == old(heap)@.with_realm(
                *self,
                old(heap)@.realm(*self).with_class(class::class_key::<C>(), spec),
            ),
            old(heap)@.evolves_to(final(heap)@),
    {
        fx_insert(&mut heap.realms[self.index].host_classes, type_id_of::<C>(), spec);
    }

    /// Unregister a class `C` in this realm.
    #[must_use]
    pub fn unregister_class<C: Class, E: Engine>(&self, heap: &mut Heap<E>) -> (result: Option<
        StandardConstructor,
    >)
        requires
            old(heap)@.contains(*self),
        ensures
            result == old(heap)@.realm(*self).class(class::class_key::<C>()),
            final(heap)@ == old(heap)@.with_realm(
                *self,
                old(heap)@.realm(*self).without_class(class::class_key::<C>()),
            ),
            old(heap)@.evolves_to(final(heap)@),
    {
        fx_remove(&mut heap.realms[self.index].host_classes, &type_id_of::<C>())
    }

    /// Gets the address of this realm, which is not zero and tells it from other realms.
    pub fn addr(&self) -> (result: u128)
        ensures
            result == self.address(),
    {
        self.heap as u128 * 0x1_0000_0000_0000_0000 + self.index as u128 + 1
    }
}

} // verus!
