//! What holds of realms whatever is done with them, and in what order.

use std::any::TypeId;

use vstd::prelude::*;

use crate::class::StandardConstructor;
use crate::engine::{Engine, HostHooks};
use crate::environment::Scope;
use crate::object::{self, Attribute, JsObject, JsValue, ObjectState, Objects, PropertyKeyView};
use crate::realm::{Module, Realm};
use crate::state::{self, HeapState, RealmState};
use crate::string::JsString;

verus! {

/// Every operation lets a heap evolve, as far as no code of an exotic object runs in it; so
/// does every sequence of such operations.
pub proof fn law_evolution_composes<E: Engine>(a: HeapState<E>, b: HeapState<E>, c: HeapState<E>)
    requires
        a.evolves_to(b),
        b.evolves_to(c),
    ensures
        a.evolves_to(c),
{
    assert forall|i: int| 0 <= i < a.realms.len() implies (#[trigger] a.realms[i]).evolves_to(
        c.realms[i],
    ) by {
        assert(a.realms[i].evolves_to(b.realms[i]));
        assert(b.realms[i].evolves_to(c.realms[i]));
    }
}

/// A heap that nothing is done with evolves to itself.
pub proof fn law_evolution_is_reflexive<E: Engine>(a: HeapState<E>)
    ensures
        a.evolves_to(a),
{
}

/// The window in which the global `this` of a realm may be initialized closes for good:
/// once it is fixed, it is the same ever after, and no attempt to initialize it changes
/// anything.
pub proof fn law_window_closes_for_good<E: Engine>(
    before: HeapState<E>,
    after: HeapState<E>,
    realm: Realm,
    global_this: JsObject,
)
    requires
        before.contains(realm),
        before.evolves_to(after),
        !before.window_open(realm),
    ensures
        after.contains(realm),
        !after.window_open(realm),
        after.realm(realm).global_this == before.realm(realm).global_this,
        after.finished(realm, global_this) == after,
{
    assert(before.realms[realm.id() as int].evolves_to(after.realms[realm.id() as int]));
}

/// The global object of a realm, and its intrinsics, are the same ever after.
pub proof fn law_global_object_is_kept<E: Engine>(
    before: HeapState<E>,
    after: HeapState<E>,
    realm: Realm,
)
    requires
        before.contains(realm),
        before.evolves_to(after),
    ensures
        after.contains(realm),
        after.realm(realm).global_object == before.realm(realm).global_object,
        after.realm(realm).intrinsics == before.realm(realm).intrinsics,
{
    assert(before.realms[realm.id() as int].evolves_to(after.realms[realm.id() as int]));
}

/// While the window is open, the global `this` of a realm is the one it was created with.
pub proof fn law_open_window_keeps_the_original<E: Engine>(
    before: HeapState<E>,
    after: HeapState<E>,
    realm: Realm,
)
    requires
        before.contains(realm),
        before.evolves_to(after),
        after.window_open(realm),
    ensures
        before.window_open(realm),
        after.realm(realm).global_this == before.realm(realm).global_this,
{
    assert(before.realms[realm.id() as int].evolves_to(after.realms[realm.id() as int]));
}

/// Code that runs in a realm closes its window, and leaves the global `this` as it is.
pub proof fn law_running_code_closes_the_window<E: Engine>(
    heap: HeapState<E>,
    realm: Realm,
    global_this: JsObject,
)
    requires
        heap.contains(realm),
    ensures
        ({
            let ran = heap.with_realm(realm, heap.realm(realm).fixed());
            &&& !ran.window_open(realm)
            &&& ran.realm(realm).global_this == heap.realm(realm).global_this
            &&& ran.finished(realm, global_this) == ran
        }),
{
}

/// Nothing but running code and the initialization itself closes the window or changes the
/// global `this`: not the operations on bindings, templates, classes and properties, not
/// what is done through the mutable references that a realm and a heap give out, and not
/// the creation of another realm.
pub proof fn law_nothing_else_closes_the_window<E: Engine>(
    heap: HeapState<E>,
    realm: Realm,
    site: u64,
    class: TypeId,
    constructor: StandardConstructor,
    object: JsObject,
    key: PropertyKeyView,
    value: JsValue<E::Primitive>,
    attribute: Attribute,
)
    requires
        heap.contains(realm),
    ensures
        ({
            let state = heap.realm(realm);
            let registered = heap.registered(realm, key, value, attribute);
            &&& state.resized().keeps_global_this_of(state)
            &&& state.with_template(site, object).keeps_global_this_of(state)
            &&& state.with_class(class, constructor).keeps_global_this_of(state)
            &&& state.without_class(class).keeps_global_this_of(state)
            &&& registered.realm(realm).keeps_global_this_of(state)
            &&& forall|host_defined: E::HostDefined|
                #[trigger] (RealmState { host_defined, ..state }).keeps_global_this_of(state)
            &&& forall|scope: Scope|
                #[trigger] (RealmState { scope, ..state }).keeps_global_this_of(state)
            &&& forall|bindings: Seq<Option<JsValue<E::Primitive>>>|
                #[trigger] (RealmState { bindings, ..state }).keeps_global_this_of(state)
            &&& forall|modules: Map<JsString, Module>|
                #[trigger] (RealmState { modules, ..state }).keeps_global_this_of(state)
            &&& forall|objects: Map<JsObject, ObjectState<E::Primitive>>|
                #[trigger] (HeapState { objects, ..heap }).realm(realm).keeps_global_this_of(state)
            &&& forall|created: RealmState<E>|
                #[trigger] (HeapState { realms: heap.realms.push(created), ..heap }).realm(
                    realm,
                ).keeps_global_this_of(state)
        }),
{
}

/// Where the global object is exotic, the global `this` is fixed to the new one before the
/// object is asked to define `globalThis`, and stays so whatever code runs then and whatever
/// the object answers.
pub proof fn law_exotic_global_object_gets_the_new_global_this<E: Engine>(
    heap: HeapState<E>,
    realm: Realm,
    global_this: JsObject,
    left: HeapState<E>,
)
    requires
        heap.contains(realm),
        heap.window_open(realm),
        heap.begun(realm, global_this).evolves_to(left),
    ensures
        heap.evolves_to(left),
        left.contains(realm),
        left.realm(realm).global_this == global_this,
        !left.window_open(realm),
{
    let begun = heap.begun(realm, global_this);
    assert(begun.contains(realm) && !begun.window_open(realm));
    assert(heap.evolves_to(begun));
    law_evolution_composes(heap, begun, left);
    law_window_closes_for_good(begun, left, realm, global_this);
}

/// After a successful initialization, where the global object is an ordinary one, every way
/// to name the global `this` gives the new one: the realm's own field, and the `globalThis` property of the global object.
pub proof fn law_every_lookup_gives_the_new_global_this<E: Engine>(
    heap: HeapState<E>,
    realm: Realm,
    global_this: JsObject,
)
    requires
        heap.contains(realm),
        heap.can_finish(realm),
    ensures
        ({
            let done = heap.finished(realm, global_this);
            &&& done.realm(realm).global_this == global_this
            &&& done.global(realm).has(state::global_this_key())
            &&& done.global(realm).properties[state::global_this_key()].content
                == object::PropertyContent::Data {
                value: JsValue::<E::Primitive>::Object(global_this),
                writable: true,
            }
        }),
{
}

/// Where the global object is an ordinary one, the initialization touches nothing else: the global object stays the same and keeps its
/// other properties, and other objects, other realms and the rest of the realm are as they
/// were.
pub proof fn law_initialization_keeps_the_rest<E: Engine>(
    heap: HeapState<E>,
    realm: Realm,
    global_this: JsObject,
)
    requires
        heap.contains(realm),
    ensures
        ({
            let done = heap.finished(realm, global_this);
            let global_object = heap.realm(realm).global_object;
            &&& done.realm(realm) == (RealmState {
                global_this: done.realm(realm).global_this,
                global_this_fixed: done.realm(realm).global_this_fixed,
                ..heap.realm(realm)
            })
            &&& forall|key: PropertyKeyView|
                key != state::global_this_key() ==> {
                    &&& done.global(realm).has(key) == heap.global(realm).has(key)
                    &&& #[trigger] done.global(realm).properties[key]
                        == heap.global(realm).properties[key]
                }
            &&& forall|other: JsObject|
                other != global_object ==> #[trigger] done.objects[other] == heap.objects[other]
            &&& forall|other: Realm|
                other != realm && heap.contains(other) ==> #[trigger] done.realm(other)
                    == heap.realm(other)
        }),
{
    assert forall|other: Realm| other != realm && heap.contains(other) implies #[trigger] heap.finished(
        realm,
        global_this,
    ).realm(other) == heap.realm(other) by {
        Realm::law_identity(realm, other);
    }
}

/// The initialization happens once: after an attempt, the global object being an ordinary
/// one, and whatever came of it, another one is refused and changes nothing.
pub proof fn law_initialization_happens_once<E: Engine>(
    heap: HeapState<E>,
    realm: Realm,
    first: JsObject,
    second: JsObject,
)
    requires
        heap.contains(realm),
    ensures
        ({
            let done = heap.finished(realm, first);
            &&& !done.can_finish(realm)
            &&& !done.window_open(realm)
            &&& done.finished(realm, second) == done
        }),
{
}

/// What is done to one realm is not seen by another.
pub proof fn law_realms_are_independent<E: Engine>(
    heap: HeapState<E>,
    realm: Realm,
    changed: RealmState<E>,
    other: Realm,
)
    requires
        heap.contains(realm),
        heap.contains(other),
        realm != other,
    ensures
        heap.with_realm(realm, changed).contains(other),
        heap.with_realm(realm, changed).realm(other) == heap.realm(other),
        heap.with_realm(realm, changed).objects == heap.objects,
{
    Realm::law_identity(realm, other);
}

/// What is done to a realm through one reference is seen through every other one.
pub proof fn law_references_share_a_realm<E: Engine>(
    heap: HeapState<E>,
    realm: Realm,
    changed: RealmState<E>,
    other: Realm,
)
    requires
        heap.contains(realm),
        realm == other,
    ensures
        heap.with_realm(realm, changed).realm(other) == changed,
{
}

/// A new realm is none of those there were, and they are as they were. Its window is open,
/// it has no classes, templates, modules or bindings yet, and without a global `this` of
/// its own the global object is it.
pub proof fn law_new_realm<H: HostHooks<E>, E: Engine>(
    hooks: &H,
    intrinsics: E::Intrinsics,
    before: HeapState<E>,
    realm: Realm,
    after: HeapState<E>,
)
    requires
        Realm::create_outcome(hooks, Some(intrinsics), before, Ok(realm), after),
    ensures
        after.contains(realm),
        after.window_open(realm),
        after.realm(realm).intrinsics == intrinsics,
        after.realm(realm).bindings.len() == 0,
        after.realm(realm).modules == Map::<JsString, Module>::empty(),
        forall|key: TypeId| #[trigger] after.realm(realm).class(key) is None,
        forall|site: u64| #[trigger] after.realm(realm).template(site) is None,
        exists|
            given: Objects<E::Primitive>,
            global_this: Option<JsObject>,
            returned: Objects<E::Primitive>,
        |
            {
                &&& #[trigger] call_ensures(
                    H::create_global_this,
                    (hooks, &intrinsics, given),
                    (global_this, returned),
                )
                &&& after.realm(realm).global_this == match global_this {
                    Some(this) => this,
                    None => after.realm(realm).global_object,
                }
            },
        forall|other: Realm| #[trigger]
            before.contains(other) ==> other != realm && after.contains(other) && after.realm(other)
                == before.realm(other),
{
}

/// A class that was registered is found as it was registered.
pub proof fn law_registered_class_is_found<E: Engine>(
    realm: RealmState<E>,
    key: TypeId,
    constructor: StandardConstructor,
)
    ensures
        realm.with_class(key, constructor).class(key) == Some(constructor),
{
}

/// A class that was unregistered is not found.
pub proof fn law_unregistered_class_is_gone<E: Engine>(realm: RealmState<E>, key: TypeId)
    ensures
        realm.without_class(key).class(key) is None,
{
}

/// To register and to unregister a class leaves every other class as it was.
pub proof fn law_classes_are_independent<E: Engine>(
    realm: RealmState<E>,
    key: TypeId,
    constructor: StandardConstructor,
    other: TypeId,
)
    requires
        key != other,
    ensures
        realm.with_class(key, constructor).class(other) == realm.class(other),
        realm.without_class(key).class(other) == realm.class(other),
{
}

/// To unregister a class undoes its registration, where there was none before.
pub proof fn law_unregistration_undoes_registration<E: Engine>(
    realm: RealmState<E>,
    key: TypeId,
    constructor: StandardConstructor,
)
    requires
        realm.class(key) is None,
    ensures
        realm.with_class(key, constructor).without_class(key) == realm,
{
    assert(realm.with_class(key, constructor).without_class(key).classes =~= realm.classes);
}

/// The template that was kept last for a call site is the one found for it, and those of
/// other call sites are as they were.
pub proof fn law_kept_template_is_found<E: Engine>(
    realm: RealmState<E>,
    site: u64,
    template: JsObject,
    other: u64,
)
    ensures
        realm.with_template(site, template).template(site) == Some(template),
        other != site ==> realm.with_template(site, template).template(other) == realm.template(
            other,
        ),
{
}

/// To resize the global environment makes a slot for every binding of the scope, gives up
/// none, keeps what the slots hold, and adds only uninitialized ones.
pub proof fn law_resize_keeps_bindings<E: Engine>(realm: RealmState<E>)
    ensures
        realm.resized().bindings.len() >= realm.scope.num_bindings,
        realm.resized().bindings.len() >= realm.bindings.len(),
        forall|i: int|
            0 <= i < realm.bindings.len() ==> #[trigger] realm.resized().bindings[i]
                == realm.bindings[i],
        forall|i: int|
            realm.bindings.len() <= i < realm.resized().bindings.len()
                ==> #[trigger] realm.resized().bindings[i] is None,
{
}

/// To resize the global environment twice does what once does.
pub proof fn law_resize_is_idempotent<E: Engine>(realm: RealmState<E>)
    ensures
        realm.resized().resized() == realm.resized(),
{
}

/// A property that was registered on an ordinary global object is there, with its value and attributes, and cannot be
/// registered again.
pub proof fn law_property_registers_once<E: Engine>(
    heap: HeapState<E>,
    realm: Realm,
    key: PropertyKeyView,
    value: JsValue<E::Primitive>,
    attribute: Attribute,
    again: JsValue<E::Primitive>,
    again_attribute: Attribute,
)
    requires
        heap.contains(realm),
        heap.can_register(realm, key),
    ensures
        ({
            let registered = heap.registered(realm, key, value, attribute);
            &&& registered.global(realm).has(key)
            &&& registered.global(realm).properties[key] == object::data_property(value, attribute)
            &&& !registered.can_register(realm, key)
            &&& registered.registered(realm, key, again, again_attribute) == registered
        }),
{
}

/// To register a property on an ordinary global object changes no other property and no other object, and no realm.
pub proof fn law_registration_keeps_the_rest<E: Engine>(
    heap: HeapState<E>,
    realm: Realm,
    key: PropertyKeyView,
    value: JsValue<E::Primitive>,
    attribute: Attribute,
)
    requires
        heap.contains(realm),
    ensures
        ({
            let registered = heap.registered(realm, key, value, attribute);
            &&& registered.realms == heap.realms
            &&& forall|other: PropertyKeyView|
                other != key ==> {
                    &&& registered.global(realm).has(other) == heap.global(realm).has(other)
                    &&& #[trigger] registered.global(realm).properties[other]
                        == heap.global(realm).properties[other]
                }
            &&& forall|other: JsObject|
                other != heap.realm(realm).global_object ==> #[trigger] registered.objects[other]
                    == heap.objects[other]
        }),
{
}

} // verus!
