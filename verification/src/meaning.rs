//! What each operation does, said of a call of it: how what comes out, and what the call
//! leaves behind, relates to what went in.
//!
//! A call of `f` on `arguments` that returned `result` is written
//! `call_ensures(f, arguments, result)`.

use std::any::TypeId;

use vstd::prelude::*;

use crate::class::{self, Class, StandardConstructor};
use crate::engine::{Context, Engine, HostHooks};
use crate::environment::{GlobalEnvironment, Scope};
use crate::error::{JsError, JsResult, TypeError};
use crate::object::{
    Attribute, JsObject, JsValue, Objects, PropertyContent, PropertyDescriptor, PropertyKey,
    PropertyKeyView,
};
use crate::realm::{Heap, Module, Realm};
use crate::state::{self, RealmState};
use crate::string::{self, JsString};

verus! {

// Strings and keys.
/// A character of the basic plane is one code unit, the character's own number. Any other is
/// a surrogate pair, which holds the number less `0x1_0000`, the upper ten bits first.
pub proof fn law_character_units(c: char)
    ensures
        (c as int) < 0x1_0000 ==> string::char_units(c).len() == 1 && string::char_units(c)[0]
            as int == c as int,
        (c as int) >= 0x1_0000 ==> {
            let units = string::char_units(c);
            &&& units.len() == 2
            &&& 0xD800 <= units[0] < 0xDC00
            &&& 0xDC00 <= units[1] < 0xE000
            &&& (units[0] - 0xD800) * 0x400 + (units[1] - 0xDC00) + 0x1_0000 == c as int
        },
        string::char_units(c).len() == 1 ==> !(0xD800 <= string::char_units(c)[0] < 0xE000),
{
}

/// The code units of two texts, one after the other, are those of the joined text.
pub proof fn law_text_units_join(a: Seq<char>, b: Seq<char>)
    ensures
        string::text_units(a + b) == string::text_units(a) + string::text_units(b),
    decreases b.len(),
{
    if b.len() == 0 {
        assert(a + b =~= a);
    } else {
        law_text_units_join(a, b.drop_last());
        assert((a + b).drop_last() =~= a + b.drop_last());
        assert((a + b).last() == b.last());
    }
    assert(string::text_units(a + b) =~= string::text_units(a) + string::text_units(b));
}

/// The code units of a text of one character are those of the character.
pub proof fn law_text_units_of_one(c: char)
    ensures
        string::text_units(seq![c]) == string::char_units(c),
{
    reveal_with_fuel(string::text_units, 2);
    assert(seq![c].drop_last() =~= Seq::<char>::empty());
    assert(string::text_units(seq![c]) =~= string::char_units(c));
}

/// A text of characters of the basic plane has a code unit for each, the character's own
/// number.
pub proof fn law_plain_text_units(text: Seq<char>)
    requires
        forall|i: int| 0 <= i < text.len() ==> (#[trigger] text[i]) as int <= 0xFFFF,
    ensures
        string::text_units(text).len() == text.len(),
        forall|i: int|
            0 <= i < text.len() ==> #[trigger] string::text_units(text)[i] as int == text[i] as int,
    decreases text.len(),
{
    if text.len() > 0 {
        law_plain_text_units(text.drop_last());
        law_character_units(text.last());
        let before = string::text_units(text.drop_last());
        assert(string::text_units(text) =~= before + string::char_units(text.last()));
        assert forall|i: int| 0 <= i < text.len() implies #[trigger] string::text_units(text)[i]
            as int == text[i] as int by {
            if i < text.len() - 1 {
                assert(string::text_units(text)[i] == before[i]);
                assert(text.drop_last()[i] == text[i]);
            }
        }
    }
}

/// Different texts have different code units.
pub proof fn law_text_units_are_injective(a: Seq<char>, b: Seq<char>)
    requires
        string::text_units(a) == string::text_units(b),
    ensures
        a == b,
    decreases a.len(),
{
    if a.len() == 0 || b.len() == 0 {
        if a.len() > 0 {
            law_character_units(a.last());
            assert(string::text_units(a).len() > 0);
            assert(string::text_units(b).len() == 0);
        }
        if b.len() > 0 {
            law_character_units(b.last());
            assert(string::text_units(b).len() > 0);
            assert(string::text_units(a).len() == 0);
        }
        assert(a =~= b);
    } else {
        let units = string::text_units(a);
        let (x, y) = (a.last(), b.last());
        let (p, q) = (string::text_units(a.drop_last()), string::text_units(b.drop_last()));
        law_character_units(x);
        law_character_units(y);
        assert(units =~= p + string::char_units(x));
        assert(units =~= q + string::char_units(y));
        assert(units.last() == string::char_units(x).last());
        assert(units.last() == string::char_units(y).last());
        assert(string::char_units(x).len() == string::char_units(y).len());
        assert(p =~= units.take(units.len() - string::char_units(x).len()));
        assert(q =~= units.take(units.len() - string::char_units(x).len()));
        assert(string::char_units(x) =~= units.skip(p.len() as int));
        assert(string::char_units(y) =~= units.skip(p.len() as int));
        assert(x == y);
        law_text_units_are_injective(a.drop_last(), b.drop_last());
        assert(a =~= a.drop_last().push(x));
        assert(b =~= b.drop_last().push(y));
    }
}

/// A string made of a text of characters of the basic plane has their numbers for its code
/// units.
pub proof fn law_from_text(text: &str, made: JsString)
    requires
        call_ensures(JsString::from_text, (text,), made),
        forall|i: int| 0 <= i < text@.len() ==> (#[trigger] text@[i]) as int <= 0xFFFF,
    ensures
        made.units@.len() == text@.len(),
        forall|i: int|
            0 <= i < text@.len() ==> #[trigger] made.units@[i] as int == text@[i] as int,
{
    law_plain_text_units(text@);
}

/// Strings made of different texts have different code units.
pub proof fn law_from_text_is_injective(a: &str, b: &str, of_a: JsString, of_b: JsString)
    requires
        call_ensures(JsString::from_text, (a,), of_a),
        call_ensures(JsString::from_text, (b,), of_b),
        of_a.units@ == of_b.units@,
    ensures
        a@ == b@,
{
    law_text_units_are_injective(a@, b@);
}

/// Two strings are told the same exactly if their code units are.
pub proof fn law_same_string(a: JsString, b: JsString, same: bool)
    requires
        call_ensures(JsString::same, (&a, &b), same),
    ensures
        same <==> a.units@ == b.units@,
{
}

/// A key stands for its string's code units or for its symbol's number, and for no more and
/// no less.
pub proof fn law_key_view(a: PropertyKey, b: PropertyKey)
    ensures
        a matches PropertyKey::String(text) ==> a@ == PropertyKeyView::String(text.units@),
        a matches PropertyKey::Symbol(symbol) ==> a@ == PropertyKeyView::Symbol(symbol),
        a@ == b@ <==> match (a, b) {
            (PropertyKey::String(x), PropertyKey::String(y)) => x.units@ == y.units@,
            (PropertyKey::Symbol(x), PropertyKey::Symbol(y)) => x == y,
            _ => false,
        },
{
}

/// Two keys are told the same exactly if they are strings of the same code units, or the
/// same symbol.
pub proof fn law_same_key(a: PropertyKey, b: PropertyKey, same: bool)
    requires
        call_ensures(PropertyKey::same, (&a, &b), same),
    ensures
        same <==> match (a, b) {
            (PropertyKey::String(x), PropertyKey::String(y)) => x.units@ == y.units@,
            (PropertyKey::Symbol(x), PropertyKey::Symbol(y)) => x == y,
            _ => false,
        },
{
}

/// The key of the `globalThis` property is that very name, capital included.
pub proof fn law_global_this_key()
    ensures
        state::global_this_key() == PropertyKeyView::String(
            seq![
                0x67u16,
                0x6cu16,
                0x6fu16,
                0x62u16,
                0x61u16,
                0x6cu16,
                0x54u16,
                0x68u16,
                0x69u16,
                0x73u16,
            ],
        ),
{
    reveal_strlit("globalThis");
    law_plain_text_units("globalThis"@);
    assert(string::text_units("globalThis"@) =~= seq![
        0x67u16,
        0x6cu16,
        0x6fu16,
        0x62u16,
        0x61u16,
        0x6cu16,
        0x54u16,
        0x68u16,
        0x69u16,
        0x73u16,
    ]);
}

/// A string that is turned into a key is that key's string.
pub proof fn law_string_into_key(text: JsString, key: PropertyKey)
    requires
        call_ensures(<JsString as Into<PropertyKey>>::into, (text,), key),
    ensures
        key == PropertyKey::String(text),
{
}

/// An object that is turned into a value is that value.
pub proof fn law_object_into_value<P>(object: JsObject, value: JsValue<P>)
    requires
        call_ensures(<JsObject as Into<JsValue<P>>>::into, (object,), value),
    ensures
        value == JsValue::<P>::Object(object),
{
}

// Properties.
/// The descriptor of a data property holds the value and each of the attributes asked for.
pub proof fn law_data_descriptor<P>(
    value: JsValue<P>,
    attribute: Attribute,
    made: PropertyDescriptor<P>,
)
    requires
        call_ensures(PropertyDescriptor::<P>::data, (value, attribute), made),
    ensures
        made.content matches PropertyContent::Data { value: held, writable } && held == value
            && writable == attribute.writable,
        made.enumerable == attribute.enumerable,
        made.configurable == attribute.configurable,
{
}

/// In a new memory every object is ordinary, extensible and without properties.
pub proof fn law_new_objects<P>(made: Objects<P>, object: JsObject, key: PropertyKeyView)
    requires
        call_ensures(Objects::<P>::new, (), made),
    ensures
        !made@[object].properties.dom().contains(key),
        made@[object].extensible,
        !made@[object].exotic,
{
}

/// An own property is found exactly if the object has one under the key, and is that one.
pub proof fn law_get_own_property<P>(
    objects: Objects<P>,
    object: JsObject,
    key: PropertyKey,
    found: Option<&PropertyDescriptor<P>>,
)
    requires
        call_ensures(Objects::<P>::get_own_property, (&objects, object, &key), found),
    ensures
        found is Some <==> objects@[object].properties.dom().contains(key@),
        found matches Some(property) ==> *property == objects@[object].properties[key@],
{
}

/// A definition succeeds exactly if there is a configurable property under the key, or none
/// and the object is extensible. The property is then as described; no other property, no
/// other object and neither flag of the object changes. A definition that fails changes
/// nothing.
pub proof fn law_define_property_or_throw<P>(
    objects: &mut Objects<P>,
    object: JsObject,
    key: PropertyKey,
    descriptor: PropertyDescriptor<P>,
    result: Result<(), TypeError>,
    other_key: PropertyKeyView,
    other: JsObject,
)
    requires
        call_ensures(
            Objects::<P>::define_property_or_throw,
            (objects, object, key, descriptor),
            result,
        ),
    ensures
        result is Ok <==> if old(objects)@[object].properties.dom().contains(key@) {
            old(objects)@[object].properties[key@].configurable
        } else {
            old(objects)@[object].extensible
        },
        result is Ok ==> {
            let (before, after) = (old(objects)@[object], final(objects)@[object]);
            &&& after.properties.dom().contains(key@)
            &&& after.properties[key@] == descriptor
            &&& other_key != key@ ==> after.properties.dom().contains(other_key)
                == before.properties.dom().contains(other_key) && after.properties[other_key]
                == before.properties[other_key]
            &&& after.extensible == before.extensible
            &&& after.exotic == before.exotic
            &&& other != object ==> final(objects)@[other] == old(objects)@[other]
        },
        result matches Err(error) ==> final(objects)@ == old(objects)@ && error.message@
            == "cannot redefine property"@,
{
}

/// To prevent extensions clears the object's flag and changes nothing else.
pub proof fn law_prevent_extensions<P>(objects: &mut Objects<P>, object: JsObject, other: JsObject)
    requires
        call_ensures(Objects::<P>::prevent_extensions, (objects, object), ()),
    ensures
        !final(objects)@[object].extensible,
        final(objects)@[object].properties == old(objects)@[object].properties,
        final(objects)@[object].exotic == old(objects)@[object].exotic,
        other != object ==> final(objects)@[other] == old(objects)@[other],
{
}

/// To make an object exotic sets the object's flag and changes nothing else.
pub proof fn law_make_exotic<P>(objects: &mut Objects<P>, object: JsObject, other: JsObject)
    requires
        call_ensures(Objects::<P>::make_exotic, (objects, object), ()),
    ensures
        final(objects)@[object].exotic,
        final(objects)@[object].properties == old(objects)@[object].properties,
        final(objects)@[object].extensible == old(objects)@[object].extensible,
        other != object ==> final(objects)@[other] == old(objects)@[other],
{
}

/// An object is told exotic exactly if it is.
pub proof fn law_is_exotic<P>(objects: Objects<P>, object: JsObject, told: bool)
    requires
        call_ensures(Objects::<P>::is_exotic, (&objects, object), told),
    ensures
        told <==> objects@[object].exotic,
{
}

// The global environment.
/// An environment stands for its bindings, and a new one has none.
pub proof fn law_new_environment<P>(made: GlobalEnvironment<P>)
    requires
        call_ensures(GlobalEnvironment::<P>::global, (), made),
    ensures
        made.bindings@.len() == 0,
{
}

/// To grow an environment to fewer slots than it has changes nothing. Else it has as many as
/// asked for, each as it was or, if new, uninitialized.
pub proof fn law_grow<P>(environment: &mut GlobalEnvironment<P>, len: usize)
    requires
        call_ensures(GlobalEnvironment::<P>::grow, (environment, len), ()),
    ensures
        len <= old(environment).bindings@.len() ==> final(environment).bindings@
            == old(environment).bindings@,
        len > old(environment).bindings@.len() ==> {
            &&& final(environment).bindings@.len() == len
            &&& forall|i: int|
                0 <= i < len ==> #[trigger] final(environment).bindings@[i] == if i < old(
                    environment,
                ).bindings@.len() {
                    old(environment).bindings@[i]
                } else {
                    None
                }
        },
{
}

// Heaps.
/// A new heap has the number asked for, no realms, and only ordinary, extensible objects
/// without properties.
pub proof fn law_new_heap<E: Engine>(
    number: u32,
    made: Heap<E>,
    object: JsObject,
    key: PropertyKeyView,
)
    requires
        call_ensures(Heap::<E>::new, (number,), made),
    ensures
        made@.number == number,
        made@.realms.len() == 0,
        !made@.objects[object].properties.dom().contains(key),
        made@.objects[object].extensible,
        !made@.objects[object].exotic,
{
}

/// A realm is one of a heap exactly if it carries the heap's number and a position that is
/// taken.
pub proof fn law_heap_contains<E: Engine>(heap: Heap<E>, realm: Realm, told: bool)
    requires
        call_ensures(Heap::<E>::contains, (&heap, realm), told),
    ensures
        told <==> realm.heap_number() == heap@.number && realm.id() < heap@.realms.len(),
{
}

/// The objects that a heap gives out are its own, and the realms are not changed through
/// them.
pub proof fn law_heap_objects<E: Engine>(
    heap: &mut Heap<E>,
    given: &mut Objects<E::Primitive>,
    other: Heap<E>,
    read: &Objects<E::Primitive>,
)
    requires
        call_ensures(Heap::<E>::objects_mut, (heap,), given),
        call_ensures(Heap::<E>::objects, (&other,), read),
    ensures
        old(given)@ == old(heap)@.objects,
        final(heap)@.objects == final(given)@,
        final(heap)@.realms == old(heap)@.realms,
        final(heap)@.number == old(heap)@.number,
        read@ == other@.objects,
{
}

// Realms: creation.
/// A realm is added behind those there are, with the heap's number, and they stay as they
/// are, as do the objects. It has what it is given; its global `this` is the one given or
/// else the global object, and not fixed; all else is empty.
pub proof fn law_allocate<E: Engine>(
    intrinsics: E::Intrinsics,
    global_object: JsObject,
    global_this: Option<JsObject>,
    host_defined: E::HostDefined,
    heap: &mut Heap<E>,
    realm: Realm,
)
    requires
        call_ensures(
            Realm::allocate::<E>,
            (intrinsics, global_object, global_this, host_defined, heap),
            realm,
        ),
    ensures
        realm.heap_number() == old(heap)@.number,
        realm.id() == old(heap)@.realms.len(),
        final(heap)@.number == old(heap)@.number,
        final(heap)@.objects == old(heap)@.objects,
        final(heap)@.realms.len() == old(heap)@.realms.len() + 1,
        forall|i: int|
            0 <= i < old(heap)@.realms.len() ==> #[trigger] final(heap)@.realms[i] == old(
                heap,
            )@.realms[i],
        ({
            let made = final(heap)@.realms[realm.id() as int];
            &&& made.intrinsics == intrinsics
            &&& made.global_object == global_object
            &&& made.host_defined == host_defined
            &&& global_this matches Some(this) ==> made.global_this == this
            &&& global_this is None ==> made.global_this == global_object
            &&& !made.global_this_fixed
            &&& made.bindings.len() == 0
            &&& made.scope.num_bindings == 0
            &&& made.templates.dom() == Set::<u64>::empty()
            &&& made.modules.dom() == Set::<JsString>::empty()
            &&& made.classes.dom() == Set::<TypeId>::empty()
        }),
{
}

/// Without intrinsics the creation of a realm fails and changes nothing. With them it
/// succeeds, whatever the heap held before: the hooks are asked for the global object and
/// then for the global `this`, the engine initializes the new realm with the objects that
/// the latter handed back, and the heap has those that the engine handed back. The realms
/// there were stay as they are.
pub proof fn law_create_with<H: HostHooks<E>, E: Engine>(
    hooks: &H,
    intrinsics: Option<E::Intrinsics>,
    heap: &mut Heap<E>,
    result: Result<Realm, TypeError>,
)
    requires
        call_ensures(Realm::create_with::<H, E>, (hooks, intrinsics, heap), result),
    ensures
        result is Ok <==> intrinsics is Some,
        result matches Err(error) ==> final(heap)@ == old(heap)@ && error.message@
            == "failed to create the realm intrinsics"@,
        result matches Ok(realm) ==> {
            let made = final(heap)@.realms[realm.id() as int];
            &&& realm.heap_number() == old(heap)@.number
            &&& realm.id() == old(heap)@.realms.len()
            &&& final(heap)@.number == old(heap)@.number
            &&& final(heap)@.realms.len() == old(heap)@.realms.len() + 1
            &&& forall|i: int|
                0 <= i < old(heap)@.realms.len() ==> #[trigger] final(heap)@.realms[i] == old(
                    heap,
                )@.realms[i]
            &&& made.intrinsics == intrinsics->0
            &&& !made.global_this_fixed
            &&& made.bindings.len() == 0
            &&& made.scope.num_bindings == 0
            &&& made.templates.dom() == Set::<u64>::empty()
            &&& made.modules.dom() == Set::<JsString>::empty()
            &&& made.classes.dom() == Set::<TypeId>::empty()
            &&& call_ensures(E::HostDefined::default, (), made.host_defined)
            &&& exists|
                global_object: JsObject,
                given: Objects<E::Primitive>,
                with_object: Objects<E::Primitive>,
                this: Option<JsObject>,
                with_this: Objects<E::Primitive>,
                left: Objects<E::Primitive>,
            |
                {
                    &&& made.global_object == global_object
                    &&& given@ == old(heap)@.objects
                    &&& #[trigger] call_ensures(
                        H::create_global_object,
                        (hooks, &intrinsics->0, given),
                        (global_object, with_object),
                    )
                    &&& #[trigger] call_ensures(
                        H::create_global_this,
                        (hooks, &intrinsics->0, with_object),
                        (this, with_this),
                    )
                    &&& this matches Some(this) ==> made.global_this == this
                    &&& this is None ==> made.global_this == global_object
                    &&& #[trigger] call_ensures(
                        E::initialize,
                        (realm, &intrinsics->0, with_this),
                        left,
                    )
                    &&& final(heap)@.objects == left@
                }
        },
{
}

/// The creation of a realm succeeds exactly if the engine made intrinsics of the root shape.
/// The new realm has these, is initialized with them, and the realms there were stay as they
/// are. A creation that fails changes nothing.
pub proof fn law_create<H: HostHooks<E>, E: Engine>(
    hooks: &H,
    root_shape: &E::RootShape,
    heap: &mut Heap<E>,
    result: Result<Realm, TypeError>,
)
    requires
        call_ensures(Realm::create::<H, E>, (hooks, root_shape, heap), result),
    ensures
        result matches Err(error) ==> {
            &&& call_ensures(E::uninit, (root_shape,), None)
            &&& final(heap)@ == old(heap)@
            &&& error.message@ == "failed to create the realm intrinsics"@
        },
        result matches Ok(realm) ==> {
            let made = final(heap)@.realms[realm.id() as int];
            &&& call_ensures(E::uninit, (root_shape,), Some(made.intrinsics))
            &&& realm.heap_number() == old(heap)@.number
            &&& realm.id() == old(heap)@.realms.len()
            &&& final(heap)@.number == old(heap)@.number
            &&& final(heap)@.realms.len() == old(heap)@.realms.len() + 1
            &&& forall|i: int|
                0 <= i < old(heap)@.realms.len() ==> #[trigger] final(heap)@.realms[i] == old(
                    heap,
                )@.realms[i]
            &&& !made.global_this_fixed
            &&& made.bindings.len() == 0
            &&& made.scope.num_bindings == 0
            &&& made.templates.dom() == Set::<u64>::empty()
            &&& made.modules.dom() == Set::<JsString>::empty()
            &&& made.classes.dom() == Set::<TypeId>::empty()
            &&& call_ensures(E::HostDefined::default, (), made.host_defined)
            &&& exists|
                intrinsics: E::Intrinsics,
                global_object: JsObject,
                given: Objects<E::Primitive>,
                with_object: Objects<E::Primitive>,
                this: Option<JsObject>,
                with_this: Objects<E::Primitive>,
                left: Objects<E::Primitive>,
            |
                {
                    &&& made.intrinsics == intrinsics
                    &&& made.global_object == global_object
                    &&& given@ == old(heap)@.objects
                    &&& #[trigger] call_ensures(
                        H::create_global_object,
                        (hooks, &intrinsics, given),
                        (global_object, with_object),
                    )
                    &&& #[trigger] call_ensures(
                        H::create_global_this,
                        (hooks, &intrinsics, with_object),
                        (this, with_this),
                    )
                    &&& this matches Some(this) ==> made.global_this == this
                    &&& this is None ==> made.global_this == global_object
                    &&& #[trigger] call_ensures(
                        E::initialize,
                        (realm, &intrinsics, with_this),
                        left,
                    )
                    &&& final(heap)@.objects == left@
                }
        },
{
}

// Realms: what they give out.
/// What a realm is asked for is what it holds.
pub proof fn law_reads<E: Engine>(
    realm: Realm,
    heap: Heap<E>,
    intrinsics: &E::Intrinsics,
    host_defined: &E::HostDefined,
    environment: &GlobalEnvironment<E::Primitive>,
    scope: &Scope,
    global_object: JsObject,
    global_this: JsObject,
    num_bindings: u32,
)
    requires
        call_ensures(Realm::intrinsics::<E>, (&realm, &heap), intrinsics),
        call_ensures(Realm::host_defined::<E>, (&realm, &heap), host_defined),
        call_ensures(Realm::environment::<E>, (&realm, &heap), environment),
        call_ensures(Realm::scope::<E>, (&realm, &heap), scope),
        call_ensures(Realm::global_object::<E>, (&realm, &heap), global_object),
        call_ensures(Realm::global_this::<E>, (&realm, &heap), global_this),
        call_ensures(Scope::num_bindings, (scope,), num_bindings),
    ensures
        ({
            let held = heap@.realms[realm.id() as int];
            &&& *intrinsics == held.intrinsics
            &&& *host_defined == held.host_defined
            &&& environment.bindings@ == held.bindings
            &&& *scope == held.scope
            &&& global_object == held.global_object
            &&& global_this == held.global_this
            &&& num_bindings == held.scope.num_bindings
        }),
{
}

/// The modules that a realm gives out are those that it holds.
pub proof fn law_loaded_modules<E: Engine>(
    realm: Realm,
    heap: Heap<E>,
    modules: &rustc_hash::FxHashMap<JsString, Module>,
)
    requires
        call_ensures(Realm::loaded_modules::<E>, (&realm, &heap), modules),
    ensures
        modules@ == heap@.realms[realm.id() as int].modules,
{
}

/// What is changed through `host_defined_mut` is the host's data of that realm and nothing
/// else.
pub proof fn law_host_defined_mut<E: Engine>(
    realm: Realm,
    heap: &mut Heap<E>,
    given: &mut E::HostDefined,
)
    requires
        realm.id() < old(heap)@.realms.len(),
        call_ensures(Realm::host_defined_mut::<E>, (&realm, heap), given),
    ensures
        *old(given) == old(heap)@.realms[realm.id() as int].host_defined,
        final(heap)@.number == old(heap)@.number,
        final(heap)@.objects == old(heap)@.objects,
        final(heap)@.realms == old(heap)@.realms.update(
            realm.id() as int,
            RealmState {
                host_defined: *final(given),
                ..old(heap)@.realms[realm.id() as int]
            },
        ),
{
}

/// What is changed through `environment_mut` is the bindings of that realm and nothing else.
pub proof fn law_environment_mut<E: Engine>(
    realm: Realm,
    heap: &mut Heap<E>,
    given: &mut GlobalEnvironment<E::Primitive>,
)
    requires
        realm.id() < old(heap)@.realms.len(),
        call_ensures(Realm::environment_mut::<E>, (&realm, heap), given),
    ensures
        old(given).bindings@ == old(heap)@.realms[realm.id() as int].bindings,
        final(heap)@.number == old(heap)@.number,
        final(heap)@.objects == old(heap)@.objects,
        final(heap)@.realms == old(heap)@.realms.update(
            realm.id() as int,
            RealmState {
                bindings: final(given).bindings@,
                ..old(heap)@.realms[realm.id() as int]
            },
        ),
{
}

/// What is changed through `scope_mut` is the scope of that realm and nothing else.
pub proof fn law_scope_mut<E: Engine>(realm: Realm, heap: &mut Heap<E>, given: &mut Scope)
    requires
        realm.id() < old(heap)@.realms.len(),
        call_ensures(Realm::scope_mut::<E>, (&realm, heap), given),
    ensures
        *old(given) == old(heap)@.realms[realm.id() as int].scope,
        final(heap)@.number == old(heap)@.number,
        final(heap)@.objects == old(heap)@.objects,
        final(heap)@.realms == old(heap)@.realms.update(
            realm.id() as int,
            RealmState { scope: *final(given), ..old(heap)@.realms[realm.id() as int] },
        ),
{
}

/// What is changed through `loaded_modules_mut` is the modules of that realm and nothing
/// else.
pub proof fn law_loaded_modules_mut<E: Engine>(
    realm: Realm,
    heap: &mut Heap<E>,
    given: &mut rustc_hash::FxHashMap<JsString, Module>,
)
    requires
        realm.id() < old(heap)@.realms.len(),
        call_ensures(Realm::loaded_modules_mut::<E>, (&realm, heap), given),
    ensures
        old(given)@ == old(heap)@.realms[realm.id() as int].modules,
        final(heap)@.number == old(heap)@.number,
        final(heap)@.objects == old(heap)@.objects,
        final(heap)@.realms == old(heap)@.realms.update(
            realm.id() as int,
            RealmState { modules: final(given)@, ..old(heap)@.realms[realm.id() as int] },
        ),
{
}

/// The address of a realm is not zero, and is another realm's exactly if the two are one.
pub proof fn law_addr(a: Realm, b: Realm, of_a: u128, of_b: u128)
    requires
        call_ensures(Realm::addr, (&a,), of_a),
        call_ensures(Realm::addr, (&b,), of_b),
    ensures
        of_a != 0,
        of_a == of_b <==> a == b,
        of_a == of_b <==> a.heap_number() == b.heap_number() && a.id() == b.id(),
{
    Realm::law_identity(a, b);
}

// Realms: the global `this`.
/// That code has run sets the flag of that realm and changes nothing else.
pub proof fn law_fix_global_this<E: Engine>(realm: Realm, heap: &mut Heap<E>)
    requires
        realm.id() < old(heap)@.realms.len(),
        call_ensures(Realm::fix_global_this::<E>, (&realm, heap), ()),
    ensures
        final(heap)@.number == old(heap)@.number,
        final(heap)@.objects == old(heap)@.objects,
        final(heap)@.realms == old(heap)@.realms.update(
            realm.id() as int,
            RealmState { global_this_fixed: true, ..old(heap)@.realms[realm.id() as int] },
        ),
{
}

/// The initialization begins exactly if the global `this` is not fixed. It is then the one
/// given, and fixed, and nothing else changes; the property to define holds it, and is
/// writable and configurable but not enumerable. Else nothing changes.
pub proof fn law_begin_global_this_initialization<E: Engine>(
    realm: Realm,
    global_this: JsObject,
    heap: &mut Heap<E>,
    result: Result<PropertyDescriptor<E::Primitive>, TypeError>,
)
    requires
        realm.id() < old(heap)@.realms.len(),
        call_ensures(
            Realm::begin_global_this_initialization::<E>,
            (&realm, global_this, heap),
            result,
        ),
    ensures
        result is Err <==> old(heap)@.realms[realm.id() as int].global_this_fixed,
        result matches Err(error) ==> final(heap)@ == old(heap)@ && error.message@
            == "the global `this` value of this realm is already fixed: it can be initialized only once, and only before any code runs in the realm"@,
        result matches Ok(property) ==> {
            &&& property.content matches PropertyContent::Data { value, writable } && value
                == JsValue::<E::Primitive>::Object(global_this) && writable
            &&& !property.enumerable
            &&& property.configurable
            &&& final(heap)@.number == old(heap)@.number
            &&& final(heap)@.objects == old(heap)@.objects
            &&& final(heap)@.realms == old(heap)@.realms.update(
                realm.id() as int,
                RealmState {
                    global_this,
                    global_this_fixed: true,
                    ..old(heap)@.realms[realm.id() as int]
                },
            )
        },
{
}

/// A fixed global `this` is not initialized: the call fails with a `TypeError` and changes
/// nothing.
pub proof fn law_finish_is_refused_once_fixed<C: Context<E>, E: Engine>(
    realm: Realm,
    global_this: JsObject,
    context: &C,
    heap: &mut Heap<E>,
    result: JsResult<(), E::Primitive>,
)
    requires
        realm.id() < old(heap)@.realms.len(),
        old(heap)@.realms[realm.id() as int].global_this_fixed,
        call_ensures(
            Realm::finish_global_this_initialization::<C, E>,
            (&realm, global_this, context, heap),
            result,
        ),
    ensures
        result matches Err(JsError::Type(error)) && error.message@
            == "the global `this` value of this realm is already fixed: it can be initialized only once, and only before any code runs in the realm"@,
        final(heap)@ == old(heap)@,
{
}

/// Where the global `this` is not fixed and the global object is ordinary, the former is then
/// the one given, and fixed, and no other field of a realm changes. The call succeeds exactly
/// if the global object has a configurable `globalThis`, or none and is extensible. The
/// property then holds the object given, writable and configurable but not enumerable; no
/// other property or object changes. If the call fails, no object changes.
pub proof fn law_finish<C: Context<E>, E: Engine>(
    realm: Realm,
    global_this: JsObject,
    context: &C,
    heap: &mut Heap<E>,
    result: JsResult<(), E::Primitive>,
    name: PropertyKeyView,
    other_key: PropertyKeyView,
    other: JsObject,
)
    requires
        realm.id() < old(heap)@.realms.len(),
        !old(heap)@.realms[realm.id() as int].global_this_fixed,
        !old(heap)@.objects[old(heap)@.realms[realm.id() as int].global_object].exotic,
        name == PropertyKeyView::String(
            seq![
                0x67u16,
                0x6cu16,
                0x6fu16,
                0x62u16,
                0x61u16,
                0x6cu16,
                0x54u16,
                0x68u16,
                0x69u16,
                0x73u16,
            ],
        ),
        call_ensures(
            Realm::finish_global_this_initialization::<C, E>,
            (&realm, global_this, context, heap),
            result,
        ),
    ensures
        final(heap)@.number == old(heap)@.number,
        final(heap)@.realms == old(heap)@.realms.update(
            realm.id() as int,
            RealmState {
                global_this,
                global_this_fixed: true,
                ..old(heap)@.realms[realm.id() as int]
            },
        ),
        ({
            let global_object = old(heap)@.realms[realm.id() as int].global_object;
            let (before, after) = (
                old(heap)@.objects[global_object],
                final(heap)@.objects[global_object],
            );
            &&& result is Ok <==> if before.properties.dom().contains(name) {
                before.properties[name].configurable
            } else {
                before.extensible
            }
            &&& result is Ok ==> {
                &&& after.properties.dom().contains(name)
                &&& after.properties[name].content matches PropertyContent::Data { value, writable }
                    && value == JsValue::<E::Primitive>::Object(global_this) && writable
                &&& !after.properties[name].enumerable
                &&& after.properties[name].configurable
                &&& other_key != name ==> after.properties.dom().contains(other_key)
                    == before.properties.dom().contains(other_key) && after.properties[other_key]
                    == before.properties[other_key]
                &&& after.extensible == before.extensible
                &&& after.exotic == before.exotic
                &&& other != global_object ==> final(heap)@.objects[other] == old(
                    heap,
                )@.objects[other]
            }
            &&& result matches Err(error) ==> {
                &&& final(heap)@.objects == old(heap)@.objects
                &&& error matches JsError::Type(raised) && raised.message@
                    == "cannot redefine property"@
            }
        }),
{
    law_global_this_key();
}

/// Where the global `this` is not fixed and the global object is exotic, the object is asked
/// to define `globalThis`, with the object given for its value, in a heap in which the
/// latter is the realm's global `this`, fixed. The heap is then as the object left it, and
/// the call succeeds exactly if the object defined the property; what it threw is the error.
pub proof fn law_finish_on_an_exotic_global_object<C: Context<E>, E: Engine>(
    realm: Realm,
    global_this: JsObject,
    context: &C,
    heap: &mut Heap<E>,
    result: JsResult<(), E::Primitive>,
)
    requires
        realm.id() < old(heap)@.realms.len(),
        !old(heap)@.realms[realm.id() as int].global_this_fixed,
        old(heap)@.objects[old(heap)@.realms[realm.id() as int].global_object].exotic,
        call_ensures(
            Realm::finish_global_this_initialization::<C, E>,
            (&realm, global_this, context, heap),
            result,
        ),
    ensures
        exists|
            name: PropertyKey,
            property: PropertyDescriptor<E::Primitive>,
            given: Heap<E>,
            answer: JsResult<bool, E::Primitive>,
            left: Heap<E>,
        |
            {
                &&& name@ == PropertyKeyView::String(
                    seq![
                        0x67u16,
                        0x6cu16,
                        0x6fu16,
                        0x62u16,
                        0x61u16,
                        0x6cu16,
                        0x54u16,
                        0x68u16,
                        0x69u16,
                        0x73u16,
                    ],
                )
                &&& property.content matches PropertyContent::Data { value, writable } && value
                    == JsValue::<E::Primitive>::Object(global_this) && writable
                &&& !property.enumerable
                &&& property.configurable
                &&& given@.number == old(heap)@.number
                &&& given@.objects == old(heap)@.objects
                &&& given@.realms == old(heap)@.realms.update(
                    realm.id() as int,
                    RealmState {
                        global_this,
                        global_this_fixed: true,
                        ..old(heap)@.realms[realm.id() as int]
                    },
                )
                &&& #[trigger] call_ensures(
                    C::define_own_property,
                    (
                        context,
                        old(heap)@.realms[realm.id() as int].global_object,
                        name,
                        property,
                        given,
                    ),
                    (answer, left),
                )
                &&& final(heap)@ == left@
                &&& result is Ok <==> answer == Ok::<bool, JsError<E::Primitive>>(true)
                &&& answer matches Err(thrown) ==> result == Err::<(), _>(thrown)
                &&& answer == Ok::<bool, JsError<E::Primitive>>(false) ==> (result matches Err(
                    JsError::Type(error),
                ) && error.message@ == "cannot redefine property"@)
            },
{
    law_global_this_key();
}

/// An object's answer to a definition becomes a success exactly if it defined the property;
/// what it threw is the error, and a refusal is a `TypeError`.
pub proof fn law_defined_or_throw<P>(answer: JsResult<bool, P>, result: JsResult<(), P>)
    requires
        call_ensures(Realm::defined_or_throw::<P>, (answer,), result),
    ensures
        result is Ok <==> answer == Ok::<bool, JsError<P>>(true),
        answer matches Err(thrown) ==> result == Err::<(), _>(thrown),
        answer == Ok::<bool, JsError<P>>(false) ==> (result matches Err(JsError::Type(error))
            && error.message@ == "cannot redefine property"@),
{
}

// Realms: properties of the global object.
/// On an ordinary global object a registration succeeds exactly if the object has no property
/// under the key and is extensible. The property then holds the value and each attribute
/// asked for; no other property or object changes, and no realm. If it fails, nothing
/// changes, and the error tells a property that could be redefined from what the object
/// itself refuses.
pub proof fn law_register_property_value<C: Context<E>, E: Engine>(
    realm: Realm,
    key: PropertyKey,
    value: JsValue<E::Primitive>,
    attribute: Attribute,
    context: &C,
    heap: &mut Heap<E>,
    result: JsResult<(), E::Primitive>,
    other_key: PropertyKeyView,
    other: JsObject,
)
    requires
        realm.id() < old(heap)@.realms.len(),
        !old(heap)@.objects[old(heap)@.realms[realm.id() as int].global_object].exotic,
        call_ensures(
            Realm::register_property_value::<C, E>,
            (&realm, key, value, attribute, context, heap),
            result,
        ),
    ensures
        final(heap)@.number == old(heap)@.number,
        final(heap)@.realms == old(heap)@.realms,
        ({
            let global_object = old(heap)@.realms[realm.id() as int].global_object;
            let (before, after) = (
                old(heap)@.objects[global_object],
                final(heap)@.objects[global_object],
            );
            &&& result is Ok <==> !before.properties.dom().contains(key@) && before.extensible
            &&& result is Ok ==> {
                &&& after.properties.dom().contains(key@)
                &&& after.properties[key@].content matches PropertyContent::Data {
                    value: held,
                    writable,
                } && held == value && writable == attribute.writable
                &&& after.properties[key@].enumerable == attribute.enumerable
                &&& after.properties[key@].configurable == attribute.configurable
                &&& other_key != key@ ==> after.properties.dom().contains(other_key)
                    == before.properties.dom().contains(other_key) && after.properties[other_key]
                    == before.properties[other_key]
                &&& after.extensible == before.extensible
                &&& after.exotic == before.exotic
                &&& other != global_object ==> final(heap)@.objects[other] == old(
                    heap,
                )@.objects[other]
            }
            &&& result matches Err(error) ==> {
                &&& final(heap)@.objects == old(heap)@.objects
                &&& error matches JsError::Type(raised) && raised.message@
                    == if before.properties.dom().contains(key@)
                    && before.properties[key@].configurable {
                    "the property is already defined"@
                } else {
                    "cannot redefine property"@
                }
            }
        }),
{
}

/// On an exotic global object a registration asks the object itself, for a data property
/// with the value and each attribute asked for. The heap is then as the object left it, and
/// the call succeeds exactly if the object defined the property; what it threw is the error.
pub proof fn law_register_property_value_on_an_exotic_global_object<C: Context<E>, E: Engine>(
    realm: Realm,
    key: PropertyKey,
    value: JsValue<E::Primitive>,
    attribute: Attribute,
    context: &C,
    heap: &mut Heap<E>,
    result: JsResult<(), E::Primitive>,
)
    requires
        realm.id() < old(heap)@.realms.len(),
        old(heap)@.objects[old(heap)@.realms[realm.id() as int].global_object].exotic,
        call_ensures(
            Realm::register_property_value::<C, E>,
            (&realm, key, value, attribute, context, heap),
            result,
        ),
    ensures
        exists|
            name: PropertyKey,
            property: PropertyDescriptor<E::Primitive>,
            given: Heap<E>,
            answer: JsResult<bool, E::Primitive>,
            left: Heap<E>,
        |
            {
                &&& name@ == key@
                &&& property.content matches PropertyContent::Data { value: held, writable } && held
                    == value && writable == attribute.writable
                &&& property.enumerable == attribute.enumerable
                &&& property.configurable == attribute.configurable
                &&& given@ == old(heap)@
                &&& #[trigger] call_ensures(
                    C::define_own_property,
                    (
                        context,
                        old(heap)@.realms[realm.id() as int].global_object,
                        name,
                        property,
                        given,
                    ),
                    (answer, left),
                )
                &&& final(heap)@ == left@
                &&& result is Ok <==> answer == Ok::<bool, JsError<E::Primitive>>(true)
                &&& answer matches Err(thrown) ==> result == Err::<(), _>(thrown)
                &&& answer == Ok::<bool, JsError<E::Primitive>>(false) ==> (result matches Err(
                    JsError::Type(error),
                ) && error.message@ == "cannot redefine property"@)
            },
{
}

/// A registration under a string, of an object, on an ordinary global object succeeds exactly
/// if there is no property of that name and the object is extensible. The property then
/// holds the object and each attribute asked for. If it fails, nothing changes.
pub proof fn law_register_property<C: Context<E>, E: Engine>(
    realm: Realm,
    text: JsString,
    object: JsObject,
    attribute: Attribute,
    context: &C,
    heap: &mut Heap<E>,
    result: JsResult<(), E::Primitive>,
    other_key: PropertyKeyView,
    other: JsObject,
)
    requires
        realm.id() < old(heap)@.realms.len(),
        !old(heap)@.objects[old(heap)@.realms[realm.id() as int].global_object].exotic,
        call_ensures(
            Realm::register_property::<JsString, JsObject, C, E>,
            (&realm, text, object, attribute, context, heap),
            result,
        ),
    ensures
        final(heap)@.number == old(heap)@.number,
        final(heap)@.realms == old(heap)@.realms,
        ({
            let name = PropertyKeyView::String(text.units@);
            let global_object = old(heap)@.realms[realm.id() as int].global_object;
            let (before, after) = (
                old(heap)@.objects[global_object],
                final(heap)@.objects[global_object],
            );
            &&& result is Ok <==> !before.properties.dom().contains(name) && before.extensible
            &&& result is Ok ==> {
                &&& after.properties.dom().contains(name)
                &&& after.properties[name].content matches PropertyContent::Data { value, writable }
                    && value == JsValue::<E::Primitive>::Object(object) && writable
                    == attribute.writable
                &&& after.properties[name].enumerable == attribute.enumerable
                &&& after.properties[name].configurable == attribute.configurable
                &&& other_key != name ==> after.properties.dom().contains(other_key)
                    == before.properties.dom().contains(other_key) && after.properties[other_key]
                    == before.properties[other_key]
                &&& after.extensible == before.extensible
                &&& after.exotic == before.exotic
                &&& other != global_object ==> final(heap)@.objects[other] == old(
                    heap,
                )@.objects[other]
            }
            &&& result is Err ==> final(heap)@.objects == old(heap)@.objects
        }),
{
}

/// Whatever a key and a value are given as, a registration is of the key and the value that
/// they turn into.
pub proof fn law_register_property_converts<K, V, C: Context<E>, E: Engine>(
    realm: Realm,
    key: K,
    value: V,
    attribute: Attribute,
    context: &C,
    heap: &mut Heap<E>,
    result: JsResult<(), E::Primitive>,
) where K: Into<PropertyKey>, V: Into<JsValue<E::Primitive>>
    requires
        realm.id() < old(heap)@.realms.len(),
        !old(heap)@.objects[old(heap)@.realms[realm.id() as int].global_object].exotic,
        call_ensures(
            Realm::register_property::<K, V, C, E>,
            (&realm, key, value, attribute, context, heap),
            result,
        ),
    ensures
        final(heap)@.realms == old(heap)@.realms,
        result is Err ==> final(heap)@.objects == old(heap)@.objects,
        exists|name: PropertyKey, held: JsValue<E::Primitive>|
            {
                let global_object = old(heap)@.realms[realm.id() as int].global_object;
                let before = old(heap)@.objects[global_object];
                let after = final(heap)@.objects[global_object];
                &&& #[trigger] call_ensures(K::into, (key,), name)
                &&& #[trigger] call_ensures(V::into, (value,), held)
                &&& result is Ok <==> !before.properties.dom().contains(name@) && before.extensible
                &&& result is Ok ==> after.properties == before.properties.insert(
                    name@,
                    PropertyDescriptor {
                        content: PropertyContent::Data { value: held, writable: attribute.writable },
                        enumerable: attribute.enumerable,
                        configurable: attribute.configurable,
                    },
                )
            },
{
}

/// What comes of a registration does not depend on the global `this` of the realm, nor on
/// whether that is fixed: in two heaps with the same objects and the same global object it
/// succeeds in both or in neither, and leaves the same objects.
pub proof fn law_registration_ignores_the_global_this<C: Context<E>, E: Engine>(
    realm: Realm,
    key: PropertyKey,
    value: JsValue<E::Primitive>,
    attribute: Attribute,
    context: &C,
    one: &mut Heap<E>,
    two: &mut Heap<E>,
    result_one: JsResult<(), E::Primitive>,
    result_two: JsResult<(), E::Primitive>,
    object: JsObject,
)
    requires
        realm.id() < old(one)@.realms.len(),
        realm.id() < old(two)@.realms.len(),
        old(one)@.objects == old(two)@.objects,
        old(one)@.realms[realm.id() as int].global_object == old(
            two,
        )@.realms[realm.id() as int].global_object,
        !old(one)@.objects[old(one)@.realms[realm.id() as int].global_object].exotic,
        call_ensures(
            Realm::register_property_value::<C, E>,
            (&realm, key, value, attribute, context, one),
            result_one,
        ),
        call_ensures(
            Realm::register_property_value::<C, E>,
            (&realm, key, value, attribute, context, two),
            result_two,
        ),
    ensures
        result_one is Ok <==> result_two is Ok,
        final(one)@.objects[object].properties == final(two)@.objects[object].properties,
        final(one)@.objects[object].extensible == final(two)@.objects[object].extensible,
{
}

// Realms: bindings, templates and classes.
/// To resize the global environment gives it a slot for every binding of the scope, if it has
/// fewer, each as it was or, if new, uninitialized. Nothing else changes.
pub proof fn law_resize_global_env<E: Engine>(realm: Realm, heap: &mut Heap<E>)
    requires
        realm.id() < old(heap)@.realms.len(),
        call_ensures(Realm::resize_global_env::<E>, (&realm, heap), ()),
    ensures
        final(heap)@.number == old(heap)@.number,
        final(heap)@.objects == old(heap)@.objects,
        ({
            let before = old(heap)@.realms[realm.id() as int];
            let after = final(heap)@.realms[realm.id() as int];
            &&& final(heap)@.realms == old(heap)@.realms.update(
                realm.id() as int,
                RealmState { bindings: after.bindings, ..before },
            )
            &&& after.bindings.len() == if before.bindings.len() < before.scope.num_bindings {
                before.scope.num_bindings as nat
            } else {
                before.bindings.len()
            }
            &&& forall|i: int|
                0 <= i < after.bindings.len() ==> #[trigger] after.bindings[i] == if i
                    < before.bindings.len() {
                    before.bindings[i]
                } else {
                    None
                }
        }),
{
}

/// A template is kept for its site; those of other sites stay, and nothing else changes.
pub proof fn law_push_template<E: Engine>(
    realm: Realm,
    site: u64,
    template: JsObject,
    heap: &mut Heap<E>,
    other: u64,
)
    requires
        realm.id() < old(heap)@.realms.len(),
        call_ensures(Realm::push_template::<E>, (&realm, site, template, heap), ()),
    ensures
        final(heap)@.number == old(heap)@.number,
        final(heap)@.objects == old(heap)@.objects,
        ({
            let before = old(heap)@.realms[realm.id() as int];
            let after = final(heap)@.realms[realm.id() as int];
            &&& final(heap)@.realms == old(heap)@.realms.update(
                realm.id() as int,
                RealmState { templates: after.templates, ..before },
            )
            &&& after.templates.dom().contains(site)
            &&& after.templates[site] == template
            &&& other != site ==> after.templates.dom().contains(other)
                == before.templates.dom().contains(other) && after.templates[other]
                == before.templates[other]
        }),
{
}

/// In every state of a realm a lookup gives the template that is kept for the site, and
/// `None` exactly if none is.
pub proof fn law_lookup_template<E: Engine>(
    realm: Realm,
    site: u64,
    heap: Heap<E>,
    found: Option<JsObject>,
)
    requires
        call_ensures(Realm::lookup_template::<E>, (&realm, site, &heap), found),
    ensures
        found is Some <==> heap@.realms[realm.id() as int].templates.dom().contains(site),
        found matches Some(template) ==> template
            == heap@.realms[realm.id() as int].templates[site],
{
}

/// A lookup depends on the templates alone: what runs in a realm, what is done to its global
/// `this`, its bindings, its classes or the objects, leaves the lookup of every site as it
/// was.
pub proof fn law_lookup_depends_on_templates_alone<E: Engine>(
    realm: Realm,
    site: u64,
    before: Heap<E>,
    after: Heap<E>,
    found_before: Option<JsObject>,
    found_after: Option<JsObject>,
)
    requires
        before@.realms[realm.id() as int].templates == after@.realms[realm.id() as int].templates,
        call_ensures(Realm::lookup_template::<E>, (&realm, site, &before), found_before),
        call_ensures(Realm::lookup_template::<E>, (&realm, site, &after), found_after),
    ensures
        found_before == found_after,
{
}

/// A lookup gives what it gave before, for every site, after code has run, the global `this`
/// was initialized, the environment resized, a class registered or unregistered, or a
/// property registered: nothing is found for a site until a template is pushed for it.
pub proof fn law_other_operations_keep_lookups<C: Context<E>, K: Class, E: Engine>(
    realm: Realm,
    heap: &mut Heap<E>,
    object: JsObject,
    constructor: StandardConstructor,
    removed: Option<StandardConstructor>,
    key: PropertyKey,
    value: JsValue<E::Primitive>,
    attribute: Attribute,
    context: &C,
    result: JsResult<(), E::Primitive>,
    site: u64,
    found_before: Option<JsObject>,
    found_after: Option<JsObject>,
)
    requires
        realm.id() < old(heap)@.realms.len(),
        !old(heap)@.objects[old(heap)@.realms[realm.id() as int].global_object].exotic,
        call_ensures(Realm::fix_global_this::<E>, (&realm, heap), ()) || call_ensures(
            Realm::finish_global_this_initialization::<C, E>,
            (&realm, object, context, heap),
            result,
        ) || call_ensures(Realm::resize_global_env::<E>, (&realm, heap), ()) || call_ensures(
            Realm::register_class::<K, E>,
            (&realm, constructor, heap),
            (),
        ) || call_ensures(Realm::unregister_class::<K, E>, (&realm, heap), removed)
            || call_ensures(
            Realm::register_property_value::<C, E>,
            (&realm, key, value, attribute, context, heap),
            result,
        ),
        call_ensures(Realm::lookup_template::<E>, (&realm, site, &*old(heap)), found_before),
        call_ensures(Realm::lookup_template::<E>, (&realm, site, &*final(heap)), found_after),
    ensures
        found_after == found_before,
        found_after is None <==> !old(heap)@.realms[realm.id() as int].templates.dom().contains(
            site,
        ),
{
}

/// Class `C` is kept under the value that `TypeId::of::<C>` returns.
pub proof fn law_class_key<C: Class>(id: TypeId)
    requires
        call_ensures(TypeId::of::<C>, (), id),
    ensures
        call_ensures(TypeId::of::<C>, (), class::class_key::<C>()),
{
}

/// Two classes are told the same exactly if they are kept under one key.
pub proof fn law_same_class<C: Class, D: Class>(told: bool)
    requires
        call_ensures(class::same_class::<C, D>, (), told),
    ensures
        told <==> class::class_key::<C>() == class::class_key::<D>(),
{
}

/// A class is there exactly if the realm keeps one under its key, and is got as it is kept.
pub proof fn law_class_reads<C: Class, E: Engine>(
    realm: Realm,
    heap: Heap<E>,
    has: bool,
    got: Option<StandardConstructor>,
)
    requires
        call_ensures(Realm::has_class::<C, E>, (&realm, &heap), has),
        call_ensures(Realm::get_class::<C, E>, (&realm, &heap), got),
    ensures
        has <==> heap@.realms[realm.id() as int].classes.dom().contains(class::class_key::<C>()),
        has <==> got is Some,
        got matches Some(constructor) ==> constructor
            == heap@.realms[realm.id() as int].classes[class::class_key::<C>()],
{
}

/// A class is kept as it is registered; other classes stay, and nothing else changes.
pub proof fn law_register_class<C: Class, E: Engine>(
    realm: Realm,
    constructor: StandardConstructor,
    heap: &mut Heap<E>,
    other: TypeId,
)
    requires
        realm.id() < old(heap)@.realms.len(),
        call_ensures(Realm::register_class::<C, E>, (&realm, constructor, heap), ()),
    ensures
        final(heap)@.number == old(heap)@.number,
        final(heap)@.objects == old(heap)@.objects,
        ({
            let before = old(heap)@.realms[realm.id() as int];
            let after = final(heap)@.realms[realm.id() as int];
            &&& final(heap)@.realms == old(heap)@.realms.update(
                realm.id() as int,
                RealmState { classes: after.classes, ..before },
            )
            &&& after.classes.dom().contains(class::class_key::<C>())
            &&& after.classes[class::class_key::<C>()] == constructor
            &&& other != class::class_key::<C>() ==> after.classes.dom().contains(other)
                == before.classes.dom().contains(other) && after.classes[other]
                == before.classes[other]
        }),
{
}

/// To unregister a class gives back what was kept for it, if anything, and keeps it no more;
/// other classes stay, and nothing else changes.
pub proof fn law_unregister_class<C: Class, E: Engine>(
    realm: Realm,
    heap: &mut Heap<E>,
    removed: Option<StandardConstructor>,
    other: TypeId,
)
    requires
        realm.id() < old(heap)@.realms.len(),
        call_ensures(Realm::unregister_class::<C, E>, (&realm, heap), removed),
    ensures
        final(heap)@.number == old(heap)@.number,
        final(heap)@.objects == old(heap)@.objects,
        ({
            let before = old(heap)@.realms[realm.id() as int];
            let after = final(heap)@.realms[realm.id() as int];
            &&& final(heap)@.realms == old(heap)@.realms.update(
                realm.id() as int,
                RealmState { classes: after.classes, ..before },
            )
            &&& removed is Some <==> before.classes.dom().contains(class::class_key::<C>())
            &&& removed matches Some(constructor) ==> constructor
                == before.classes[class::class_key::<C>()]
            &&& !after.classes.dom().contains(class::class_key::<C>())
            &&& other != class::class_key::<C>() ==> after.classes.dom().contains(other)
                == before.classes.dom().contains(other) && after.classes[other]
                == before.classes[other]
        }),
{
}

} // verus!
