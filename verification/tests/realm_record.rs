use js_realm::class::{same_class, Class, StandardConstructor};
use js_realm::engine::{Context, Engine, HostHooks};
use js_realm::environment::Scope;
use js_realm::error::{JsError, JsResult};
use js_realm::object::{
    Attribute, JsObject, JsValue, Objects, PropertyContent, PropertyDescriptor, PropertyKey,
};
use js_realm::realm::{Heap, Module, Realm};
use js_realm::string::JsString;

struct TestEngine;

/// An engine whose intrinsics are one object; filled in, it has the property `done`, with
/// the address of its realm.
impl Engine for TestEngine {
    type Primitive = i32;
    type RootShape = Option<u64>;
    type Intrinsics = JsObject;
    type HostDefined = u64;

    fn uninit(root_shape: &Option<u64>) -> Option<JsObject> {
        root_shape.map(|addr| JsObject { addr })
    }

    fn initialize(realm: Realm, intrinsics: &JsObject, mut objects: Objects<i32>) -> Objects<i32> {
        objects
            .define_property_or_throw(
                *intrinsics,
                key("done"),
                PropertyDescriptor::data(JsValue::Primitive(realm.addr() as i32), ALL),
            )
            .unwrap();
        objects
    }
}

/// Hooks that make the global object right behind the intrinsics, with the property `made`,
/// and then give it the property `this`.
struct Hooks {
    global_this: Option<JsObject>,
}

fn with_property(mut objects: Objects<i32>, addr: u64, name: &str) -> Objects<i32> {
    objects
        .define_property_or_throw(
            JsObject { addr },
            key(name),
            PropertyDescriptor::data(JsValue::Primitive(0), ALL),
        )
        .unwrap();
    objects
}

impl HostHooks<TestEngine> for Hooks {
    fn create_global_object(
        &self,
        intrinsics: &JsObject,
        objects: Objects<i32>,
    ) -> (JsObject, Objects<i32>) {
        let addr = intrinsics.addr + 1;
        (JsObject { addr }, with_property(objects, addr, "made"))
    }

    fn create_global_this(
        &self,
        intrinsics: &JsObject,
        objects: Objects<i32>,
    ) -> (Option<JsObject>, Objects<i32>) {
        (
            self.global_this,
            with_property(objects, intrinsics.addr + 1, "this"),
        )
    }
}

/// A context in which there are no exotic objects.
struct Plain;

impl Context<TestEngine> for Plain {
    fn define_own_property(
        &self,
        _: JsObject,
        _: PropertyKey,
        _: PropertyDescriptor<i32>,
        _: Heap<TestEngine>,
    ) -> (JsResult<bool, i32>, Heap<TestEngine>) {
        panic!("no object is exotic")
    }
}

fn message(error: JsError<i32>) -> String {
    match error {
        JsError::Type(error) => error.message,
        JsError::Thrown(value) => panic!("{value:?} was thrown"),
    }
}

const ALL: Attribute = Attribute {
    writable: true,
    enumerable: true,
    configurable: true,
};

fn key(text: &str) -> PropertyKey {
    PropertyKey::String(JsString::from_text(text))
}

fn heap_with_realm() -> (Heap<TestEngine>, Realm) {
    let mut heap = Heap::new(0);
    let realm = Realm::create(&Hooks { global_this: None }, &Some(10), &mut heap).unwrap();
    (heap, realm)
}

struct Counter;

impl Class for Counter {}

struct Animal;

impl Class for Animal {}

fn constructor(addr: u64) -> StandardConstructor {
    StandardConstructor {
        constructor: JsObject { addr },
        prototype: JsObject { addr: addr + 1 },
    }
}

#[test]
fn a_realm_is_created_with_what_the_hooks_make() {
    let mut heap: Heap<TestEngine> = Heap::new(0);
    let this = JsObject { addr: 99 };
    let hooks = Hooks {
        global_this: Some(this),
    };
    let realm = Realm::create(&hooks, &Some(10), &mut heap).unwrap();
    assert!(heap.contains(realm));
    assert_eq!(*realm.intrinsics(&heap), JsObject { addr: 10 });
    assert_eq!(realm.global_object(&heap), JsObject { addr: 11 });
    assert_eq!(realm.global_this(&heap), this);
    assert_eq!(*realm.host_defined(&heap), 0);
    assert_eq!(*realm.scope(&heap), Scope { num_bindings: 0 });
    assert!(realm.environment(&heap).bindings.is_empty());
    assert!(realm.loaded_modules(&heap).is_empty());
    assert_eq!(realm.lookup_template(0, &heap), None);
    assert!(!realm.has_class::<Counter, _>(&heap));
    let done = heap
        .objects()
        .get_own_property(JsObject { addr: 10 }, &key("done"));
    assert_eq!(
        done,
        Some(&PropertyDescriptor::data(JsValue::Primitive(1), ALL))
    );
    for name in ["made", "this"] {
        assert!(heap
            .objects()
            .get_own_property(JsObject { addr: 11 }, &key(name))
            .is_some());
    }
}

#[test]
fn the_global_object_is_the_global_this_by_default() {
    let (heap, realm) = heap_with_realm();
    assert_eq!(realm.global_this(&heap), realm.global_object(&heap));
}

#[test]
fn without_intrinsics_there_is_no_realm() {
    let (mut heap, realm) = heap_with_realm();
    let error = Realm::create(&Hooks { global_this: None }, &None, &mut heap)
        .err()
        .unwrap();
    assert_eq!(error.message, "failed to create the realm intrinsics");
    assert!(heap.contains(realm));
    let next = Realm::create_with(
        &Hooks { global_this: None },
        Some(JsObject { addr: 20 }),
        &mut heap,
    )
    .unwrap();
    assert_eq!(next.addr(), realm.addr() + 1);
    let error = Realm::create_with(&Hooks { global_this: None }, None, &mut heap)
        .err()
        .unwrap();
    assert_eq!(error.message, "failed to create the realm intrinsics");
}

#[test]
fn a_new_realm_leaves_the_others_alone() {
    let (mut heap, realm) = heap_with_realm();
    realm.push_template(3, JsObject { addr: 33 }, &mut heap);
    let other = Realm::allocate(
        JsObject { addr: 40 },
        JsObject { addr: 41 },
        None,
        5,
        &mut heap,
    );
    assert!(realm != other);
    assert_eq!(
        realm.lookup_template(3, &heap),
        Some(JsObject { addr: 33 })
    );
    assert_eq!(other.lookup_template(3, &heap), None);
    assert_eq!(*other.host_defined(&heap), 5);
    assert_eq!(other.global_this(&heap), JsObject { addr: 41 });
}

#[test]
fn a_registered_class_is_found_until_it_is_unregistered() {
    let (mut heap, realm) = heap_with_realm();
    assert_eq!(realm.get_class::<Counter, _>(&heap), None);
    realm.register_class::<Counter, _>(constructor(50), &mut heap);
    assert!(realm.has_class::<Counter, _>(&heap));
    assert_eq!(
        realm.get_class::<Counter, _>(&heap),
        Some(constructor(50))
    );
    realm.register_class::<Counter, _>(constructor(60), &mut heap);
    assert_eq!(
        realm.get_class::<Counter, _>(&heap),
        Some(constructor(60))
    );
    assert_eq!(
        realm.unregister_class::<Counter, _>(&mut heap),
        Some(constructor(60))
    );
    assert!(!realm.has_class::<Counter, _>(&heap));
    assert_eq!(realm.unregister_class::<Counter, _>(&mut heap), None);
}

#[test]
fn classes_do_not_touch_one_another() {
    let (mut heap, realm) = heap_with_realm();
    let other = Realm::create(&Hooks { global_this: None }, &Some(20), &mut heap).unwrap();
    realm.register_class::<Counter, _>(constructor(50), &mut heap);
    realm.register_class::<Animal, _>(constructor(60), &mut heap);
    assert!(!other.has_class::<Counter, _>(&heap));
    assert_eq!(
        realm.unregister_class::<Counter, _>(&mut heap),
        Some(constructor(50))
    );
    assert_eq!(
        realm.get_class::<Animal, _>(&heap),
        Some(constructor(60))
    );
}

#[test]
fn the_last_template_of_a_site_counts() {
    let (mut heap, realm) = heap_with_realm();
    realm.push_template(u64::MAX, JsObject { addr: 70 }, &mut heap);
    realm.push_template(0, JsObject { addr: 71 }, &mut heap);
    realm.push_template(u64::MAX, JsObject { addr: 72 }, &mut heap);
    assert_eq!(
        realm.lookup_template(u64::MAX, &heap),
        Some(JsObject { addr: 72 })
    );
    assert_eq!(
        realm.lookup_template(0, &heap),
        Some(JsObject { addr: 71 })
    );
    assert_eq!(realm.lookup_template(1, &heap), None);
}

#[test]
fn the_global_environment_grows_with_the_scope() {
    let (mut heap, realm) = heap_with_realm();
    realm.resize_global_env(&mut heap);
    assert_eq!(realm.environment(&heap).bindings, vec![]);
    realm.scope_mut(&mut heap).num_bindings = 2;
    realm.resize_global_env(&mut heap);
    assert_eq!(realm.environment(&heap).bindings, vec![None, None]);
    realm.environment_mut(&mut heap).bindings[1] = Some(JsValue::Primitive(9));
    realm.scope_mut(&mut heap).num_bindings = 3;
    realm.resize_global_env(&mut heap);
    realm.resize_global_env(&mut heap);
    assert_eq!(
        realm.environment(&heap).bindings,
        vec![None, Some(JsValue::Primitive(9)), None]
    );
}

#[test]
fn the_global_environment_never_shrinks() {
    let (mut heap, realm) = heap_with_realm();
    realm.scope_mut(&mut heap).num_bindings = 3;
    realm.resize_global_env(&mut heap);
    realm.scope_mut(&mut heap).num_bindings = 1;
    realm.resize_global_env(&mut heap);
    assert_eq!(realm.environment(&heap).bindings.len(), 3);
}

#[test]
fn a_property_registers_once() {
    let (mut heap, realm) = heap_with_realm();
    let attribute = Attribute {
        enumerable: false,
        ..ALL
    };
    let value = JsObject { addr: 80 };
    realm
        .register_property(JsString::from_text("probe"), value, attribute, &Plain, &mut heap)
        .unwrap();
    let error = realm
        .register_property(
            JsString::from_text("probe"),
            JsObject { addr: 81 },
            ALL,
            &Plain, &mut heap,
        )
        .unwrap_err();
    assert_eq!(message(error), "the property is already defined");
    let property = heap
        .objects()
        .get_own_property(realm.global_object(&heap), &key("probe"));
    assert_eq!(
        property,
        Some(&PropertyDescriptor {
            content: PropertyContent::Data {
                value: JsValue::Object(value),
                writable: true,
            },
            enumerable: false,
            configurable: true,
        })
    );
}

#[test]
fn an_unconfigurable_property_gives_the_error_of_the_definition() {
    let (mut heap, realm) = heap_with_realm();
    let attribute = Attribute {
        configurable: false,
        ..ALL
    };
    realm
        .register_property_value(key("fixed"), JsValue::Primitive(1), attribute, &Plain, &mut heap)
        .unwrap();
    let error = realm
        .register_property_value(key("fixed"), JsValue::Primitive(2), ALL, &Plain, &mut heap)
        .unwrap_err();
    let defined = heap.objects_mut().define_property_or_throw(
        JsObject { addr: 11 },
        key("fixed"),
        PropertyDescriptor::data(JsValue::Primitive(2), ALL),
    );
    assert_eq!(defined.map_err(JsError::Type), Err(error));
    assert_eq!(
        heap.objects()
            .get_own_property(JsObject { addr: 11 }, &key("fixed")),
        Some(&PropertyDescriptor::data(JsValue::Primitive(1), attribute))
    );
}

#[test]
fn a_configurable_property_can_be_made_unconfigurable() {
    let mut objects: Objects<i32> = Objects::new();
    let object = JsObject { addr: 1 };
    let sealed = Attribute {
        configurable: false,
        ..ALL
    };
    objects
        .define_property_or_throw(
            object,
            key("a"),
            PropertyDescriptor::data(JsValue::Primitive(1), ALL),
        )
        .unwrap();
    let descriptor = PropertyDescriptor::data(JsValue::Primitive(2), sealed);
    objects
        .define_property_or_throw(object, key("a"), descriptor)
        .unwrap();
    assert_eq!(
        objects.get_own_property(object, &key("a")),
        Some(&descriptor)
    );
}

#[test]
fn addresses_are_not_zero_and_tell_realms_apart() {
    let (mut heap, realm) = heap_with_realm();
    let second = Realm::create(&Hooks { global_this: None }, &Some(20), &mut heap).unwrap();
    assert_eq!(realm.addr(), 1);
    assert_eq!(second.addr(), 2);
    let mut other_heap: Heap<TestEngine> = Heap::new(1);
    let other = Realm::create(&Hooks { global_this: None }, &Some(10), &mut other_heap).unwrap();
    assert!(other != realm);
    assert_eq!(other.addr(), (1 << 64) + 1);
    assert!(!heap.contains(other));
    assert!(!other_heap.contains(realm));
}

#[test]
fn classes_are_told_apart_by_their_types() {
    assert!(same_class::<Counter, Counter>());
    assert!(!same_class::<Counter, Animal>());
}

#[test]
fn keys_and_realms_register_independently() {
    let (mut heap, realm) = heap_with_realm();
    let other = Realm::create(&Hooks { global_this: None }, &Some(20), &mut heap).unwrap();
    let value: JsValue<i32> = JsValue::Primitive(5);
    realm
        .register_property(PropertyKey::Symbol(1), value, ALL, &Plain, &mut heap)
        .unwrap();
    realm
        .register_property(PropertyKey::Symbol(2), value, ALL, &Plain, &mut heap)
        .unwrap();
    realm
        .register_property_value(key("a"), value, ALL, &Plain, &mut heap)
        .unwrap();
    realm
        .register_property_value(key("b"), value, ALL, &Plain, &mut heap)
        .unwrap();
    other
        .register_property_value(key("a"), value, ALL, &Plain, &mut heap)
        .unwrap();
    let error = other
        .register_property_value(key("a"), value, ALL, &Plain, &mut heap)
        .unwrap_err();
    assert_eq!(message(error), "the property is already defined");
}

#[test]
fn an_inextensible_global_object_takes_no_property() {
    let (mut heap, realm) = heap_with_realm();
    let global_object = realm.global_object(&heap);
    realm
        .register_property_value(key("early"), JsValue::Primitive(1), ALL, &Plain, &mut heap)
        .unwrap();
    heap.objects_mut().prevent_extensions(global_object);
    let error = realm
        .register_property_value(key("late"), JsValue::Primitive(2), ALL, &Plain, &mut heap)
        .unwrap_err();
    assert_eq!(message(error), "cannot redefine property");
    assert!(heap
        .objects()
        .get_own_property(global_object, &key("early"))
        .is_some());
    assert!(heap
        .objects()
        .get_own_property(global_object, &key("late"))
        .is_none());
}

#[test]
fn the_window_stays_open_until_code_runs() {
    let (mut heap, realm) = heap_with_realm();
    let original = realm.global_this(&heap);
    realm.register_class::<Counter, _>(constructor(50), &mut heap);
    let _ = realm.unregister_class::<Counter, _>(&mut heap);
    realm.push_template(1, JsObject { addr: 70 }, &mut heap);
    realm.scope_mut(&mut heap).num_bindings = 4;
    realm.resize_global_env(&mut heap);
    realm
        .register_property_value(key("a"), JsValue::Primitive(1), ALL, &Plain, &mut heap)
        .unwrap();
    *realm.host_defined_mut(&mut heap) = 1;
    assert_eq!(realm.global_this(&heap), original);
    let this = JsObject { addr: 95 };
    realm
        .finish_global_this_initialization(this, &Plain, &mut heap)
        .unwrap();
    realm.fix_global_this(&mut heap);
    assert_eq!(realm.global_this(&heap), this);
    assert_ne!(realm.global_object(&heap), this);
}

#[test]
fn host_defined_data_and_modules_belong_to_one_realm() {
    let (mut heap, realm) = heap_with_realm();
    let other = Realm::create(&Hooks { global_this: None }, &Some(20), &mut heap).unwrap();
    *realm.host_defined_mut(&mut heap) = 17;
    assert_eq!(*realm.host_defined(&heap), 17);
    assert_eq!(*other.host_defined(&heap), 0);
    let name = JsString::from_text("./module.js");
    realm
        .loaded_modules_mut(&mut heap)
        .insert(name.clone(), Module { addr: 90 });
    assert_eq!(
        realm.loaded_modules(&heap).get(&name),
        Some(&Module { addr: 90 })
    );
    assert!(other.loaded_modules(&heap).is_empty());
}

#[test]
fn strings_are_utf16() {
    let string = JsString::from_text("a\u{20AC}\u{10437}");
    assert_eq!(string.units, vec![0x61, 0x20AC, 0xD801, 0xDC37]);
    assert!(string.same(&JsString::from_text("a\u{20AC}\u{10437}")));
    assert!(!string.same(&JsString::from_text("a\u{20AC}")));
    assert!(!key("1").same(&PropertyKey::Symbol(1)));
}
