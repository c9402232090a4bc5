use js_realm::engine::{Context as EngineContext, Engine, HostHooks};
use js_realm::error::{JsError, JsResult};
use js_realm::object::{
    Attribute, JsObject, JsValue, Objects, PropertyContent, PropertyDescriptor, PropertyKey,
};
use js_realm::realm::{Heap, Realm};
use js_realm::string::JsString;

#[derive(Clone, Copy, Debug, PartialEq)]
enum Primitive {
    Undefined,
    Boolean(bool),
    Integer(i32),
}

type Value = JsValue<Primitive>;

struct TestEngine;

impl Engine for TestEngine {
    type Primitive = Primitive;
    type RootShape = ();
    type Intrinsics = ();
    type HostDefined = ();

    fn uninit(_: &()) -> Option<()> {
        Some(())
    }

    fn initialize(_: Realm, _: &(), objects: Objects<Primitive>) -> Objects<Primitive> {
        objects
    }
}

const GLOBAL_OBJECT: JsObject = JsObject { addr: 1 };

struct DefaultHooks;

impl HostHooks<TestEngine> for DefaultHooks {
    fn create_global_object(
        &self,
        _: &(),
        objects: Objects<Primitive>,
    ) -> (JsObject, Objects<Primitive>) {
        (GLOBAL_OBJECT, objects)
    }

    fn create_global_this(
        &self,
        _: &(),
        objects: Objects<Primitive>,
    ) -> (Option<JsObject>, Objects<Primitive>) {
        (None, objects)
    }
}

/// A context in which there are no exotic objects.
struct Plain;

impl EngineContext<TestEngine> for Plain {
    fn define_own_property(
        &self,
        _: JsObject,
        _: PropertyKey,
        _: PropertyDescriptor<Primitive>,
        _: Heap<TestEngine>,
    ) -> (JsResult<bool, Primitive>, Heap<TestEngine>) {
        panic!("no object is exotic")
    }
}

/// A context in which exotic objects answer alike, after code has run and left a template.
struct Exotic {
    answer: JsResult<bool, Primitive>,
}

impl EngineContext<TestEngine> for Exotic {
    fn define_own_property(
        &self,
        object: JsObject,
        key: PropertyKey,
        descriptor: PropertyDescriptor<Primitive>,
        mut heap: Heap<TestEngine>,
    ) -> (JsResult<bool, Primitive>, Heap<TestEngine>) {
        if self.answer == Ok(true) {
            heap.objects_mut()
                .define_property_or_throw(object, key, descriptor)
                .unwrap();
        }
        let mut first = Heap::new(0);
        let realm = Realm::create(&DefaultHooks, &(), &mut first).unwrap();
        realm.push_template(5, JsObject { addr: 55 }, &mut heap);
        (self.answer.clone(), heap)
    }
}

fn message(error: JsError<Primitive>) -> String {
    match error {
        JsError::Type(error) => error.message,
        JsError::Thrown(value) => panic!("{value:?} was thrown"),
    }
}

const HIDDEN: Attribute = Attribute {
    writable: true,
    enumerable: false,
    configurable: true,
};

const ALL: Attribute = Attribute {
    writable: true,
    enumerable: true,
    configurable: true,
};

fn key(text: &str) -> PropertyKey {
    PropertyKey::String(JsString::from_text(text))
}

/// One realm, with the default global bindings and a way to run a few scripts in it.
struct Context {
    heap: Heap<TestEngine>,
    realm: Realm,
    next: u64,
}

impl Context {
    fn bare() -> Self {
        let mut heap = Heap::new(0);
        let realm = Realm::create(&DefaultHooks, &(), &mut heap).unwrap();
        Context {
            heap,
            realm,
            next: 100,
        }
    }

    fn new() -> Self {
        let mut context = Context::bare();
        let global_this = context.realm.global_this(&context.heap);
        context
            .realm
            .register_property(
                JsString::from_text("globalThis"),
                global_this,
                HIDDEN,
                &Plain,
                &mut context.heap,
            )
            .unwrap();
        context
    }

    fn marked_object(&mut self) -> JsObject {
        let object = JsObject { addr: self.next };
        self.next += 1;
        self.heap
            .objects_mut()
            .define_property_or_throw(
                object,
                key("marker"),
                PropertyDescriptor::data(JsValue::Primitive(Primitive::Integer(42)), ALL),
            )
            .expect("marker");
        object
    }

    fn get(&self, object: JsObject, name: &str) -> Value {
        match self.heap.objects().get_own_property(object, &key(name)) {
            Some(PropertyDescriptor {
                content: PropertyContent::Data { value, .. },
                ..
            }) => *value,
            _ => JsValue::Primitive(Primitive::Undefined),
        }
    }

    fn marker(&self, value: Value) -> Value {
        match value {
            JsValue::Object(object) => self.get(object, "marker"),
            JsValue::Primitive(_) => JsValue::Primitive(Primitive::Undefined),
        }
    }

    /// Runs a script. `globalThis` reads the property of the global object, every other way
    /// to name the global `this` reads the realm.
    fn eval(&mut self, source: &str) -> Value {
        self.realm.fix_global_this(&mut self.heap);
        let this = JsValue::Object(self.realm.global_this(&self.heap));
        let global_object = self.realm.global_object(&self.heap);
        let global_this = self.get(global_object, "globalThis");
        match source {
            "globalThis" => global_this,
            "this" | "(function () { return this; })()" | "(0, eval)('this')" => this,
            "globalThis === this                  && (function () { return this; })() === globalThis                  && globalThis.marker === 42" => {
                JsValue::Primitive(Primitive::Boolean(
                    global_this == this
                        && this == global_this
                        && self.marker(global_this)
                            == JsValue::Primitive(Primitive::Integer(42)),
                ))
            }
            "globalThis === this && globalThis.marker" => {
                if global_this == this {
                    self.marker(global_this)
                } else {
                    JsValue::Primitive(Primitive::Boolean(false))
                }
            }
            "var ran = 1;" => {
                self.realm
                    .register_property_value(
                        key("ran"),
                        JsValue::Primitive(Primitive::Integer(1)),
                        ALL,
                        &Plain,
                        &mut self.heap,
                    )
                    .expect("evaluation threw");
                JsValue::Primitive(Primitive::Undefined)
            }
            _ => panic!("unknown script"),
        }
    }
}

/// Within its window, `finish_global_this_initialization` reaches every way
/// a script can name the global `this`: the `globalThis` binding, the
/// `this` of global code, and the global environment record's this binding
/// (which a sloppy-mode call substitutes for `undefined`).
#[test]
fn finished_global_this_is_what_every_lookup_resolves_to() {
    let mut context = Context::new();
    let replacement = context.marked_object();
    let realm = context.realm.clone();
    realm
        .finish_global_this_initialization(replacement, &Plain, &mut context.heap)
        .expect("the window is open on a fresh context");

    let expected = JsValue::from(replacement);
    for source in [
        "globalThis",
        "this",
        "(function () { return this; })()",
        "(0, eval)('this')",
    ] {
        let observed = context.eval(source);
        assert_eq!(observed, expected, "`{source}`");
    }

    // Coherent, not merely equal: all three agree, and the global object is
    // still the one `var` writes to and the proxy would forward to.
    let coherent = context.eval(
        "globalThis === this                  && (function () { return this; })() === globalThis                  && globalThis.marker === 42",
    );
    assert_eq!(coherent, JsValue::Primitive(Primitive::Boolean(true)));
    assert_eq!(context.realm.global_object(&context.heap), GLOBAL_OBJECT);
}

/// The window closes once code has run in the realm, and closes for good
/// after a successful call. Both refusals leave the realm untouched.
#[test]
fn finishing_global_this_is_refused_outside_its_window() {
    let mut context = Context::new();
    context.eval("var ran = 1;");
    let replacement = context.marked_object();
    let realm = context.realm.clone();
    let error = realm
        .finish_global_this_initialization(replacement, &Plain, &mut context.heap)
        .expect_err("a script has already run in this realm");
    let error = message(error);
    assert!(
        error.contains("already fixed"),
        "unexpected error: {error}"
    );
    let unchanged = context.eval("globalThis === this && globalThis.marker");
    assert_eq!(unchanged, JsValue::Primitive(Primitive::Undefined));

    // And a second call, even with nothing having run in between.
    let mut context = Context::new();
    let first = context.marked_object();
    let second = context.marked_object();
    let realm = context.realm.clone();
    realm
        .finish_global_this_initialization(first, &Plain, &mut context.heap)
        .expect("the first call is the initialization");
    realm
        .finish_global_this_initialization(second, &Plain, &mut context.heap)
        .expect_err("the initialization only happens once");
    assert_eq!(context.eval("this"), JsValue::from(first));
    assert_eq!(context.eval("globalThis"), JsValue::from(first));
}

#[test]
fn finishing_defines_a_hidden_property_where_there_was_none() {
    let mut context = Context::bare();
    let this = context.marked_object();
    context
        .realm
        .finish_global_this_initialization(this, &Plain, &mut context.heap)
        .unwrap();
    let property = context
        .heap
        .objects()
        .get_own_property(GLOBAL_OBJECT, &key("globalThis"));
    assert_eq!(
        property,
        Some(&PropertyDescriptor {
            content: PropertyContent::Data {
                value: JsValue::Object(this),
                writable: true,
            },
            enumerable: false,
            configurable: true,
        })
    );
}

#[test]
fn an_unconfigurable_global_this_property_fails_the_initialization_but_fixes_the_realm() {
    let mut context = Context::bare();
    let realm = context.realm;
    let attribute = Attribute {
        configurable: false,
        ..ALL
    };
    realm
        .register_property(
            JsString::from_text("globalThis"),
            GLOBAL_OBJECT,
            attribute,
            &Plain,
            &mut context.heap,
        )
        .unwrap();
    let this = context.marked_object();
    let error = realm
        .finish_global_this_initialization(this, &Plain, &mut context.heap)
        .unwrap_err();
    assert_eq!(message(error), "cannot redefine property");
    assert_eq!(realm.global_this(&context.heap), this);
    assert_eq!(
        context.get(GLOBAL_OBJECT, "globalThis"),
        JsValue::Object(GLOBAL_OBJECT)
    );
    let error = realm
        .finish_global_this_initialization(this, &Plain, &mut context.heap)
        .unwrap_err();
    assert_eq!(
        message(error),
        "the global `this` value of this realm is already fixed: it can be initialized only \
         once, and only before any code runs in the realm"
    );
}

#[test]
fn an_inextensible_global_object_fails_the_initialization() {
    let mut context = Context::bare();
    context.heap.objects_mut().prevent_extensions(GLOBAL_OBJECT);
    let this = context.marked_object();
    let error = context
        .realm
        .finish_global_this_initialization(this, &Plain, &mut context.heap)
        .unwrap_err();
    assert_eq!(message(error), "cannot redefine property");
    assert_eq!(context.realm.global_this(&context.heap), this);
    assert_eq!(
        context
            .heap
            .objects()
            .get_own_property(GLOBAL_OBJECT, &key("globalThis")),
        None
    );
}

#[test]
fn an_accessor_global_this_property_is_replaced() {
    let mut context = Context::bare();
    let getter = JsObject { addr: 50 };
    context
        .heap
        .objects_mut()
        .define_property_or_throw(
            GLOBAL_OBJECT,
            key("globalThis"),
            PropertyDescriptor {
                content: PropertyContent::Accessor {
                    get: Some(getter),
                    set: None,
                },
                enumerable: true,
                configurable: true,
            },
        )
        .unwrap();
    let this = context.marked_object();
    context
        .realm
        .finish_global_this_initialization(this, &Plain, &mut context.heap)
        .unwrap();
    assert_eq!(
        context.get(GLOBAL_OBJECT, "globalThis"),
        JsValue::Object(this)
    );
}

#[test]
fn beginning_the_initialization_leaves_the_property_to_the_host() {
    let mut context = Context::new();
    let this = context.marked_object();
    let realm = context.realm;
    let descriptor = realm
        .begin_global_this_initialization(this, &mut context.heap)
        .unwrap();
    assert_eq!(
        descriptor,
        PropertyDescriptor::data(JsValue::Object(this), HIDDEN)
    );
    assert_eq!(realm.global_this(&context.heap), this);
    assert_eq!(
        context.get(GLOBAL_OBJECT, "globalThis"),
        JsValue::Object(GLOBAL_OBJECT)
    );
    let error = realm
        .begin_global_this_initialization(GLOBAL_OBJECT, &mut context.heap)
        .unwrap_err();
    assert!(error.message.contains("already fixed"));
    assert_eq!(realm.global_this(&context.heap), this);
}

#[test]
fn the_initialization_keeps_other_properties_and_realms() {
    let mut context = Context::new();
    let realm = context.realm;
    let other = Realm::create(&DefaultHooks, &(), &mut context.heap).unwrap();
    realm
        .register_property_value(
            key("kept"),
            JsValue::Primitive(Primitive::Integer(7)),
            ALL,
            &Plain,
            &mut context.heap,
        )
        .unwrap();
    let this = context.marked_object();
    realm
        .finish_global_this_initialization(this, &Plain, &mut context.heap)
        .unwrap();
    assert_eq!(
        context.get(GLOBAL_OBJECT, "kept"),
        JsValue::Primitive(Primitive::Integer(7))
    );
    assert_eq!(
        context.get(this, "marker"),
        JsValue::Primitive(Primitive::Integer(42))
    );
    assert_eq!(other.global_this(&context.heap), GLOBAL_OBJECT);
    let that = context.marked_object();
    other
        .finish_global_this_initialization(that, &Plain, &mut context.heap)
        .expect("the other window is still open");
}

#[test]
fn a_clone_is_the_same_realm() {
    let mut context = Context::new();
    let clone = context.realm.clone();
    assert!(clone == context.realm);
    assert_eq!(clone.addr(), context.realm.addr());
    let this = context.marked_object();
    clone
        .finish_global_this_initialization(this, &Plain, &mut context.heap)
        .unwrap();
    assert_eq!(context.realm.global_this(&context.heap), this);
    let other = Realm::create(&DefaultHooks, &(), &mut context.heap).unwrap();
    assert!(other != context.realm);
    assert_ne!(other.addr(), context.realm.addr());
}

#[test]
fn an_exotic_global_object_decides_the_initialization() {
    for answer in [
        Ok(true),
        Ok(false),
        Err(JsError::Thrown(JsValue::Primitive(Primitive::Integer(3)))),
    ] {
        let mut context = Context::bare();
        let realm = context.realm;
        context.heap.objects_mut().make_exotic(GLOBAL_OBJECT);
        assert!(context.heap.objects().is_exotic(GLOBAL_OBJECT));
        let this = context.marked_object();
        let exotic = Exotic {
            answer: answer.clone(),
        };
        let result = realm.finish_global_this_initialization(this, &exotic, &mut context.heap);
        match answer {
            Ok(true) => assert_eq!(result, Ok(())),
            Ok(false) => assert_eq!(
                message(result.unwrap_err()),
                "cannot redefine property"
            ),
            Err(thrown) => assert_eq!(result, Err(thrown)),
        }
        assert_eq!(realm.global_this(&context.heap), this);
        assert_eq!(
            realm.lookup_template(5, &context.heap),
            Some(JsObject { addr: 55 })
        );
        let error = realm
            .finish_global_this_initialization(GLOBAL_OBJECT, &exotic, &mut context.heap)
            .unwrap_err();
        assert!(message(error).contains("already fixed"));
        assert_eq!(realm.global_this(&context.heap), this);
    }
}

#[test]
fn an_exotic_global_object_decides_a_registration() {
    let mut context = Context::bare();
    let realm = context.realm;
    context.heap.objects_mut().make_exotic(GLOBAL_OBJECT);
    let value = JsValue::Primitive(Primitive::Integer(8));
    let refusing = Exotic { answer: Ok(false) };
    let error = realm
        .register_property_value(key("a"), value, ALL, &refusing, &mut context.heap)
        .unwrap_err();
    assert_eq!(message(error), "cannot redefine property");
    let thrown = JsError::Thrown(JsValue::Object(JsObject { addr: 77 }));
    let throwing = Exotic {
        answer: Err(thrown.clone()),
    };
    let result = realm.register_property_value(key("a"), value, ALL, &throwing, &mut context.heap);
    assert_eq!(result, Err(thrown));
    let accepting = Exotic { answer: Ok(true) };
    realm
        .register_property(
            JsString::from_text("a"),
            value,
            ALL,
            &accepting,
            &mut context.heap,
        )
        .unwrap();
    assert_eq!(context.get(GLOBAL_OBJECT, "a"), value);
}

#[test]
fn an_answer_to_a_definition_is_a_result() {
    assert_eq!(Realm::defined_or_throw::<Primitive>(Ok(true)), Ok(()));
    let refused = Realm::defined_or_throw::<Primitive>(Ok(false)).unwrap_err();
    assert_eq!(message(refused), "cannot redefine property");
    let thrown = JsError::Thrown(JsValue::Primitive(Primitive::Undefined));
    assert_eq!(
        Realm::defined_or_throw(Err(thrown.clone())),
        Err(thrown)
    );
}
