use rustc_hash::FxHashMap;
use vstd::prelude::*;

use crate::error::TypeError;
use crate::fx_map::{fx_get, fx_insert, fx_remove};
use crate::string::JsString;

verus! {

/// A reference to an object, by the address at which the engine keeps it. Two references
/// are equal if and only if they are to the same object.
#[derive(Clone, Copy, Debug, PartialEq, Eq, Structural, Hash)]
pub struct JsObject {
    pub addr: u64,
}

/// A language value: an object or one of the engine's primitive values `P`.
#[derive(Clone, Copy, Debug, PartialEq, Eq)]
pub enum JsValue<P> {
    Primitive(P),
    Object(JsObject),
}

impl<P> From<JsObject> for JsValue<P> {
    fn from(object: JsObject) -> (value: Self) {
        JsValue::Object(object)
    }
}

impl<P> vstd::std_specs::convert::FromSpecImpl<JsObject> for JsValue<P> {
    open spec fn obeys_from_spec() -> bool {
        true
    }

    open spec fn from_spec(object: JsObject) -> Self {
        JsValue::Object(object)
    }
}

/// The key of a property: a string or a symbol, the latter by the engine's number for it.
#[derive(Clone, Debug, PartialEq, Eq, Hash)]
pub enum PropertyKey {
    String(JsString),
    Symbol(u64),
}

/// What a property key stands for.
pub enum PropertyKeyView {
    String(Seq<u16>),
    Symbol(u64),
}

impl View for PropertyKey {
    type V = PropertyKeyView;

    open spec fn view(&self) -> PropertyKeyView {
        match self {
            PropertyKey::String(string) => PropertyKeyView::String(string@),
            PropertyKey::Symbol(symbol) => PropertyKeyView::Symbol(*symbol),
        }
    }
}

impl PropertyKey {
    /// Tells whether two keys name the same property.
    pub fn same(&self, other: &PropertyKey) -> (result: bool)
        ensures
            result == (self@ == other@),
    {
        match (self, other) {
            (PropertyKey::String(a), PropertyKey::String(b)) => a.same(b),
            (PropertyKey::Symbol(a), PropertyKey::Symbol(b)) => *a == *b,
            _ => false,
        }
    }
}

impl From<JsString> for PropertyKey {
    fn from(string: JsString) -> (key: Self) {
        PropertyKey::String(string)
    }
}

impl vstd::std_specs::convert::FromSpecImpl<JsString> for PropertyKey {
    open spec fn obeys_from_spec() -> bool {
        true
    }

    open spec fn from_spec(string: JsString) -> Self {
        PropertyKey::String(string)
    }
}

/// What a property holds: a value, or a pair of accessor functions.
#[derive(Clone, Copy, Debug, PartialEq, Eq)]
pub enum PropertyContent<P> {
    Data { value: JsValue<P>, writable: bool },
    Accessor { get: Option<JsObject>, set: Option<JsObject> },
}

/// A property descriptor in which no field is absent.
#[derive(Clone, Copy, Debug, PartialEq, Eq)]
pub struct PropertyDescriptor<P> {
    pub content: PropertyContent<P>,
    pub enumerable: bool,
    pub configurable: bool,
}

/// The attributes of a data property.
#[derive(Clone, Copy, Debug, PartialEq, Eq, Structural)]
pub struct Attribute {
    pub writable: bool,
    pub enumerable: bool,
    pub configurable: bool,
}

/// The descriptor of a data property with the given value and attributes.
pub open spec fn data_property<P>(value: JsValue<P>, attribute: Attribute) -> PropertyDescriptor<P> {
    PropertyDescriptor {
        content: PropertyContent::Data { value, writable: attribute.writable },
        enumerable: attribute.enumerable,
        configurable: attribute.configurable,
    }
}

impl<P> PropertyDescriptor<P> {
    /// Creates the descriptor of a data property.
    pub fn data(value: JsValue<P>, attribute: Attribute) -> (descriptor: Self)
        ensures
            descriptor == data_property(value, attribute),
    {
        PropertyDescriptor {
            content: PropertyContent::Data { value, writable: attribute.writable },
            enumerable: attribute.enumerable,
            configurable: attribute.configurable,
        }
    }
}

/// The error of a definition that an object does not admit.
pub fn cannot_redefine() -> (error: TypeError)
    ensures
        error.message@ == "cannot redefine property"@,
{
    TypeError::with_message("cannot redefine property")
}

/// The own properties of an object, whether it takes more of them, and whether it is
/// exotic, so that internal methods of its own stand in for the ordinary ones.
#[verifier::ext_equal]
pub struct ObjectState<P> {
    pub properties: Map<PropertyKeyView, PropertyDescriptor<P>>,
    pub extensible: bool,
    pub exotic: bool,
}

impl<P> ObjectState<P> {
    /// An ordinary object on which nothing was defined.
    pub open spec fn plain() -> Self {
        ObjectState { properties: Map::empty(), extensible: true, exotic: false }
    }

    /// Whether the object has an own property under `key`.
    pub open spec fn has(self, key: PropertyKeyView) -> bool {
        self.properties.contains_key(key)
    }

    /// Whether the property under `key` may be defined anew: there is one that is
    /// configurable, or there is none and the object takes more.
    pub open spec fn admits(self, key: PropertyKeyView) -> bool {
        if self.has(key) {
            self.properties[key].configurable
        } else {
            self.extensible
        }
    }

    /// The object with the property under `key` defined as `descriptor`.
    pub open spec fn define(self, key: PropertyKeyView, descriptor: PropertyDescriptor<P>) -> Self {
        ObjectState { properties: self.properties.insert(key, descriptor), ..self }
    }
}

/// The property table of one object. Of several entries under one key the first counts.
#[derive(Debug)]
struct PropertyTable<P> {
    entries: Vec<(PropertyKey, PropertyDescriptor<P>)>,
    extensible: bool,
    exotic: bool,
}

/// Whether `index` is the first of `entries` under `key`.
spec fn is_first<P>(
    entries: Seq<(PropertyKey, PropertyDescriptor<P>)>,
    key: PropertyKeyView,
    index: int,
) -> bool {
    &&& 0 <= index < entries.len()
    &&& entries[index].0@ == key
    &&& forall|j: int| 0 <= j < index ==> (#[trigger] entries[j]).0@ != key
}

impl<P> View for PropertyTable<P> {
    type V = ObjectState<P>;

    closed spec fn view(&self) -> ObjectState<P> {
        ObjectState {
            properties: Map::new(
                |key: PropertyKeyView| exists|i: int| is_first(self.entries@, key, i),
                |key: PropertyKeyView|
                    self.entries@[choose|i: int| is_first(self.entries@, key, i)].1,
            ),
            extensible: self.extensible,
            exotic: self.exotic,
        }
    }
}

impl<P> PropertyTable<P> {
    fn new() -> (table: Self)
        ensures
            table@ == ObjectState::<P>::plain(),
    {
        let table = PropertyTable { entries: Vec::new(), extensible: true, exotic: false };
        assert(table@ =~= ObjectState::<P>::plain());
        table
    }

    fn position(&self, key: &PropertyKey) -> (result: Option<usize>)
        ensures
            match result {
                Some(i) => is_first(self.entries@, key@, i as int),
                None => forall|j: int|
                    0 <= j < self.entries@.len() ==> (#[trigger] self.entries@[j]).0@ != key@,
            },
    {
        let mut i: usize = 0;
        while i < self.entries.len()
            invariant
                i <= self.entries@.len(),
                forall|j: int| 0 <= j < i ==> (#[trigger] self.entries@[j]).0@ != key@,
            decreases self.entries@.len() - i,
        {
            if self.entries[i].0.same(key) {
                return Some(i);
            }
            i = i + 1;
        }
        None
    }

    proof fn lemma_at(&self, key: PropertyKeyView, index: int)
        requires
            is_first(self.entries@, key, index),
        ensures
            self@.has(key),
            self@.properties[key] == self.entries@[index].1,
    {
        let i = choose|i: int| is_first(self.entries@, key, i);
        assert(is_first(self.entries@, key, i));
        assert(i == index);
    }

    fn get(&self, key: &PropertyKey) -> (result: Option<&PropertyDescriptor<P>>)
        ensures
            result == (if self@.has(key@) {
                Some(&self@.properties[key@])
            } else {
                None
            }),
    {
        match self.position(key) {
            Some(i) => {
                proof {
                    self.lemma_at(key@, i as int);
                }
                Some(&self.entries[i].1)
            },
            None => None,
        }
    }

    fn set(&mut self, key: PropertyKey, descriptor: PropertyDescriptor<P>)
        ensures
            final(self)@ == old(self)@.define(key@, descriptor),
    {
        let ghost before = self.entries@;
        let ghost name = key@;
        let index: usize = match self.position(&key) {
            Some(i) => {
                self.entries.set(i, (key, descriptor));
                i
            },
            None => {
                let i: usize = self.entries.len();
                self.entries.push((key, descriptor));
                i
            },
        };
        proof {
            let after = self.entries@;
            assert(is_first(after, name, index as int));
            assert forall|k: PropertyKeyView, i: int| k != name implies (is_first(after, k, i)
                <==> is_first(before, k, i)) by {
                if is_first(before, k, i) {
                    assert forall|j: int| 0 <= j < i implies (#[trigger] after[j]).0@ != k by {
                        assert(before[j].0@ != k);
                    }
                }
                if is_first(after, k, i) {
                    assert forall|j: int| 0 <= j < i implies (#[trigger] before[j]).0@ != k by {
                        assert(after[j].0@ != k);
                    }
                }
            }
            self.lemma_at(name, index as int);
            let defined = old(self)@.define(name, descriptor);
            assert forall|k: PropertyKeyView| k != name implies (self@.has(k) <==> old(self)@.has(k))
                && (self@.has(k) ==> #[trigger] self@.properties[k] == old(self)@.properties[k]) by {
                if self@.has(k) {
                    let i = choose|i: int| is_first(after, k, i);
                    self.lemma_at(k, i);
                    old(self).lemma_at(k, i);
                }
                if old(self)@.has(k) {
                    let i = choose|i: int| is_first(before, k, i);
                    assert(is_first(after, k, i));
                }
            }
            assert(self@.properties =~= defined.properties);
        }
    }
}

/// The property tables of objects. An object of which nothing was said is ordinary, has no
/// properties and takes new ones.
#[derive(Debug)]
pub struct Objects<P> {
    tables: FxHashMap<u64, PropertyTable<P>>,
}

impl<P> View for Objects<P> {
    type V = Map<JsObject, ObjectState<P>>;

    closed spec fn view(&self) -> Map<JsObject, ObjectState<P>> {
        Map::new(
            |object: JsObject| true,
            |object: JsObject|
                if self.tables@.contains_key(object.addr) {
                    self.tables@[object.addr]@
                } else {
                    ObjectState::plain()
                },
        )
    }
}

impl<P> Objects<P> {
    /// Creates the tables of a memory in which no object has a property.
    pub fn new() -> (objects: Self)
        ensures
            forall|object: JsObject| #[trigger] objects@[object] == ObjectState::<P>::plain(),
    {
        Objects { tables: FxHashMap::default() }
    }

    /// Gets the own property of `object` under `key`.
    pub fn get_own_property(&self, object: JsObject, key: &PropertyKey) -> (result: Option<
        &PropertyDescriptor<P>,
    >)
        ensures
            result == (if self@[object].has(key@) {
                Some(&self@[object].properties[key@])
            } else {
                None
            }),
    {
        match fx_get(&self.tables, &object.addr) {
            Some(table) => table.get(key),
            None => None,
        }
    }

    /// Keeps `object` from taking any more properties.
    pub fn prevent_extensions(&mut self, object: JsObject)
        ensures
            final(self)@ == old(self)@.insert(
                object,
                ObjectState { extensible: false, ..old(self)@[object] },
            ),
    {
        let mut table = self.take(object);
        let ghost before = table@;
        table.extensible = false;
        assert(table@ =~= ObjectState { extensible: false, ..before });
        self.put(object, table);
        assert(self@ =~= old(self)@.insert(
            object,
            ObjectState { extensible: false, ..old(self)@[object] },
        ));
    }

    /// Tells whether `object` is exotic.
    pub fn is_exotic(&self, object: JsObject) -> (result: bool)
        ensures
            result == self@[object].exotic,
    {
        match fx_get(&self.tables, &object.addr) {
            Some(table) => table.exotic,
            None => false,
        }
    }

    /// Makes `object` exotic.
    pub fn make_exotic(&mut self, object: JsObject)
        ensures
            final(self)@ == old(self)@.insert(
                object,
                ObjectState { exotic: true, ..old(self)@[object] },
            ),
    {
        let mut table = self.take(object);
        let ghost before = table@;
        table.exotic = true;
        assert(table@ =~= ObjectState { exotic: true, ..before });
        self.put(object, table);
        assert(self@ =~= old(self)@.insert(
            object,
            ObjectState { exotic: true, ..old(self)@[object] },
        ));
    }

    /// Defines the own property of `object` under `key` the ordinary way, or raises a `TypeError` if the
    /// object does not admit that. A property that is unconfigurable already is not given
    /// another unconfigurable descriptor: the values of the two would have to be compared.
    pub fn define_property_or_throw(
        &mut self,
        object: JsObject,
        key: PropertyKey,
        descriptor: PropertyDescriptor<P>,
    ) -> (result: Result<(), TypeError>)
        requires
            descriptor.configurable || old(self)@[object].admits(key@) || !old(self)@[object].has(
                key@,
            ),
        ensures
            old(self)@[object].admits(key@) ==> result is Ok && final(self)@ == old(self)@.insert(
                object,
                old(self)@[object].define(key@, descriptor),
            ),
            !old(self)@[object].admits(key@) ==> final(self)@ == old(self)@ && (result matches Err(
                error,
            ) && error.message@ == "cannot redefine property"@),
    {
        let mut table = self.take(object);
        let admitted = match table.get(&key) {
            Some(current) => current.configurable,
            None => table.extensible,
        };
        let ghost name = key@;
        if admitted {
            table.set(key, descriptor);
        }
        self.put(object, table);
        if admitted {
            assert(self@ =~= old(self)@.insert(object, old(self)@[object].define(name, descriptor)));
            Ok(())
        } else {
            assert(self@ =~= old(self)@);
            Err(cannot_redefine())
        }
    }

    fn take(&mut self, object: JsObject) -> (table: PropertyTable<P>)
        ensures
            table@ == old(self)@[object],
            final(self)@ == old(self)@.insert(object, ObjectState::plain()),
    {
        let removed = fx_remove(&mut self.tables, &object.addr);
        assert(self@ =~= old(self)@.insert(object, ObjectState::plain()));
        match removed {
            Some(table) => table,
            None => PropertyTable::new(),
        }
    }

    fn put(&mut self, object: JsObject, table: PropertyTable<P>)
        ensures
            final(self)@ == old(self)@.insert(object, table@),
    {
        fx_insert(&mut self.tables, object.addr, table);
        assert(self@ =~= old(self)@.insert(object, table@));
    }
}

} // verus!
