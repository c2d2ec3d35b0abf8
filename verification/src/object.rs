//! Property keys, properties, object kinds and their internal methods.

use crate::primitives::{Boolean, Null, Number, String, Symbol, SymbolRegistry, Undefined};
use crate::property_map::{empty_map, property_entries};
use indexmap::IndexMap;
use vstd::prelude::*;
use vstd::std_specs::cmp::PartialEqSpec;

verus! {

/// Something that an accessor property can call as its getter or setter.
pub trait Callable {
}

/// A reference to an object in the collector's heap.
#[derive(Clone, Copy, Debug, PartialEq, Eq, Hash, Structural)]
pub struct ObjectRef {
    pub index: usize,
}

/// A reference to a callable in the collector's heap.
#[derive(Clone, Copy, Debug, PartialEq, Eq, Hash, Structural)]
pub struct CallableRef {
    pub index: usize,
}

/// The key of a property: a string or a symbol.
#[derive(Debug, Hash)]
pub enum PropertyKey {
    String(String),
    Symbol(Box<Symbol>),
}

/// The model of a key: the code units of a string key, the identity of a
/// symbol key.
pub enum KeyView {
    String(Seq<u16>),
    Symbol(nat),
}

impl View for PropertyKey {
    type V = KeyView;

    open spec fn view(&self) -> KeyView {
        match self {
            PropertyKey::String(text) => KeyView::String(text@),
            PropertyKey::Symbol(symbol) => KeyView::Symbol(symbol@.token),
        }
    }
}

impl Clone for PropertyKey {
    fn clone(&self) -> (r: Self)
        ensures
            r@ == self@,
    {
        match self {
            PropertyKey::String(text) => PropertyKey::String(text.clone()),
            PropertyKey::Symbol(symbol) => {
                let symbol: &Symbol = symbol;
                PropertyKey::Symbol(Box::new(symbol.clone()))
            },
        }
    }
}

impl PartialEq for PropertyKey {
    /// String keys are equal by content, symbol keys by identity; a string
    /// key never equals a symbol key.
    fn eq(&self, other: &Self) -> (r: bool) {
        match (self, other) {
            (PropertyKey::String(a), PropertyKey::String(b)) => a == b,
            (PropertyKey::Symbol(a), PropertyKey::Symbol(b)) => {
                let left: &Symbol = a;
                let right: &Symbol = b;
                left == right
            },
            _ => false,
        }
    }
}

impl vstd::std_specs::cmp::PartialEqSpecImpl for PropertyKey {
    open spec fn obeys_eq_spec() -> bool {
        true
    }

    open spec fn eq_spec(&self, other: &Self) -> bool {
        self@ == other@
    }
}

impl Eq for PropertyKey {}

/// A value of the language.
#[derive(Debug)]
pub enum Value {
    Undefined(Undefined),
    Null(Null),
    Boolean(Boolean),
    String(String),
    Symbol(Box<Symbol>),
    Number(Number),
    Object(ObjectRef),
}

/// A property that holds a value.
#[derive(Debug)]
pub struct DataProperty {
    pub value: Value,
    pub writable: bool,
    pub enumerable: bool,
    pub configurable: bool,
}

/// A property that is read and written through callables. It has no
/// `writable` attribute: whether it can be written follows from `set`.
#[derive(Debug)]
pub struct AccessorProperty {
    pub get: Option<CallableRef>,
    pub set: Option<CallableRef>,
    pub enumerable: bool,
    pub configurable: bool,
}

/// A property is either a data property or an accessor property.
#[derive(Debug)]
pub enum Property {
    DataProperty(DataProperty),
    AccessorProperty(AccessorProperty),
}

impl DataProperty {
    /// A data property that holds `value` with the given attributes.
    pub fn new(value: Value, writable: bool, enumerable: bool, configurable: bool) -> (r: Self)
        ensures
            r.value == value,
            r.writable == writable,
            r.enumerable == enumerable,
            r.configurable == configurable,
    {
        DataProperty { value, writable, enumerable, configurable }
    }
}

/// The model of an object: its properties in insertion order, whether
/// properties may still be added, and its prototype.
pub struct ObjectState {
    pub properties: Seq<(PropertyKey, Property)>,
    pub extensible: bool,
    pub prototype: Option<ObjectRef>,
}

impl ObjectState {
    /// The state after extensions have been prevented: no longer extensible,
    /// otherwise as before.
    pub open spec fn prevented(self) -> ObjectState {
        ObjectState { extensible: false, ..self }
    }
}

/// A plain object: an ordered mapping from keys to properties, the
/// extensible flag and an optional prototype.
///
/// `extensible` only ever goes from `true` to `false`.
#[derive(Debug)]
pub struct OrdinaryObject {
    pub own_properties: IndexMap<PropertyKey, Property>,
    pub extensible: Boolean,
    pub prototype: Option<ObjectRef>,
}

impl View for OrdinaryObject {
    type V = ObjectState;

    open spec fn view(&self) -> ObjectState {
        ObjectState {
            properties: property_entries(self.own_properties),
            extensible: self.extensible,
            prototype: self.prototype,
        }
    }
}

/// An array object. It wraps an ordinary object and hands every internal
/// method on to it.
#[derive(Debug)]
pub struct ArrayObject {
    pub inner: OrdinaryObject,
}

impl View for ArrayObject {
    type V = ObjectState;

    open spec fn view(&self) -> ObjectState {
        self.inner@
    }
}

/// An object of any kind.
#[derive(Debug)]
pub enum Object {
    OrdinaryObject(OrdinaryObject),
    ArrayObject(ArrayObject),
}

impl View for Object {
    type V = ObjectState;

    open spec fn view(&self) -> ObjectState {
        match self {
            Object::OrdinaryObject(object) => object@,
            Object::ArrayObject(object) => object@,
        }
    }
}

/// The internal methods that every kind of object has.
///
/// `set_prototype_of` and `prevent_extensions` say by their result whether
/// they did what was asked; `get_prototype_of` and `get_own_property` return
/// `None` where there is nothing to return. None of them fails otherwise.
pub trait ObjectInternalMethods: View<V = ObjectState> {
    /// The prototype of the object.
    fn get_prototype_of(&self) -> (prototype: Option<Box<Object>>);

    /// Asks for `proto` to become the prototype; `false` means refused. An
    /// object that refuses stays as it was, and none becomes extensible.
    fn set_prototype_of(&mut self, proto: Option<Box<Object>>) -> (changed: bool)
        ensures
            !changed ==> final(self)@ == old(self)@,
            final(self)@.extensible ==> old(self)@.extensible,
    ;

    /// Whether properties may still be added to the object.
    fn is_extensible(&self) -> (extensible: bool)
        ensures
            extensible == self@.extensible,
    ;

    /// Makes the object non-extensible for good. Always succeeds.
    fn prevent_extensions(&mut self) -> (done: bool)
        ensures
            done,
            final(self)@ == old(self)@.prevented(),
    ;

    /// The own property stored under `key`.
    fn get_own_property(&self, key: PropertyKey) -> (property: Option<Property>);
}

impl OrdinaryObject {
    /// A fresh object: extensible, without prototype or properties.
    pub fn new() -> (r: Self)
        ensures
            r@.properties == Seq::<(PropertyKey, Property)>::empty(),
            r@.extensible,
            r@.prototype is None,
    {
        OrdinaryObject { own_properties: empty_map(), extensible: true, prototype: None }
    }
}

impl ObjectInternalMethods for OrdinaryObject {
    /// Reports no prototype, whatever reference is stored: prototype chains
    /// are not walked yet.
    fn get_prototype_of(&self) -> (prototype: Option<Box<Object>>)
        ensures
            prototype is None,
    {
        None
    }

    /// Refuses every candidate and leaves the object as it was.
    fn set_prototype_of(&mut self, proto: Option<Box<Object>>) -> (changed: bool)
        ensures
            !changed,
            *final(self) == *old(self),
    {
        false
    }

    fn is_extensible(&self) -> (extensible: bool)
        ensures
            extensible == self.extensible,
    {
        self.extensible
    }

    fn prevent_extensions(&mut self) -> (done: bool)
        ensures
            *final(self) == (OrdinaryObject { extensible: false, ..*old(self) }),
    {
        self.extensible = false;
        true
    }

    /// Reports no property, whatever the mapping holds: properties are not
    /// looked up yet.
    fn get_own_property(&self, key: PropertyKey) -> (property: Option<Property>)
        ensures
            property is None,
    {
        None
    }
}

impl ObjectInternalMethods for ArrayObject {
    fn get_prototype_of(&self) -> (prototype: Option<Box<Object>>)
        ensures
            prototype is None,
    {
        self.inner.get_prototype_of()
    }

    fn set_prototype_of(&mut self, proto: Option<Box<Object>>) -> (changed: bool)
        ensures
            !changed,
            *final(self) == *old(self),
    {
        self.inner.set_prototype_of(proto)
    }

    fn is_extensible(&self) -> (extensible: bool)
        ensures
            extensible == self.inner.extensible,
    {
        self.inner.is_extensible()
    }

    fn prevent_extensions(&mut self) -> (done: bool)
        ensures
            final(self).inner == (OrdinaryObject { extensible: false, ..old(self).inner }),
    {
        self.inner.prevent_extensions()
    }

    fn get_own_property(&self, key: PropertyKey) -> (property: Option<Property>)
        ensures
            property is None,
    {
        self.inner.get_own_property(key)
    }
}

impl Object {
    /// The object after extensions have been prevented: the same kind of
    /// object, no longer extensible, otherwise as before.
    pub open spec fn prevented(self) -> Object {
        match self {
            Object::OrdinaryObject(object) => Object::OrdinaryObject(
                OrdinaryObject { extensible: false, ..object },
            ),
            Object::ArrayObject(object) => Object::ArrayObject(
                ArrayObject { inner: OrdinaryObject { extensible: false, ..object.inner } },
            ),
        }
    }
}

impl ObjectInternalMethods for Object {
    fn get_prototype_of(&self) -> (prototype: Option<Box<Object>>)
        ensures
            prototype is None,
    {
        match self {
            Object::OrdinaryObject(object) => object.get_prototype_of(),
            Object::ArrayObject(object) => object.get_prototype_of(),
        }
    }

    fn set_prototype_of(&mut self, proto: Option<Box<Object>>) -> (changed: bool)
        ensures
            !changed,
            *final(self) == *old(self),
    {
        match self {
            Object::OrdinaryObject(object) => object.set_prototype_of(proto),
            Object::ArrayObject(object) => object.set_prototype_of(proto),
        }
    }

    fn is_extensible(&self) -> (extensible: bool) {
        match self {
            Object::OrdinaryObject(object) => object.is_extensible(),
            Object::ArrayObject(object) => object.is_extensible(),
        }
    }

    fn prevent_extensions(&mut self) -> (done: bool)
        ensures
            *final(self) == old(self).prevented(),
    {
        match self {
            Object::OrdinaryObject(object) => object.prevent_extensions(),
            Object::ArrayObject(object) => object.prevent_extensions(),
        }
    }

    fn get_own_property(&self, key: PropertyKey) -> (property: Option<Property>)
        ensures
            property is None,
    {
        match self {
            Object::OrdinaryObject(object) => object.get_own_property(key),
            Object::ArrayObject(object) => object.get_own_property(key),
        }
    }
}

/// Preventing extensions leaves an object non-extensible, and doing it
/// again changes nothing more: the flag never goes back to `true`, and the
/// properties and the prototype stay as they were.
pub proof fn lemma_prevent_extensions_idempotent(state: ObjectState)
    ensures
        !state.prevented().extensible,
        state.prevented().prevented() == state.prevented(),
        state.prevented().properties == state.properties,
        state.prevented().prototype == state.prototype,
{
}

/// The facade prevents extensions as the object behind it does: the kind of
/// the object stays, its state becomes non-extensible and is otherwise as
/// before, and a second time changes nothing more.
pub proof fn lemma_facade_prevents_extensions(object: Object)
    ensures
        object.prevented()@ == object@.prevented(),
        !object.prevented()@.extensible,
        object.prevented().prevented() == object.prevented(),
        object.prevented() is OrdinaryObject <==> object is OrdinaryObject,
{
}

/// An array object is, to `is_extensible` and `prevent_extensions`, the
/// ordinary object that it wraps: both report the same flag, and both are
/// left in the same state.
pub proof fn lemma_array_object_delegates(inner: OrdinaryObject)
    ensures
        (ArrayObject { inner })@ == inner@,
        (ArrayObject { inner })@.extensible == inner@.extensible,
        (ArrayObject { inner })@.prevented() == inner@.prevented(),
        Object::ArrayObject(ArrayObject { inner }).prevented()@ == Object::OrdinaryObject(
            inner,
        ).prevented()@,
{
}

/// Two string keys with the same code units are equal; two symbol keys are
/// equal exactly when they hold the same symbol, whatever the descriptions
/// say; a string key and a symbol key are never equal.
pub proof fn lemma_keys_equal_by_content_or_identity(a: PropertyKey, b: PropertyKey)
    ensures
        a.eq_spec(&b) <==> match (a, b) {
            (PropertyKey::String(x), PropertyKey::String(y)) => x@ == y@,
            (PropertyKey::Symbol(x), PropertyKey::Symbol(y)) => x@.token == y@.token,
            _ => false,
        },
{
}

/// The keys of two symbols that were created apart are not equal: a symbol
/// that the registry had issued and one that it had not yet issued make
/// different keys.
pub proof fn lemma_symbol_keys_distinct(registry: SymbolRegistry, earlier: Symbol, later: Symbol)
    requires
        registry.has_issued(&earlier),
        !registry.has_issued(&later),
    ensures
        !PropertyKey::Symbol(Box::new(earlier)).eq_spec(&PropertyKey::Symbol(Box::new(later))),
        !PropertyKey::Symbol(Box::new(later)).eq_spec(&PropertyKey::Symbol(Box::new(earlier))),
{
}

} // verus!
