use indexmap::IndexMap;
use object_model::object::{
    AccessorProperty, ArrayObject, CallableRef, DataProperty, Object, ObjectInternalMethods,
    ObjectRef, OrdinaryObject, Property, PropertyKey, Value,
};
use object_model::primitives::{Null, Number, String, SymbolRegistry, Undefined};

fn text(s: &str) -> String {
    String { data: s.encode_utf16().collect() }
}

fn key(s: &str) -> PropertyKey {
    PropertyKey::String(text(s))
}

fn data(value: Value) -> Property {
    Property::DataProperty(DataProperty::new(value, true, true, true))
}

fn populated() -> OrdinaryObject {
    let mut own_properties = IndexMap::new();
    own_properties.insert(key("x"), data(Value::Boolean(true)));
    own_properties.insert(key("y"), data(Value::Null(Null)));
    OrdinaryObject { own_properties, extensible: true, prototype: Some(ObjectRef { index: 7 }) }
}

#[test]
fn fresh_ordinary_object_is_extensible_and_empty() {
    let object = OrdinaryObject::new();
    assert!(object.is_extensible());
    assert!(object.extensible);
    assert!(object.prototype.is_none());
    assert_eq!(object.own_properties.len(), 0);
}

#[test]
fn ordinary_object_prevent_extensions_then_lookup() {
    let mut object = OrdinaryObject {
        own_properties: IndexMap::new(),
        extensible: true,
        prototype: None,
    };
    assert!(object.prevent_extensions());
    assert!(!object.is_extensible());
    assert!(object.get_own_property(key("x")).is_none());
}

#[test]
fn array_object_prevent_extensions() {
    let mut array = ArrayObject { inner: OrdinaryObject::new() };
    assert!(array.is_extensible());
    assert!(array.prevent_extensions());
    assert!(!array.is_extensible());
    assert!(!array.inner.extensible);
}

#[test]
fn prevent_extensions_is_idempotent_on_every_kind() {
    let mut ordinary = populated();
    assert!(ordinary.prevent_extensions());
    assert!(!ordinary.is_extensible());
    assert!(ordinary.prevent_extensions());
    assert!(!ordinary.is_extensible());

    let mut array = ArrayObject { inner: populated() };
    assert!(array.prevent_extensions());
    assert!(!array.is_extensible());
    assert!(array.prevent_extensions());
    assert!(!array.is_extensible());

    for mut object in [
        Object::OrdinaryObject(populated()),
        Object::ArrayObject(ArrayObject { inner: populated() }),
    ] {
        assert!(object.is_extensible());
        assert!(object.prevent_extensions());
        assert!(!object.is_extensible());
        assert!(object.prevent_extensions());
        assert!(!object.is_extensible());
    }
}

#[test]
fn prevent_extensions_on_a_non_extensible_object_succeeds() {
    let mut object = OrdinaryObject {
        own_properties: IndexMap::new(),
        extensible: false,
        prototype: None,
    };
    assert!(!object.is_extensible());
    assert!(object.prevent_extensions());
    assert!(!object.is_extensible());
}

#[test]
fn prevent_extensions_keeps_properties_and_prototype() {
    let mut object = populated();
    assert!(object.prevent_extensions());
    assert_eq!(object.own_properties.len(), 2);
    assert_eq!(object.own_properties.get_index(0).map(|(k, _)| k), Some(&key("x")));
    assert_eq!(object.own_properties.get_index(1).map(|(k, _)| k), Some(&key("y")));
    assert_eq!(object.prototype, Some(ObjectRef { index: 7 }));
}

#[test]
fn array_object_answers_as_the_object_it_wraps() {
    for extensible in [true, false] {
        let mut ordinary = populated();
        ordinary.extensible = extensible;
        let mut inner = populated();
        inner.extensible = extensible;
        let mut array = ArrayObject { inner };

        assert_eq!(array.is_extensible(), ordinary.is_extensible());
        assert_eq!(array.is_extensible(), extensible);
        assert_eq!(array.prevent_extensions(), ordinary.prevent_extensions());
        assert_eq!(array.is_extensible(), ordinary.is_extensible());
        assert_eq!(array.inner.extensible, ordinary.extensible);
        assert_eq!(array.inner.prototype, ordinary.prototype);
        assert_eq!(array.inner.own_properties.len(), ordinary.own_properties.len());
        assert!(array.get_prototype_of().is_none());
        assert!(!array.set_prototype_of(None));
        assert!(array.get_own_property(key("x")).is_none());
    }
}

#[test]
fn get_prototype_of_reports_none_whatever_is_stored() {
    let ordinary = populated();
    assert_eq!(ordinary.prototype, Some(ObjectRef { index: 7 }));
    assert!(ordinary.get_prototype_of().is_none());
    assert!(ArrayObject { inner: populated() }.get_prototype_of().is_none());
    assert!(Object::OrdinaryObject(populated()).get_prototype_of().is_none());
    assert!(Object::ArrayObject(ArrayObject { inner: populated() }).get_prototype_of().is_none());
}

#[test]
fn set_prototype_of_refuses_and_changes_nothing() {
    let mut ordinary = populated();
    let candidate = Some(Box::new(Object::OrdinaryObject(OrdinaryObject::new())));
    assert!(!ordinary.set_prototype_of(candidate));
    assert!(!ordinary.set_prototype_of(None));
    assert_eq!(ordinary.prototype, Some(ObjectRef { index: 7 }));
    assert!(ordinary.extensible);
    assert_eq!(ordinary.own_properties.len(), 2);

    let mut facade = Object::ArrayObject(ArrayObject { inner: populated() });
    assert!(!facade.set_prototype_of(None));
    assert!(facade.is_extensible());
    match facade {
        Object::ArrayObject(array) => {
            assert_eq!(array.inner.prototype, Some(ObjectRef { index: 7 }));
            assert_eq!(array.inner.own_properties.len(), 2);
        }
        Object::OrdinaryObject(_) => panic!("the kind of the object changed"),
    }
}

#[test]
fn get_own_property_reports_none_whatever_the_mapping_holds() {
    let ordinary = populated();
    assert!(ordinary.own_properties.contains_key(&key("x")));
    assert!(ordinary.get_own_property(key("x")).is_none());
    assert!(ordinary.get_own_property(key("missing")).is_none());
    assert!(Object::OrdinaryObject(populated()).get_own_property(key("y")).is_none());
    assert!(ArrayObject { inner: populated() }.get_own_property(key("y")).is_none());
}

#[test]
fn facade_keeps_the_kind_of_the_object() {
    let mut ordinary = Object::OrdinaryObject(OrdinaryObject::new());
    assert!(ordinary.prevent_extensions());
    assert!(matches!(ordinary, Object::OrdinaryObject(OrdinaryObject { extensible: false, .. })));

    let mut array = Object::ArrayObject(ArrayObject { inner: OrdinaryObject::new() });
    assert!(array.prevent_extensions());
    assert!(matches!(
        array,
        Object::ArrayObject(ArrayObject { inner: OrdinaryObject { extensible: false, .. } })
    ));
}

#[test]
fn string_keys_are_equal_by_code_units() {
    assert_eq!(key("length"), key("length"));
    assert_eq!(key(""), key(""));
    assert_ne!(key("length"), key("lengt"));
    assert_ne!(key("a"), key("b"));
    assert_eq!(key("length"), key("length").clone());
    assert_eq!(text("abc"), String { data: vec![97, 98, 99] });
    assert_ne!(text("abc"), String { data: vec![97, 98] });
    assert_ne!(text("abc"), String { data: vec![97, 98, 100] });
}

#[test]
fn strings_count_code_units_not_characters() {
    let clef = text("\u{1D11E}");
    assert_eq!(clef.data, vec![0xD834, 0xDD1E]);
    assert_eq!(clef.data.len(), 2);
    let lone = String { data: vec![0xD834] };
    assert_ne!(clef, lone);
    assert_eq!(lone, String { data: vec![0xD834] });
}

#[test]
fn string_length_and_indexing_count_code_units() {
    let word = text("a\u{1D11E}b");
    assert_eq!(word.len(), 4);
    assert_eq!(word.code_unit_at(0), Some(0x0061));
    assert_eq!(word.code_unit_at(1), Some(0xD834));
    assert_eq!(word.code_unit_at(2), Some(0xDD1E));
    assert_eq!(word.code_unit_at(3), Some(0x0062));
    assert_eq!(word.code_unit_at(4), None);
    assert_eq!(word.code_unit_at(usize::MAX), None);
    assert_eq!(text("").len(), 0);
    assert_eq!(text("").code_unit_at(0), None);
    let copy = word.clone();
    assert_eq!(copy.data, vec![0x0061, 0xD834, 0xDD1E, 0x0062]);
}

#[test]
fn symbols_with_the_same_description_make_different_keys() {
    let mut registry = SymbolRegistry::new();
    let first = registry.create(Some(text("foo"))).unwrap();
    let second = registry.create(Some(text("foo"))).unwrap();
    assert_eq!(first.description(), &Some(text("foo")));
    assert_eq!(second.description(), &Some(text("foo")));
    let first_key = PropertyKey::Symbol(Box::new(first));
    let second_key = PropertyKey::Symbol(Box::new(second));
    assert_ne!(first_key, second_key);
    assert_ne!(second_key, first_key);
}

#[test]
fn a_symbol_equals_itself_and_its_clones_only() {
    let mut registry = SymbolRegistry::new();
    let plain = registry.create(None).unwrap();
    let named = registry.create(Some(text("named"))).unwrap();
    let other = registry.create(None).unwrap();
    assert_eq!(plain, plain.clone());
    assert_eq!(named, named.clone());
    assert_eq!(named.clone().description(), &Some(text("named")));
    assert_eq!(plain.description(), &None);
    assert_ne!(plain, named);
    assert_ne!(plain, other);
    assert_ne!(named, other);
}

#[test]
fn a_string_key_never_equals_a_symbol_key() {
    let mut registry = SymbolRegistry::new();
    let symbol = registry.create(Some(text("foo"))).unwrap();
    assert_ne!(key("foo"), PropertyKey::Symbol(Box::new(symbol.clone())));
    assert_ne!(PropertyKey::Symbol(Box::new(symbol)), key("foo"));
}

#[test]
fn the_mapping_tells_keys_apart_as_equality_does() {
    let mut registry = SymbolRegistry::new();
    let first = registry.create(Some(text("foo"))).unwrap();
    let second = registry.create(Some(text("foo"))).unwrap();
    let mut own_properties = IndexMap::new();
    assert!(own_properties.insert(key("foo"), data(Value::Boolean(true))).is_none());
    assert!(own_properties.insert(key("foo"), data(Value::Boolean(false))).is_some());
    assert!(own_properties
        .insert(PropertyKey::Symbol(Box::new(first.clone())), data(Value::Null(Null)))
        .is_none());
    assert!(own_properties
        .insert(PropertyKey::Symbol(Box::new(second)), data(Value::Null(Null)))
        .is_none());
    assert!(own_properties
        .insert(PropertyKey::Symbol(Box::new(first)), data(Value::Undefined(Undefined)))
        .is_some());
    assert_eq!(own_properties.len(), 3);
    assert_eq!(own_properties.get_index_of(&key("foo")), Some(0));
}

#[test]
fn data_property_returns_the_value_it_was_made_with() {
    let property = DataProperty::new(Value::String(text("stored")), true, false, true);
    assert!(matches!(&property.value, Value::String(s) if *s == text("stored")));
    assert!(property.writable);
    assert!(!property.enumerable);
    assert!(property.configurable);

    let property = DataProperty::new(Value::Object(ObjectRef { index: 42 }), false, true, false);
    assert!(matches!(property.value, Value::Object(ObjectRef { index: 42 })));
    assert!(!property.writable);
    assert!(property.enumerable);
    assert!(!property.configurable);

    let property = DataProperty::new(Value::Number(Number { bits: 1.5f64.to_bits() }), true, true, true);
    match property.value {
        Value::Number(number) => assert_eq!(f64::from_bits(number.bits), 1.5),
        _ => panic!("the stored value changed its kind"),
    }

    let property = DataProperty::new(Value::Boolean(true), true, true, true);
    assert!(matches!(property.value, Value::Boolean(true)));
    let property = DataProperty::new(Value::Undefined(Undefined), true, true, true);
    assert!(matches!(property.value, Value::Undefined(_)));
    let property = DataProperty::new(Value::Null(Null), true, true, true);
    assert!(matches!(property.value, Value::Null(_)));
}

#[test]
fn accessor_property_keeps_its_callables() {
    let property = AccessorProperty {
        get: Some(CallableRef { index: 1 }),
        set: None,
        enumerable: true,
        configurable: false,
    };
    assert_eq!(property.get, Some(CallableRef { index: 1 }));
    assert_eq!(property.set, None);
    assert!(property.enumerable);
    assert!(!property.configurable);
}
