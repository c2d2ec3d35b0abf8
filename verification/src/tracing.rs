//! The edges that a reachability tracer follows.
//!
//! An object keeps alive what it refers to: its prototype, every object
//! that one of its property values holds, and the getter and setter of every
//! accessor property. `trace` hands these references to the tracer, in the
//! order in which the object holds them. The mapping of an ordinary object
//! is walked pair by pair.

use crate::object::{
    AccessorProperty, ArrayObject, CallableRef, DataProperty, Object, ObjectRef, ObjectState,
    OrdinaryObject, Property, PropertyKey, Value,
};
use crate::property_map::{entry_at, entry_count, property_entries};
use vstd::prelude::*;

verus! {

/// One reference that keeps its target alive.
#[derive(Clone, Copy, Debug, PartialEq, Eq, Hash, Structural)]
pub enum Edge {
    Object(ObjectRef),
    Callable(CallableRef),
}

/// The edge to a callable, where there is one.
pub open spec fn callable_edges(callable: Option<CallableRef>) -> Seq<Edge> {
    match callable {
        Some(target) => seq![Edge::Callable(target)],
        None => Seq::empty(),
    }
}

/// The edges of the properties in `entries`, entry by entry. Keys hold no
/// reference.
pub open spec fn entries_edges(entries: Seq<(PropertyKey, Property)>) -> Seq<Edge>
    decreases entries.len(),
{
    if entries.len() == 0 {
        Seq::empty()
    } else {
        entries_edges(entries.drop_last()) + entries.last().1.edges()
    }
}

impl Value {
    /// The object that the value holds, if it holds one.
    pub open spec fn edges(&self) -> Seq<Edge> {
        match self {
            Value::Object(target) => seq![Edge::Object(*target)],
            _ => Seq::empty(),
        }
    }

    /// Appends the edges of the value to `edges`.
    pub fn trace(&self, edges: &mut Vec<Edge>)
        ensures
            final(edges)@ == old(edges)@ + self.edges(),
    {
        match self {
            Value::Object(target) => {
                edges.push(Edge::Object(*target));
            },
            _ => {},
        }
    }
}

impl DataProperty {
    /// The edges of the stored value.
    pub open spec fn edges(&self) -> Seq<Edge> {
        self.value.edges()
    }

    /// Appends the edges of the property to `edges`.
    pub fn trace(&self, edges: &mut Vec<Edge>)
        ensures
            final(edges)@ == old(edges)@ + self.edges(),
    {
        self.value.trace(edges);
    }
}

impl AccessorProperty {
    /// The getter, then the setter, as far as they are there.
    pub open spec fn edges(&self) -> Seq<Edge> {
        callable_edges(self.get) + callable_edges(self.set)
    }

    /// Appends the edges of the property to `edges`.
    pub fn trace(&self, edges: &mut Vec<Edge>)
        ensures
            final(edges)@ == old(edges)@ + self.edges(),
    {
        if let Some(getter) = self.get {
            edges.push(Edge::Callable(getter));
        }
        if let Some(setter) = self.set {
            edges.push(Edge::Callable(setter));
        }
    }
}

impl Property {
    /// The edges of the data or accessor property.
    pub open spec fn edges(&self) -> Seq<Edge> {
        match self {
            Property::DataProperty(property) => property.edges(),
            Property::AccessorProperty(property) => property.edges(),
        }
    }

    /// Appends the edges of the property to `edges`.
    pub fn trace(&self, edges: &mut Vec<Edge>)
        ensures
            final(edges)@ == old(edges)@ + self.edges(),
    {
        match self {
            Property::DataProperty(property) => property.trace(edges),
            Property::AccessorProperty(property) => property.trace(edges),
        }
    }
}

impl ObjectState {
    /// The edges of the properties in insertion order, then the prototype.
    pub open spec fn edges(self) -> Seq<Edge> {
        entries_edges(self.properties) + match self.prototype {
            Some(target) => seq![Edge::Object(target)],
            None => Seq::empty(),
        }
    }
}

impl OrdinaryObject {
    /// Appends the edges of the object to `edges`: those of each property
    /// in insertion order, then the prototype.
    pub fn trace(&self, edges: &mut Vec<Edge>)
        ensures
            final(edges)@ == old(edges)@ + self@.edges(),
    {
        let count = entry_count(&self.own_properties);
        let ghost entries = property_entries(self.own_properties);
        let mut index: usize = 0;
        while index < count
            invariant
                index <= count,
                count == entries.len(),
                entries == property_entries(self.own_properties),
                edges@ == old(edges)@ + entries_edges(entries.take(index as int)),
            decreases count - index,
        {
            if let Some((_, property)) = entry_at(&self.own_properties, index) {
                property.trace(edges);
            }
            proof {
                let longer = entries.take(index + 1);
                assert(longer.drop_last() == entries.take(index as int));
                assert(longer.last() == entries[index as int]);
            }
            index = index + 1;
        }
        proof {
            assert(entries.take(count as int) == entries);
        }
        if let Some(target) = self.prototype {
            edges.push(Edge::Object(target));
        }
    }
}

impl ArrayObject {
    /// Appends the edges of the wrapped object to `edges`.
    pub fn trace(&self, edges: &mut Vec<Edge>)
        ensures
            final(edges)@ == old(edges)@ + self@.edges(),
    {
        self.inner.trace(edges);
    }
}

impl Object {
    /// Appends the edges of the object to `edges`.
    pub fn trace(&self, edges: &mut Vec<Edge>)
        ensures
            final(edges)@ == old(edges)@ + self@.edges(),
    {
        match self {
            Object::OrdinaryObject(object) => object.trace(edges),
            Object::ArrayObject(object) => object.trace(edges),
        }
    }
}

} // verus!
