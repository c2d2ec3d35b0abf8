//! Primitive values: the leaves stored in properties.

use vstd::prelude::*;
use vstd::std_specs::cmp::PartialEqSpec;

verus! {

/// The `undefined` value.
#[derive(Clone, Copy, Debug)]
pub struct Undefined;

/// The `null` value.
#[derive(Clone, Copy, Debug)]
pub struct Null;

/// A boolean value.
pub type Boolean = bool;

/// A string: a fixed sequence of 16-bit code units.
///
/// Length and indexing count code units; surrogate pairs are not folded.
#[derive(Debug, Hash)]
pub struct String {
    pub data: Vec<u16>,
}

impl View for String {
    type V = Seq<u16>;

    open spec fn view(&self) -> Seq<u16> {
        self.data@
    }
}

impl String {
    /// The length of the string in code units.
    pub fn len(&self) -> (n: usize)
        ensures
            n == self@.len(),
    {
        self.data.len()
    }

    /// The code unit at `index`, counted in code units from 0, or `None`
    /// where the string is no longer than `index`.
    pub fn code_unit_at(&self, index: usize) -> (unit: Option<u16>)
        ensures
            index < self@.len() ==> unit == Some(self@[index as int]),
            index >= self@.len() ==> unit is None,
    {
        if index < self.data.len() {
            Some(self.data[index])
        } else {
            None
        }
    }
}

impl Clone for String {
    fn clone(&self) -> (r: Self)
        ensures
            r@ == self@,
    {
        String { data: self.data.clone() }
    }
}

impl PartialEq for String {
    /// Two strings are equal when they hold the same code units in the same order.
    fn eq(&self, other: &Self) -> (r: bool) {
        let same = self.data == other.data;
        proof {
            if same {
                assert(self.data@ =~= other.data@);
            }
        }
        same
    }
}

impl vstd::std_specs::cmp::PartialEqSpecImpl for String {
    open spec fn obeys_eq_spec() -> bool {
        true
    }

    open spec fn eq_spec(&self, other: &Self) -> bool {
        self@ == other@
    }
}

impl Eq for String {}

/// A number: one double-precision floating-point value, held as its
/// IEEE 754 binary64 bit pattern. There is no separate integer subtype.
#[derive(Clone, Copy, Debug)]
pub struct Number {
    pub bits: u64,
}

/// A symbol: a unique identity with an optional description.
///
/// The identity is the token that a [`SymbolRegistry`] issued for it; the
/// description is diagnostic only and takes no part in equality.
#[derive(Debug)]
pub struct Symbol {
    token: u64,
    description: Option<String>,
}

/// The model of a symbol: its identity and its description.
pub struct SymbolView {
    pub token: nat,
    pub description: Option<Seq<u16>>,
}

impl View for Symbol {
    type V = SymbolView;

    closed spec fn view(&self) -> SymbolView {
        SymbolView {
            token: self.token as nat,
            description: match self.description {
                Some(text) => Some(text@),
                None => None,
            },
        }
    }
}

impl Symbol {
    /// The description that the symbol was created with.
    pub fn description(&self) -> (r: &Option<String>)
        ensures
            match *r {
                Some(text) => self@.description == Some(text@),
                None => self@.description is None,
            },
    {
        &self.description
    }
}

impl Clone for Symbol {
    /// The clone is the same symbol: it carries the same token.
    fn clone(&self) -> (r: Self)
        ensures
            r@ == self@,
    {
        let description = match &self.description {
            Some(text) => Some(text.clone()),
            None => None,
        };
        Symbol { token: self.token, description }
    }
}

impl PartialEq for Symbol {
    /// Two symbols are equal when they are the same symbol: same token.
    fn eq(&self, other: &Self) -> (r: bool) {
        self.token == other.token
    }
}

impl vstd::std_specs::cmp::PartialEqSpecImpl for Symbol {
    open spec fn obeys_eq_spec() -> bool {
        true
    }

    open spec fn eq_spec(&self, other: &Self) -> bool {
        self@.token == other@.token
    }
}

impl Eq for Symbol {}

/// `<u64 as Hash>::hash` feeds the integer to the hasher. Nothing is claimed
/// of the hasher's state afterwards.
pub assume_specification<H: core::hash::Hasher>[ <u64 as core::hash::Hash>::hash ](
    value: &u64,
    state: &mut H,
);

impl core::hash::Hash for Symbol {
    /// Hashes the token alone, so that equal symbols hash alike.
    fn hash<H: core::hash::Hasher>(&self, state: &mut H) {
        self.token.hash(state);
    }
}

/// The source of symbol identities: it hands out each token once.
///
/// All symbols that are to be told apart come from one registry.
#[derive(Debug)]
pub struct SymbolRegistry {
    next: u64,
}

impl SymbolRegistry {
    /// How many symbols the registry has issued so far.
    pub closed spec fn issued(&self) -> nat {
        self.next as nat
    }

    /// Whether `symbol` carries a token that this registry has issued.
    pub open spec fn has_issued(&self, symbol: &Symbol) -> bool {
        symbol@.token < self.issued()
    }

    /// A registry that has issued no symbol yet.
    pub fn new() -> (r: Self)
        ensures
            r.issued() == 0,
    {
        SymbolRegistry { next: 0 }
    }

    /// Creates a symbol with a token that no earlier symbol of this registry
    /// carries. Returns `None`, and leaves the registry as it was, once all
    /// tokens are used up.
    pub fn create(&mut self, description: Option<String>) -> (r: Option<Symbol>)
        ensures
            r is Some <==> old(self).issued() < u64::MAX,
            r is None ==> *final(self) == *old(self),
            r matches Some(symbol) ==> {
                &&& !old(self).has_issued(&symbol)
                &&& final(self).has_issued(&symbol)
                &&& symbol@.token == old(self).issued()
                &&& symbol@.description == match description {
                    Some(text) => Some(text@),
                    None => None,
                }
                &&& final(self).issued() == old(self).issued() + 1
            },
    {
        if self.next == u64::MAX {
            None
        } else {
            let token: u64 = self.next;
            self.next = token + 1;
            Some(Symbol { token, description })
        }
    }
}

/// A symbol is equal to itself and to its clones, and to no symbol that
/// was created apart from it, whatever the descriptions say: a symbol that
/// the registry had issued differs from one that it had not yet issued.
pub proof fn lemma_symbols_equal_by_identity(registry: SymbolRegistry, earlier: Symbol, later: Symbol)
    requires
        registry.has_issued(&earlier),
        !registry.has_issued(&later),
    ensures
        earlier.eq_spec(&earlier),
        !earlier.eq_spec(&later),
        !later.eq_spec(&earlier),
{
}

/// Two strings are equal exactly when they are equally long and hold the
/// same code unit at every place. Nothing is folded: a surrogate is a code
/// unit like any other.
pub proof fn lemma_strings_equal_by_content(a: String, b: String)
    ensures
        a.eq_spec(&b) <==> a@.len() == b@.len() && forall|i: int|
            0 <= i < a@.len() ==> a@[i] == b@[i],
{
    if a@.len() == b@.len() && forall|i: int| 0 <= i < a@.len() ==> a@[i] == b@[i] {
        assert(a@ =~= b@);
    }
}

} // verus!
