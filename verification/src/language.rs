//! What the typed tree is made of besides types: visibility, purity,
//! literals, attributes, and the stream of words that a content hash feeds
//! to a hasher.

use crate::span::Ident;
use vstd::prelude::*;
use vstd::utf8::encode_utf8;

verus! {

/// Whether a declaration can be seen outside its module.
#[derive(Clone, Copy, Debug, PartialEq, Eq, Structural)]
pub enum Visibility {
    Private,
    Public,
}

impl Visibility {
    /// Whether the declaration can be seen outside its module.
    pub fn is_public(&self) -> (public: bool)
        ensures
            public == (*self == Visibility::Public),
    {
        matches!(self, Visibility::Public)
    }
}

/// What a function may do to storage.
#[derive(Clone, Copy, Debug, PartialEq, Eq, Structural)]
pub enum Purity {
    Pure,
    Reads,
    Writes,
    ReadsWrites,
}

/// The slot of a storage field.
#[derive(Clone, Copy, Debug, PartialEq, Eq, Hash, Structural)]
pub struct StateIndex(pub u64);

/// A literal value.
#[derive(Clone, Copy, Debug, PartialEq, Eq, Structural)]
pub enum Literal {
    U64(u64),
    Boolean(bool),
}

/// What an attribute is for.
#[derive(Clone, Copy, Debug, PartialEq, Eq, Hash, Structural)]
pub enum AttributeKind {
    Doc,
    Storage,
    Inline,
    Test,
}

/// One attribute of a declaration, with its arguments.
#[derive(Clone, Debug)]
pub struct Attribute {
    pub name: Ident,
    pub args: Vec<Ident>,
}

/// The map that a list of entries stands for: a later entry of a kind
/// takes the place of an earlier one.
pub open spec fn entries_map(entries: Seq<(AttributeKind, Vec<Attribute>)>) -> Map<
    AttributeKind,
    Vec<Attribute>,
>
    decreases entries.len(),
{
    if entries.len() == 0 {
        Map::empty()
    } else {
        entries_map(entries.drop_last()).insert(entries.last().0, entries.last().1)
    }
}

/// The attributes of a declaration: for each kind at most one list of
/// attributes.
#[derive(Clone, Debug)]
pub struct AttributesMap {
    entries: Vec<(AttributeKind, Vec<Attribute>)>,
}

impl View for AttributesMap {
    type V = Map<AttributeKind, Vec<Attribute>>;

    closed spec fn view(&self) -> Map<AttributeKind, Vec<Attribute>> {
        entries_map(self.entries@)
    }
}

impl AttributesMap {
    /// Whether the declaration has attributes of the kind `kind`.
    pub open spec fn has(&self, kind: AttributeKind) -> bool {
        self@.contains_key(kind)
    }

    /// The map without attributes.
    pub fn new() -> (map: AttributesMap)
        ensures
            map@ == Map::<AttributeKind, Vec<Attribute>>::empty(),
    {
        AttributesMap { entries: Vec::new() }
    }

    /// Gives the declaration the attributes `attributes` of the kind
    /// `kind`, in the place of those that it had of this kind.
    pub fn insert(&mut self, kind: AttributeKind, attributes: Vec<Attribute>)
        ensures
            final(self)@ == old(self)@.insert(kind, attributes),
    {
        self.entries.push((kind, attributes));
        assert(self.entries@.drop_last() =~= old(self).entries@);
    }

    /// The attributes of the kind `kind`.
    pub fn get(&self, kind: AttributeKind) -> (attributes: Option<&Vec<Attribute>>)
        ensures
            self@.contains_key(kind) ==> attributes == Some(&self@[kind]),
            !self@.contains_key(kind) ==> attributes is None,
    {
        let mut i: usize = self.entries.len();
        assert(self.entries@.take(i as int) =~= self.entries@);
        while i > 0
            invariant
                0 <= i <= self.entries.len(),
                self@.contains_key(kind) == entries_map(self.entries@.take(i as int)).contains_key(
                    kind,
                ),
                self@.contains_key(kind) ==> self@[kind] == entries_map(
                    self.entries@.take(i as int),
                )[kind],
            decreases i,
        {
            i -= 1;
            assert(self.entries@.take(i + 1).drop_last() =~= self.entries@.take(i as int));
            assert(self.entries@.take(i + 1).last() == self.entries@[i as int]);
            if self.entries[i].0 == kind {
                return Some(&self.entries[i].1);
            }
        }
        None
    }

    /// Whether the declaration has attributes of the kind `kind`.
    pub fn contains_key(&self, kind: AttributeKind) -> (found: bool)
        ensures
            found == self.has(kind),
    {
        self.get(kind).is_some()
    }
}

/// Whether two attributes are the same: the same name and the same
/// arguments.
pub open spec fn attribute_eq(a: Attribute, b: Attribute) -> bool {
    a.name@ == b.name@ && a.args@.len() == b.args@.len() && forall|i: int|
        0 <= i < a.args@.len() ==> (#[trigger] a.args@[i])@ == b.args@[i]@
}

/// Whether two lists of attributes are the same, one by one.
pub open spec fn attributes_eq(a: Seq<Attribute>, b: Seq<Attribute>) -> bool {
    a.len() == b.len() && forall|i: int| 0 <= i < a.len() ==> attribute_eq(#[trigger] a[i], b[i])
}

/// Whether two maps give the same attributes for the kind `kind`.
pub open spec fn kind_eq(a: AttributesMap, b: AttributesMap, kind: AttributeKind) -> bool {
    if a@.contains_key(kind) && b@.contains_key(kind) {
        attributes_eq(a@[kind]@, b@[kind]@)
    } else {
        !a@.contains_key(kind) && !b@.contains_key(kind)
    }
}

/// Whether two maps give the same attributes for every kind.
pub open spec fn maps_eq(a: AttributesMap, b: AttributesMap) -> bool {
    kind_eq(a, b, AttributeKind::Doc) && kind_eq(a, b, AttributeKind::Storage) && kind_eq(
        a,
        b,
        AttributeKind::Inline,
    ) && kind_eq(a, b, AttributeKind::Test)
}

impl PartialEq for Attribute {
    /// Whether the attributes are the same.
    fn eq(&self, other: &Attribute) -> (same: bool) {
        self.same(other)
    }
}

impl vstd::std_specs::cmp::PartialEqSpecImpl for Attribute {
    open spec fn obeys_eq_spec() -> bool {
        true
    }

    open spec fn eq_spec(&self, other: &Attribute) -> bool {
        attribute_eq(*self, *other)
    }
}

impl Eq for Attribute {

}

impl PartialEq for AttributesMap {
    /// Whether both maps give the same attributes for every kind.
    fn eq(&self, other: &AttributesMap) -> (same: bool) {
        self.same(other)
    }
}

impl vstd::std_specs::cmp::PartialEqSpecImpl for AttributesMap {
    open spec fn obeys_eq_spec() -> bool {
        true
    }

    open spec fn eq_spec(&self, other: &AttributesMap) -> bool {
        maps_eq(*self, *other)
    }
}

impl Eq for AttributesMap {

}

impl Attribute {
    /// Whether the attributes are the same.
    pub fn same(&self, other: &Attribute) -> (same: bool)
        ensures
            same == attribute_eq(*self, *other),
    {
        if !self.name.same_name(&other.name) || self.args.len() != other.args.len() {
            return false;
        }
        let mut i: usize = 0;
        while i < self.args.len()
            invariant
                self.args.len() == other.args.len(),
                0 <= i <= self.args.len(),
                forall|j: int| 0 <= j < i ==> (#[trigger] self.args@[j])@ == other.args@[j]@,
            decreases self.args.len() - i,
        {
            if !self.args[i].same_name(&other.args[i]) {
                return false;
            }
            i += 1;
        }
        true
    }
}

/// Whether two lists of attributes are the same, one by one.
pub fn same_attributes(a: &Vec<Attribute>, b: &Vec<Attribute>) -> (same: bool)
    ensures
        same == attributes_eq(a@, b@),
{
    if a.len() != b.len() {
        return false;
    }
    let mut i: usize = 0;
    while i < a.len()
        invariant
            a.len() == b.len(),
            0 <= i <= a.len(),
            forall|j: int| 0 <= j < i ==> attribute_eq(#[trigger] a@[j], b@[j]),
        decreases a.len() - i,
    {
        if !a[i].same(&b[i]) {
            return false;
        }
        i += 1;
    }
    true
}

impl AttributesMap {
    /// Whether both maps give the same attributes for the kind `kind`.
    pub fn same_kind(&self, other: &AttributesMap, kind: AttributeKind) -> (same: bool)
        ensures
            same == kind_eq(*self, *other, kind),
    {
        match (self.get(kind), other.get(kind)) {
            (Some(a), Some(b)) => same_attributes(a, b),
            (None, None) => true,
            _ => false,
        }
    }

    /// Whether both maps give the same attributes for every kind.
    pub fn same(&self, other: &AttributesMap) -> (same: bool)
        ensures
            same == maps_eq(*self, *other),
    {
        self.same_kind(other, AttributeKind::Doc) && self.same_kind(other, AttributeKind::Storage)
            && self.same_kind(other, AttributeKind::Inline) && self.same_kind(
            other,
            AttributeKind::Test,
        )
    }
}

/// The words that stand for a name in a content hash: the number of its
/// bytes, then each byte.
pub open spec fn name_words(name: Seq<char>) -> Seq<u64> {
    seq![encode_utf8(name).len() as u64] + encode_utf8(name).map_values(|b: u8| b as u64)
}

/// The words that a content hash has fed to a hasher, in order.
pub struct HashState {
    pub words: Vec<u64>,
}

impl View for HashState {
    type V = Seq<u64>;

    open spec fn view(&self) -> Seq<u64> {
        self.words@
    }
}

impl HashState {
    /// The state before anything was written.
    pub fn new() -> (state: HashState)
        ensures
            state@.len() == 0,
    {
        HashState { words: Vec::new() }
    }

    /// Writes a byte.
    pub fn write_u8(&mut self, byte: u8)
        ensures
            final(self)@ == old(self)@.push(byte as u64),
    {
        self.words.push(byte as u64);
    }

    /// Writes a word.
    pub fn write_u64(&mut self, word: u64)
        ensures
            final(self)@ == old(self)@.push(word),
    {
        self.words.push(word);
    }

    /// Writes a name.
    pub fn write_str(&mut self, name: &str)
        ensures
            final(self)@ == old(self)@ + name_words(name@),
    {
        let bytes = name.as_bytes();
        self.words.push(bytes.len() as u64);
        let mut i: usize = 0;
        while i < bytes.len()
            invariant
                0 <= i <= bytes.len(),
                bytes@ == encode_utf8(name@),
                self@ == old(self)@.push(bytes.len() as u64) + bytes@.take(i as int).map_values(
                    |b: u8| b as u64,
                ),
            decreases bytes.len() - i,
        {
            self.words.push(bytes[i] as u64);
            assert(bytes@.take(i + 1).map_values(|b: u8| b as u64) =~= bytes@.take(
                i as int,
            ).map_values(|b: u8| b as u64).push(bytes@[i as int] as u64));
            i += 1;
        }
        assert(bytes@.take(bytes.len() as int) =~= bytes@);
        assert(self@ =~= old(self)@ + name_words(name@));
    }
}

} // verus!
