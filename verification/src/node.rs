//! The document tree: scalars, arrays, ordered objects and key/value pairs.

use indexmap::IndexMap;
use vstd::prelude::*;

verus! {

/// The mathematical value of a document node.
///
/// An object is the sequence of its entries in insertion order; a float is
/// the bit pattern of its 64-bit IEEE-754 encoding.
pub enum Doc {
    Null,
    Bool(bool),
    Integer(int),
    BigInteger(int),
    Float(u64),
    String(Seq<char>),
    Array(Seq<Doc>),
    Object(Seq<(Seq<char>, Doc)>),
    Pair(Seq<char>, Box<Doc>, nat),
    Other,
}

/// The ordered key/value entries of an object node: an `IndexMap` from
/// keys to nodes, which keeps the entries in the order in which their keys
/// first came.
///
/// Two of them are `==` when they hold the same entries, in whatever order.
#[verifier::external_body]
#[derive(Debug, PartialEq)]
pub struct Fields {
    inner: IndexMap<String, Node>,
}

/// One node of a document tree.
///
/// Floats are held as bit patterns, so two float nodes are `==` when their
/// bits are the same.
#[derive(Debug, PartialEq)]
pub enum Node {
    Null,
    Bool(bool),
    Integer(isize),
    BigInteger(i128),
    /// The bit pattern of a 64-bit float.
    Float(u64),
    String(String),
    Array(Vec<Node>),
    Object(Fields),
    /// A map entry's key carried beside its value, so that the key can be
    /// decoded as a value of its own.
    Pair(String, Box<Node>, usize),
    /// A node of the parser's own bookkeeping, which stands for no value.
    Other,
}

/// The entries that the `IndexMap` of an object holds, in the order in which
/// it hands them out: that in which their keys first came.
pub uninterp spec fn object_entries(fields: Fields) -> Seq<(Seq<char>, Doc)>;

/// The value of a node: each variant by its fields' values, an array item by
/// item, an object by the entries it holds.
pub open spec fn doc_of(node: Node) -> Doc
    decreases node,
{
    match node {
        Node::Null => Doc::Null,
        Node::Bool(b) => Doc::Bool(b),
        Node::Integer(n) => Doc::Integer(n as int),
        Node::BigInteger(n) => Doc::BigInteger(n as int),
        Node::Float(bits) => Doc::Float(bits),
        Node::String(s) => Doc::String(s@),
        Node::Array(items) => Doc::Array(
            Seq::new(
                items@.len(),
                |i: int|
                    if 0 <= i < items@.len() {
                        doc_of(items@[i])
                    } else {
                        Doc::Null
                    },
            ),
        ),
        Node::Object(fields) => Doc::Object(object_entries(fields)),
        Node::Pair(key, value, aux) => Doc::Pair(key@, Box::new(doc_of(*value)), aux as nat),
        Node::Other => Doc::Other,
    }
}

impl View for Node {
    type V = Doc;

    open spec fn view(&self) -> Doc {
        doc_of(*self)
    }
}

/// The values of a list of nodes, item by item.
pub open spec fn docs_of(items: Seq<Node>) -> Seq<Doc> {
    Seq::new(items.len(), |i: int| items[i]@)
}

/// The value of an array node is the sequence of its items' values.
pub proof fn lemma_array_view(items: Vec<Node>)
    ensures
        Node::Array(items)@ == Doc::Array(docs_of(items@)),
{
    assert(Node::Array(items)->Array_0 == items);
    assert(Node::Array(items)@->Array_0 =~= docs_of(items@));
}

/// The entries after `key` is given the value `value`: a key that is already
/// there keeps its place and gets the new value, a new key goes last.
pub open spec fn put(entries: Seq<(Seq<char>, Doc)>, key: Seq<char>, value: Doc) -> Seq<
    (Seq<char>, Doc),
>
    decreases entries.len(),
{
    if entries.len() == 0 {
        seq![(key, value)]
    } else if entries[0].0 == key {
        seq![(key, value)] + entries.drop_first()
    } else {
        seq![entries[0]] + put(entries.drop_first(), key, value)
    }
}

/// The value that the first entry under `key` holds, if there is one.
pub open spec fn lookup(entries: Seq<(Seq<char>, Doc)>, key: Seq<char>) -> Option<Doc>
    decreases entries.len(),
{
    if entries.len() == 0 {
        None
    } else if entries[0].0 == key {
        Some(entries[0].1)
    } else {
        lookup(entries.drop_first(), key)
    }
}

/// Whether one of the entries stands under `key`.
pub open spec fn has_key(entries: Seq<(Seq<char>, Doc)>, key: Seq<char>) -> bool {
    exists|i: int| 0 <= i < entries.len() && (#[trigger] entries[i]).0 == key
}

/// Whether no two of the entries stand under the same key.
pub open spec fn distinct_keys(entries: Seq<(Seq<char>, Doc)>) -> bool {
    forall|i: int, j: int|
        0 <= i < j < entries.len() ==> (#[trigger] entries[i]).0 != (#[trigger] entries[j]).0
}

/// The values of a list of owned entries, item by item.
pub open spec fn entries_of(list: Seq<(String, Node)>) -> Seq<(Seq<char>, Doc)> {
    Seq::new(list.len(), |i: int| (list[i].0@, list[i].1@))
}

impl Fields {
    /// `IndexMap::new`: a map without entries.
    #[verifier::external_body]
    pub(crate) fn new() -> (fields: Fields)
        ensures
            object_entries(fields) == Seq::<(Seq<char>, Doc)>::empty(),
    {
        Fields { inner: IndexMap::new() }
    }

    /// `IndexMap::insert`: an equal key keeps its place in the order and has
    /// its value replaced, the old value being handed back; a new key is
    /// added last and nothing is handed back.
    #[verifier::external_body]
    pub(crate) fn insert(&mut self, key: String, value: Node) -> (previous: Option<Node>)
        ensures
            object_entries(*final(self)) == put(object_entries(*old(self)), key@, value@),
            match previous {
                Some(node) => lookup(object_entries(*old(self)), key@) == Some(node@),
                None => lookup(object_entries(*old(self)), key@).is_none(),
            },
    {
        self.inner.insert(key, value)
    }

    /// `IndexMap::clone`: a map of the same entries in the same order.
    #[verifier::external_body]
    pub(crate) fn duplicate(&self) -> (copy: Fields)
        ensures
            object_entries(copy) == object_entries(*self),
    {
        Fields { inner: self.inner.clone() }
    }

    /// `IndexMap::iter`: the entries in insertion order, each one copied.
    #[verifier::external_body]
    pub(crate) fn to_vec(&self) -> (list: Vec<(String, Node)>)
        ensures
            entries_of(list@) == object_entries(*self),
    {
        self.inner.iter().map(|(key, value)| (key.clone(), value.clone())).collect()
    }
}

impl Clone for Node {
    /// A copy of the whole tree below this node.
    fn clone(&self) -> (copy: Node)
        ensures
            copy@ == self@,
        decreases self,
    {
        match self {
            Node::Null => Node::Null,
            Node::Bool(b) => Node::Bool(*b),
            Node::Integer(n) => Node::Integer(*n),
            Node::BigInteger(n) => Node::BigInteger(*n),
            Node::Float(bits) => Node::Float(*bits),
            Node::String(s) => Node::String(s.clone()),
            Node::Array(items) => {
                let mut copies: Vec<Node> = Vec::new();
                let mut i: usize = 0;
                while i < items.len()
                    invariant
                        self is Array,
                        self->Array_0 == *items,
                        i <= items@.len(),
                        copies@.len() == i,
                        forall|j: int| 0 <= j < i ==> (#[trigger] copies@[j])@ == items@[j]@,
                    decreases items@.len() - i,
                {
                    let item = &items[i];
                    proof {
                        vstd::std_specs::vec::axiom_vec_index_decreases(*items, i as int);
                        assert(self->Array_0 == *items);
                    }
                    copies.push(item.clone());
                    i += 1;
                }
                proof {
                    lemma_array_view(copies);
                    lemma_array_view(*items);
                    assert(docs_of(copies@) =~= docs_of(items@));
                }
                Node::Array(copies)
            },
            Node::Object(fields) => Node::Object(fields.duplicate()),
            Node::Pair(key, value, aux) => {
                let inner: Node = (**value).clone();
                Node::Pair(key.clone(), Box::new(inner), *aux)
            },
            Node::Other => Node::Other,
        }
    }
}

} // verus!
