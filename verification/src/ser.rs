//! The writer: builds document nodes from scalars and from streams of
//! element, field and variant calls.

use crate::error::Error;
use crate::laws::lemma_put_keeps_keys_distinct;
use crate::node::{
    distinct_keys, docs_of, lemma_array_view, object_entries, put, Doc, Fields, Node,
};
use vstd::prelude::*;
use vstd::string::StringExecFns;

verus! {

/// The writer of scalar nodes and the maker of the builders.
pub struct Serializer;

/// Builds an array from its elements.
pub struct SerializeArray {
    array: Vec<Node>,
}

/// Builds the content of a tuple variant from its elements.
pub struct SerializeTupleVariant {
    name: &'static str,
    array: Vec<Node>,
}

/// Builds an object from keys and values that come one after the other.
pub struct SerializeMap {
    hash: Fields,
    next_key: Option<String>,
}

/// Builds an object from named fields.
pub struct SerializeStruct {
    hash: Fields,
}

/// Builds the content of a struct variant from named fields.
pub struct SerializeStructVariant {
    name: &'static str,
    hash: Fields,
}

/// What a map builder holds: the entries so far, and the key that waits for
/// its value.
pub struct MapState {
    pub entries: Seq<(Seq<char>, Doc)>,
    pub next_key: Option<Seq<char>>,
}

/// What a variant builder holds: the variant's name and its content so far.
pub struct Tagged<T> {
    pub name: Seq<char>,
    pub content: T,
}

/// The value of a written node.
pub open spec fn written(result: Result<Node, Error>) -> Result<Doc, Error> {
    match result {
        Ok(node) => Ok(node@),
        Err(error) => Err(error),
    }
}

/// The object with the one entry `key: value`.
pub open spec fn singleton(key: Seq<char>, value: Doc) -> Doc {
    Doc::Object(seq![(key, value)])
}

/// The array of small integers that stands for a byte string.
pub open spec fn byte_array(bytes: Seq<u8>) -> Doc {
    Doc::Array(Seq::new(bytes.len(), |i: int| Doc::Integer(bytes[i] as int)))
}

/// `char::to_string`: the string made of the one character.
#[verifier::external_body]
fn char_to_string(value: char) -> (text: String)
    ensures
        text@ == seq![value],
{
    value.to_string()
}

/// The object with the one entry `k: v`.
pub fn singleton_hash(k: String, v: Node) -> (node: Node)
    ensures
        node@ == singleton(k@, v@),
{
    let mut hash = Fields::new();
    hash.insert(k, v);
    Node::Object(hash)
}

impl View for SerializeArray {
    type V = Seq<Doc>;

    closed spec fn view(&self) -> Seq<Doc> {
        docs_of(self.array@)
    }
}

impl View for SerializeTupleVariant {
    type V = Tagged<Seq<Doc>>;

    closed spec fn view(&self) -> Tagged<Seq<Doc>> {
        Tagged { name: self.name@, content: docs_of(self.array@) }
    }
}

impl View for SerializeMap {
    type V = MapState;

    closed spec fn view(&self) -> MapState {
        MapState {
            entries: object_entries(self.hash),
            next_key: match self.next_key {
                Some(key) => Some(key@),
                None => None,
            },
        }
    }
}

impl View for SerializeStruct {
    type V = Seq<(Seq<char>, Doc)>;

    closed spec fn view(&self) -> Seq<(Seq<char>, Doc)> {
        object_entries(self.hash)
    }
}

impl View for SerializeStructVariant {
    type V = Tagged<Seq<(Seq<char>, Doc)>>;

    closed spec fn view(&self) -> Tagged<Seq<(Seq<char>, Doc)>> {
        Tagged { name: self.name@, content: object_entries(self.hash) }
    }
}

impl Serializer {
    pub fn serialize_bool(self, v: bool) -> (result: Result<Node, Error>)
        ensures
            written(result) == Ok::<Doc, Error>(Doc::Bool(v)),
    {
        Ok(Node::Bool(v))
    }

    pub fn serialize_i8(self, v: i8) -> (result: Result<Node, Error>)
        ensures
            written(result) == Ok::<Doc, Error>(Doc::Integer(v as int)),
    {
        self.serialize_i64(v as i64)
    }

    pub fn serialize_i16(self, v: i16) -> (result: Result<Node, Error>)
        ensures
            written(result) == Ok::<Doc, Error>(Doc::Integer(v as int)),
    {
        self.serialize_i64(v as i64)
    }

    pub fn serialize_i32(self, v: i32) -> (result: Result<Node, Error>)
        ensures
            written(result) == Ok::<Doc, Error>(Doc::Integer(v as int)),
    {
        self.serialize_i64(v as i64)
    }

    /// The integer node of `v`, cut to the machine word where the word is
    /// narrower than 64 bits.
    pub fn serialize_i64(self, v: i64) -> (result: Result<Node, Error>)
        ensures
            written(result) == Ok::<Doc, Error>(Doc::Integer((v as isize) as int)),
            isize::MIN <= v <= isize::MAX ==> written(result) == Ok::<Doc, Error>(
                Doc::Integer(v as int),
            ),
    {
        Ok(Node::Integer(#[verifier::truncate] (v as isize)))
    }

    pub fn serialize_u8(self, v: u8) -> (result: Result<Node, Error>)
        ensures
            written(result) == Ok::<Doc, Error>(Doc::Integer(v as int)),
    {
        self.serialize_i64(v as i64)
    }

    pub fn serialize_u16(self, v: u16) -> (result: Result<Node, Error>)
        ensures
            written(result) == Ok::<Doc, Error>(Doc::Integer(v as int)),
    {
        self.serialize_i64(v as i64)
    }

    /// The integer node of `v`, cut to the machine word where the word is
    /// narrower than 64 bits.
    pub fn serialize_u32(self, v: u32) -> (result: Result<Node, Error>)
        ensures
            written(result) == Ok::<Doc, Error>(Doc::Integer(((v as i64) as isize) as int)),
            v <= isize::MAX ==> written(result) == Ok::<Doc, Error>(Doc::Integer(v as int)),
    {
        self.serialize_i64(v as i64)
    }

    /// The integer node of `v`, cut to the signed machine word.
    pub fn serialize_u64(self, v: u64) -> (result: Result<Node, Error>)
        ensures
            written(result) == Ok::<Doc, Error>(Doc::Integer((v as isize) as int)),
            v <= isize::MAX ==> written(result) == Ok::<Doc, Error>(Doc::Integer(v as int)),
    {
        Ok(Node::Integer(#[verifier::truncate] (v as isize)))
    }

    /// The float node with the bit pattern `v`.
    pub fn serialize_f64(self, v: u64) -> (result: Result<Node, Error>)
        ensures
            written(result) == Ok::<Doc, Error>(Doc::Float(v)),
    {
        Ok(Node::Float(v))
    }

    /// A character is written as the string that holds it.
    pub fn serialize_char(self, value: char) -> (result: Result<Node, Error>)
        ensures
            written(result) == Ok::<Doc, Error>(Doc::String(seq![value])),
    {
        let text = char_to_string(value);
        self.serialize_str(text.as_str())
    }

    pub fn serialize_str(self, value: &str) -> (result: Result<Node, Error>)
        ensures
            written(result) == Ok::<Doc, Error>(Doc::String(value@)),
    {
        Ok(Node::String(String::from_str(value)))
    }

    /// A byte string is written as an array of integers, one for each byte.
    pub fn serialize_bytes(self, value: &[u8]) -> (result: Result<Node, Error>)
        ensures
            written(result) == Ok::<Doc, Error>(byte_array(value@)),
    {
        let mut vec: Vec<Node> = Vec::new();
        let mut i: usize = 0;
        while i < value.len()
            invariant
                i <= value@.len(),
                vec@.len() == i,
                forall|j: int| 0 <= j < i ==> (#[trigger] vec@[j])@ == Doc::Integer(value@[j] as int),
            decreases value@.len() - i,
        {
            let b: u8 = value[i];
            vec.push(Node::Integer(b as isize));
            i += 1;
        }
        proof {
            lemma_array_view(vec);
            assert(docs_of(vec@) =~= byte_array(value@)->Array_0);
        }
        Ok(Node::Array(vec))
    }

    /// A document has no tag for a valueless unit: it is written as null.
    pub fn serialize_unit(self) -> (result: Result<Node, Error>)
        ensures
            written(result) == Ok::<Doc, Error>(Doc::Null),
    {
        Ok(Node::Null)
    }

    pub fn serialize_unit_struct(self, _name: &str) -> (result: Result<Node, Error>)
        ensures
            written(result) == Ok::<Doc, Error>(Doc::Null),
    {
        self.serialize_unit()
    }

    /// A variant without content is written as the string of its name.
    pub fn serialize_unit_variant(self, _name: &str, _variant_index: u32, variant: &str) -> (result:
        Result<Node, Error>)
        ensures
            written(result) == Ok::<Doc, Error>(Doc::String(variant@)),
    {
        Ok(Node::String(String::from_str(variant)))
    }

    /// A newtype wrapper is written as its content, `value`.
    pub fn serialize_newtype_struct(self, _name: &str, value: Node) -> (result: Result<Node, Error>)
        ensures
            written(result) == Ok::<Doc, Error>(value@),
    {
        Ok(value)
    }

    /// A variant with one value is written as the object `variant: value`.
    pub fn serialize_newtype_variant(
        self,
        _name: &str,
        _variant_index: u32,
        variant: &str,
        value: Node,
    ) -> (result: Result<Node, Error>)
        ensures
            written(result) == Ok::<Doc, Error>(singleton(variant@, value@)),
    {
        Ok(singleton_hash(String::from_str(variant), value))
    }

    /// An absent optional value is written as null.
    pub fn serialize_none(self) -> (result: Result<Node, Error>)
        ensures
            written(result) == Ok::<Doc, Error>(Doc::Null),
    {
        self.serialize_unit()
    }

    /// A present optional value is written as the value itself.
    pub fn serialize_some(self, value: Node) -> (result: Result<Node, Error>)
        ensures
            written(result) == Ok::<Doc, Error>(value@),
    {
        Ok(value)
    }

    /// A builder of an array, empty at first.
    pub fn serialize_seq(self, _len: Option<usize>) -> (result: Result<SerializeArray, Error>)
        ensures
            result matches Ok(builder) && builder@ == Seq::<Doc>::empty(),
    {
        let array: Vec<Node> = Vec::new();
        let builder = SerializeArray { array };
        assert(builder@ =~= Seq::<Doc>::empty());
        Ok(builder)
    }

    pub fn serialize_tuple(self, len: usize) -> (result: Result<SerializeArray, Error>)
        ensures
            result matches Ok(builder) && builder@ == Seq::<Doc>::empty(),
    {
        self.serialize_seq(Some(len))
    }

    pub fn serialize_tuple_struct(self, _name: &str, len: usize) -> (result: Result<
        SerializeArray,
        Error,
    >)
        ensures
            result matches Ok(builder) && builder@ == Seq::<Doc>::empty(),
    {
        self.serialize_seq(Some(len))
    }

    /// A builder of the content of the tuple variant `variant`, empty at
    /// first.
    pub fn serialize_tuple_variant(
        self,
        _enum: &str,
        _idx: u32,
        variant: &'static str,
        _len: usize,
    ) -> (result: Result<SerializeTupleVariant, Error>)
        ensures
            result matches Ok(builder) && builder@ == (Tagged {
                name: variant@,
                content: Seq::<Doc>::empty(),
            }),
    {
        let builder = SerializeTupleVariant { name: variant, array: Vec::new() };
        assert(builder@.content =~= Seq::<Doc>::empty());
        Ok(builder)
    }

    /// A builder of an object, without entries and without a waiting key.
    pub fn serialize_map(self, _len: Option<usize>) -> (result: Result<SerializeMap, Error>)
        ensures
            result matches Ok(builder) && builder@ == (MapState {
                entries: Seq::empty(),
                next_key: None,
            }),
    {
        Ok(SerializeMap { hash: Fields::new(), next_key: None })
    }

    /// A builder of an object, without fields at first.
    pub fn serialize_struct(self, _name: &str, _len: usize) -> (result: Result<
        SerializeStruct,
        Error,
    >)
        ensures
            result matches Ok(builder) && builder@ == Seq::<(Seq<char>, Doc)>::empty(),
    {
        Ok(SerializeStruct { hash: Fields::new() })
    }

    /// A builder of the content of the struct variant `variant`, without
    /// fields at first.
    pub fn serialize_struct_variant(
        self,
        _enum: &str,
        _idx: u32,
        variant: &'static str,
        _len: usize,
    ) -> (result: Result<SerializeStructVariant, Error>)
        ensures
            result matches Ok(builder) && builder@ == (Tagged {
                name: variant@,
                content: Seq::<(Seq<char>, Doc)>::empty(),
            }),
    {
        Ok(SerializeStructVariant { name: variant, hash: Fields::new() })
    }
}

impl SerializeArray {
    /// Adds `elem` behind the elements so far.
    pub fn serialize_element(&mut self, elem: Node) -> (result: Result<(), Error>)
        ensures
            result.is_ok(),
            final(self)@ == old(self)@.push(elem@),
    {
        self.array.push(elem);
        assert(self@ =~= old(self)@.push(elem@));
        Ok(())
    }

    /// Adds the field `value` of a tuple struct behind the fields so far.
    pub fn serialize_field(&mut self, value: Node) -> (result: Result<(), Error>)
        ensures
            result.is_ok(),
            final(self)@ == old(self)@.push(value@),
    {
        self.serialize_element(value)
    }

    /// The array of the elements, in the order in which they came.
    pub fn end(self) -> (result: Result<Node, Error>)
        ensures
            written(result) == Ok::<Doc, Error>(Doc::Array(self@)),
    {
        proof {
            lemma_array_view(self.array);
        }
        Ok(Node::Array(self.array))
    }
}

impl SerializeTupleVariant {
    /// Adds `v` behind the elements so far.
    pub fn serialize_field(&mut self, v: Node) -> (result: Result<(), Error>)
        ensures
            result.is_ok(),
            final(self)@ == (Tagged { name: old(self)@.name, content: old(self)@.content.push(v@) }),
    {
        self.array.push(v);
        assert(self@.content =~= old(self)@.content.push(v@));
        Ok(())
    }

    /// The object `name: [elements]`.
    pub fn end(self) -> (result: Result<Node, Error>)
        ensures
            written(result) == Ok::<Doc, Error>(singleton(self@.name, Doc::Array(self@.content))),
    {
        proof {
            lemma_array_view(self.array);
        }
        Ok(singleton_hash(String::from_str(self.name), Node::Array(self.array)))
    }
}

impl SerializeMap {
    /// Keeps `key`, the text of an entry's key, for the value that follows.
    /// A key that was waiting is replaced; the entries stay as they are.
    pub fn serialize_key(&mut self, key: String) -> (result: Result<(), Error>)
        ensures
            result.is_ok(),
            final(self)@ == (MapState { entries: old(self)@.entries, next_key: Some(key@) }),
    {
        self.next_key = Some(key);
        Ok(())
    }

    /// Whether a key waits for its value.
    pub fn key_waits(&self) -> (waits: bool)
        ensures
            waits == self@.next_key.is_some(),
    {
        self.next_key.is_some()
    }

    /// Takes the key that waits, if one does: none waits afterwards, and
    /// the entries stay as they are.
    pub fn take_key(&mut self) -> (key: Option<String>)
        ensures
            final(self)@ == (MapState { entries: old(self)@.entries, next_key: None }),
            match key {
                Some(text) => old(self)@.next_key == Some(text@),
                None => old(self)@.next_key.is_none(),
            },
    {
        self.next_key.take()
    }

    /// Puts `value` under the key that waits, which then waits no longer.
    pub fn serialize_value(&mut self, value: Node) -> (result: Result<(), Error>)
        requires
            old(self)@.next_key.is_some(),
        ensures
            result.is_ok(),
            final(self)@ == (MapState {
                entries: put(old(self)@.entries, old(self)@.next_key.unwrap(), value@),
                next_key: None,
            }),
            distinct_keys(old(self)@.entries) ==> distinct_keys(final(self)@.entries),
    {
        match self.next_key.take() {
            Some(key) => {
                proof {
                    if distinct_keys(object_entries(self.hash)) {
                        lemma_put_keeps_keys_distinct(object_entries(self.hash), key@, value@);
                    }
                }
                self.hash.insert(key, value);
            },
            None => {},
        }
        Ok(())
    }

    /// Puts `value` under `key` at once. A key that waits goes on waiting.
    pub fn serialize_entry(&mut self, key: String, value: Node) -> (result: Result<(), Error>)
        ensures
            result.is_ok(),
            final(self)@ == (MapState {
                entries: put(old(self)@.entries, key@, value@),
                next_key: old(self)@.next_key,
            }),
            distinct_keys(old(self)@.entries) ==> distinct_keys(final(self)@.entries),
    {
        proof {
            if distinct_keys(object_entries(self.hash)) {
                lemma_put_keeps_keys_distinct(object_entries(self.hash), key@, value@);
            }
        }
        self.hash.insert(key, value);
        Ok(())
    }

    /// The object of the entries.
    pub fn end(self) -> (result: Result<Node, Error>)
        ensures
            written(result) == Ok::<Doc, Error>(Doc::Object(self@.entries)),
    {
        Ok(Node::Object(self.hash))
    }
}

impl SerializeStruct {
    /// Puts `value` under the field name `key`.
    pub fn serialize_field(&mut self, key: &'static str, value: Node) -> (result: Result<
        (),
        Error,
    >)
        ensures
            result.is_ok(),
            final(self)@ == put(old(self)@, key@, value@),
            distinct_keys(old(self)@) ==> distinct_keys(final(self)@),
    {
        proof {
            if distinct_keys(object_entries(self.hash)) {
                lemma_put_keeps_keys_distinct(object_entries(self.hash), key@, value@);
            }
        }
        self.hash.insert(String::from_str(key), value);
        Ok(())
    }

    /// The object of the fields.
    pub fn end(self) -> (result: Result<Node, Error>)
        ensures
            written(result) == Ok::<Doc, Error>(Doc::Object(self@)),
    {
        Ok(Node::Object(self.hash))
    }
}

impl SerializeStructVariant {
    /// Puts `v` under the field name `field`.
    pub fn serialize_field(&mut self, field: &'static str, v: Node) -> (result: Result<(), Error>)
        ensures
            result.is_ok(),
            final(self)@ == (Tagged {
                name: old(self)@.name,
                content: put(old(self)@.content, field@, v@),
            }),
            distinct_keys(old(self)@.content) ==> distinct_keys(final(self)@.content),
    {
        proof {
            if distinct_keys(object_entries(self.hash)) {
                lemma_put_keeps_keys_distinct(object_entries(self.hash), field@, v@);
            }
        }
        self.hash.insert(String::from_str(field), v);
        Ok(())
    }

    /// The object `name: {fields}`.
    pub fn end(self) -> (result: Result<Node, Error>)
        ensures
            written(result) == Ok::<Doc, Error>(
                singleton(self@.name, Doc::Object(self@.content)),
            ),
    {
        Ok(singleton_hash(String::from_str(self.name), Node::Object(self.hash)))
    }
}

} // verus!
