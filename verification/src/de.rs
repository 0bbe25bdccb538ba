//! The reader: narrows the node in focus to the shape that a caller asks for.

use crate::error::Error;
use crate::node::{docs_of, entries_of, lemma_array_view, Doc, Node};
use std::collections::VecDeque;
use vstd::prelude::*;
use vstd::string::StrSliceExecFns;

verus! {

/// A reader with one node in focus.
#[derive(Debug)]
pub struct Deserializer {
    obj: Node,
}

/// The entries that an iteration still has to hand out, first one first, and
/// whether it had none from the start.
pub struct Pending {
    pub entries: Seq<(Seq<char>, Doc)>,
    pub started_empty: bool,
}

impl Pending {
    /// Whether the mark and the entries agree: an iteration that is marked
    /// as having started empty holds no entries. Every iteration is made so
    /// and stays so.
    pub open spec fn coherent(self) -> bool {
        self.started_empty ==> self.entries.len() == 0
    }
}

/// An iteration over the items of an array or the entries of an object.
#[derive(Debug)]
pub struct CommaSeparated {
    is_empty: bool,
    vec: VecDeque<(String, Node)>,
}

/// Access to the one entry of an object that stands for an enum variant.
#[derive(Debug)]
pub struct Enum {
    vec: VecDeque<(String, Node)>,
}

/// What a shape request hands to the caller.
#[derive(Debug)]
pub enum Visit {
    Bool(bool),
    I8(i8),
    I16(i16),
    I32(i32),
    I64(i64),
    I128(i128),
    U8(u8),
    U16(u16),
    U32(u32),
    U64(u64),
    /// The bit pattern of a 64-bit float that the caller rounds to 32 bits.
    F32(u64),
    /// The bit pattern of a 64-bit float.
    F64(u64),
    Char(char),
    String(String),
    /// An absent optional value.
    Absent,
    /// A present optional value: a reader on the same node.
    Present(Deserializer),
    /// The content of a newtype wrapper: a reader on the same node.
    NewtypeStruct(Deserializer),
    Sequence(CommaSeparated),
    Mapping(CommaSeparated),
    /// An enum written as a bare string: the name of a unit variant.
    UnitVariant(String),
    /// An enum written as an object whose first entry names the variant.
    Enum(Enum),
}

/// The value of a [`Visit`].
pub enum VisitView {
    Bool(bool),
    I8(i8),
    I16(i16),
    I32(i32),
    I64(i64),
    I128(i128),
    U8(u8),
    U16(u16),
    U32(u32),
    U64(u64),
    F32(u64),
    F64(u64),
    Char(char),
    String(Seq<char>),
    Absent,
    Present(Doc),
    NewtypeStruct(Doc),
    Sequence(Pending),
    Mapping(Pending),
    UnitVariant(Seq<char>),
    Enum(Seq<(Seq<char>, Doc)>),
}

impl View for Deserializer {
    type V = Doc;

    closed spec fn view(&self) -> Doc {
        self.obj@
    }
}

impl View for CommaSeparated {
    type V = Pending;

    closed spec fn view(&self) -> Pending {
        Pending { entries: entries_of(self.vec@), started_empty: self.is_empty }
    }
}

impl View for Enum {
    type V = Seq<(Seq<char>, Doc)>;

    closed spec fn view(&self) -> Seq<(Seq<char>, Doc)> {
        entries_of(self.vec@)
    }
}

impl View for Visit {
    type V = VisitView;

    open spec fn view(&self) -> VisitView {
        match self {
            Visit::Bool(v) => VisitView::Bool(*v),
            Visit::I8(v) => VisitView::I8(*v),
            Visit::I16(v) => VisitView::I16(*v),
            Visit::I32(v) => VisitView::I32(*v),
            Visit::I64(v) => VisitView::I64(*v),
            Visit::I128(v) => VisitView::I128(*v),
            Visit::U8(v) => VisitView::U8(*v),
            Visit::U16(v) => VisitView::U16(*v),
            Visit::U32(v) => VisitView::U32(*v),
            Visit::U64(v) => VisitView::U64(*v),
            Visit::F32(v) => VisitView::F32(*v),
            Visit::F64(v) => VisitView::F64(*v),
            Visit::Char(v) => VisitView::Char(*v),
            Visit::String(v) => VisitView::String(v@),
            Visit::Absent => VisitView::Absent,
            Visit::Present(reader) => VisitView::Present(reader@),
            Visit::NewtypeStruct(reader) => VisitView::NewtypeStruct(reader@),
            Visit::Sequence(items) => VisitView::Sequence(items@),
            Visit::Mapping(entries) => VisitView::Mapping(entries@),
            Visit::UnitVariant(name) => VisitView::UnitVariant(name@),
            Visit::Enum(access) => VisitView::Enum(access@),
        }
    }
}

/// The value of a request's result.
pub open spec fn outcome(result: Result<Visit, Error>) -> Result<VisitView, Error> {
    match result {
        Ok(visit) => Ok(visit@),
        Err(error) => Err(error),
    }
}

/// The value of the reader that a step of an iteration hands out.
pub open spec fn focus(result: Result<Deserializer, Error>) -> Result<Doc, Error> {
    match result {
        Ok(reader) => Ok(reader@),
        Err(error) => Err(error),
    }
}

/// The entries that a node is iterated by: those of an object in insertion
/// order, the items of an array in order under empty keys, none otherwise.
pub open spec fn entries_in(doc: Doc) -> Seq<(Seq<char>, Doc)> {
    match doc {
        Doc::Object(entries) => entries,
        Doc::Array(items) => Seq::new(items.len(), |i: int| (Seq::<char>::empty(), items[i])),
        _ => Seq::empty(),
    }
}

/// The iteration over a node as it stands before the first step.
pub open spec fn pending_of(doc: Doc) -> Pending {
    Pending { entries: entries_in(doc), started_empty: entries_in(doc).len() == 0 }
}

/// The machine integer that an integer node holds.
pub open spec fn signed_of(doc: Doc) -> Result<isize, Error> {
    match doc {
        Doc::Integer(n) => Ok(n as isize),
        _ => Err(Error::ExpectedInteger(None)),
    }
}

/// The unsigned machine integer that an integer or big-integer node is cut to.
pub open spec fn unsigned_of(doc: Doc) -> Result<usize, Error> {
    match doc {
        Doc::Integer(n) => Ok(n as usize),
        Doc::BigInteger(n) => Ok(n as usize),
        _ => Err(Error::ExpectedInteger(None)),
    }
}

/// The text that a string node holds, or the key of a pair.
pub open spec fn text_of(doc: Doc) -> Result<Seq<char>, Error> {
    match doc {
        Doc::Pair(key, _, _) => Ok(key),
        Doc::String(text) => Ok(text),
        _ => Err(Error::ExpectedString(None)),
    }
}

/// The character of a string node that holds exactly one character.
pub open spec fn char_of(doc: Doc) -> Result<char, Error> {
    match doc {
        Doc::String(text) => if text.len() == 1 {
            Ok(text[0])
        } else {
            Err(Error::ExpectedChar(None))
        },
        _ => Err(Error::ExpectedChar(None)),
    }
}

/// What a request for a boolean ends in.
pub open spec fn bool_request(doc: Doc) -> Result<VisitView, Error> {
    match doc {
        Doc::Bool(b) => Ok(VisitView::Bool(b)),
        _ => Err(Error::ExpectedBoolean(None)),
    }
}

/// What a request for an 8-bit signed integer ends in: the integer of an integer
/// node, cut to 8 bits.
pub open spec fn i8_request(doc: Doc) -> Result<VisitView, Error> {
    match signed_of(doc) {
        Ok(n) => Ok(VisitView::I8(n as i8)),
        Err(error) => Err(error),
    }
}

/// What a request for a 16-bit signed integer ends in.
pub open spec fn i16_request(doc: Doc) -> Result<VisitView, Error> {
    match signed_of(doc) {
        Ok(n) => Ok(VisitView::I16(n as i16)),
        Err(error) => Err(error),
    }
}

/// What a request for a 32-bit signed integer ends in.
pub open spec fn i32_request(doc: Doc) -> Result<VisitView, Error> {
    match signed_of(doc) {
        Ok(n) => Ok(VisitView::I32(n as i32)),
        Err(error) => Err(error),
    }
}

/// What a request for a 64-bit signed integer ends in.
pub open spec fn i64_request(doc: Doc) -> Result<VisitView, Error> {
    match signed_of(doc) {
        Ok(n) => Ok(VisitView::I64(n as i64)),
        Err(error) => Err(error),
    }
}

/// What a request for a wide integer ends in: the integer of a big-integer node.
pub open spec fn i128_request(doc: Doc) -> Result<VisitView, Error> {
    match doc {
        Doc::BigInteger(n) => Ok(VisitView::I128(n as i128)),
        _ => Err(Error::ExpectedInteger(None)),
    }
}

/// What a request for an 8-bit unsigned integer ends in: the integer of an
/// integer or big-integer node, cut to 8 bits.
pub open spec fn u8_request(doc: Doc) -> Result<VisitView, Error> {
    match unsigned_of(doc) {
        Ok(n) => Ok(VisitView::U8(n as u8)),
        Err(error) => Err(error),
    }
}

/// What a request for a 16-bit unsigned integer ends in.
pub open spec fn u16_request(doc: Doc) -> Result<VisitView, Error> {
    match unsigned_of(doc) {
        Ok(n) => Ok(VisitView::U16(n as u16)),
        Err(error) => Err(error),
    }
}

/// What a request for a 32-bit unsigned integer ends in.
pub open spec fn u32_request(doc: Doc) -> Result<VisitView, Error> {
    match unsigned_of(doc) {
        Ok(n) => Ok(VisitView::U32(n as u32)),
        Err(error) => Err(error),
    }
}

/// What a request for a 64-bit unsigned integer ends in.
pub open spec fn u64_request(doc: Doc) -> Result<VisitView, Error> {
    match unsigned_of(doc) {
        Ok(n) => Ok(VisitView::U64(n as u64)),
        Err(error) => Err(error),
    }
}

/// What a request for a 32-bit float ends in: the 64-bit pattern of a float node.
pub open spec fn f32_request(doc: Doc) -> Result<VisitView, Error> {
    match doc {
        Doc::Float(bits) => Ok(VisitView::F32(bits)),
        _ => Err(Error::ExpectedFloat(None)),
    }
}

/// What a request for a 64-bit float ends in.
pub open spec fn f64_request(doc: Doc) -> Result<VisitView, Error> {
    match doc {
        Doc::Float(bits) => Ok(VisitView::F64(bits)),
        _ => Err(Error::ExpectedFloat(None)),
    }
}

/// What a request for a character ends in.
pub open spec fn char_request(doc: Doc) -> Result<VisitView, Error> {
    match char_of(doc) {
        Ok(c) => Ok(VisitView::Char(c)),
        Err(error) => Err(error),
    }
}

/// What a request for a string ends in.
pub open spec fn string_request(doc: Doc) -> Result<VisitView, Error> {
    match text_of(doc) {
        Ok(text) => Ok(VisitView::String(text)),
        Err(error) => Err(error),
    }
}

/// What a request for an optional value ends in: null is absent, any other
/// node is present and is read again as it stands.
pub open spec fn option_request(doc: Doc) -> Result<VisitView, Error> {
    match doc {
        Doc::Null => Ok(VisitView::Absent),
        _ => Ok(VisitView::Present(doc)),
    }
}

/// What a request for a sequence, a tuple or a tuple struct ends in.
pub open spec fn seq_request(doc: Doc) -> Result<VisitView, Error> {
    match doc {
        Doc::Array(_) => Ok(VisitView::Sequence(pending_of(doc))),
        _ => Err(Error::ExpectedArray(None)),
    }
}

/// What a request for a map or a struct ends in.
pub open spec fn map_request(doc: Doc) -> Result<VisitView, Error> {
    match doc {
        Doc::Object(_) => Ok(VisitView::Mapping(pending_of(doc))),
        _ => Err(Error::ExpectedMap(None)),
    }
}

/// What a request for an enum ends in: a string names a unit variant, an
/// object names the variant by the key of its first entry.
pub open spec fn enum_request(doc: Doc) -> Result<VisitView, Error> {
    match doc {
        Doc::String(name) => Ok(VisitView::UnitVariant(name)),
        Doc::Object(entries) => Ok(VisitView::Enum(entries)),
        _ => Err(Error::ExpectedEnum),
    }
}

/// What a request for the name of a field or a variant ends in.
pub open spec fn identifier_request(doc: Doc) -> Result<VisitView, Error> {
    match doc {
        Doc::Pair(key, _, _) => Ok(VisitView::String(key)),
        Doc::String(text) => Ok(VisitView::String(text)),
        _ => Err(Error::ExpectedIdentifier),
    }
}

/// The request that a node's own tag picks.
pub open spec fn any_request(doc: Doc) -> Result<VisitView, Error> {
    match doc {
        Doc::Array(_) => seq_request(doc),
        Doc::BigInteger(_) => i128_request(doc),
        Doc::Bool(_) => bool_request(doc),
        Doc::Float(_) => f64_request(doc),
        Doc::Integer(_) => i64_request(doc),
        Doc::Null => Err(Error::UnitNotSupported),
        Doc::Object(_) => map_request(doc),
        Doc::Pair(_, _, _) => identifier_request(doc),
        Doc::String(_) => string_request(doc),
        Doc::Other => Err(Error::InvalidType),
    }
}

/// The first of the entries as the key/value pair that stands for its key.
pub open spec fn first_pair(entries: Seq<(Seq<char>, Doc)>) -> Result<Doc, Error> {
    if entries.len() > 0 {
        Ok(Doc::Pair(entries[0].0, Box::new(entries[0].1), 0))
    } else {
        Err(Error::ExpectedMap(None))
    }
}

/// The value of the first of the entries.
pub open spec fn first_value(entries: Seq<(Seq<char>, Doc)>) -> Result<Doc, Error> {
    if entries.len() > 0 {
        Ok(entries[0].1)
    } else {
        Err(Error::ExpectedMap(None))
    }
}

/// The key that an iteration over a map hands out next: none where the
/// iteration started empty or has run out. On an iteration whose mark and
/// entries agree, that is: none exactly where no entry is left.
pub open spec fn next_key_of(pending: Pending) -> Option<Doc> {
    if pending.started_empty || pending.entries.len() == 0 {
        None
    } else {
        Some(Doc::Pair(pending.entries[0].0, Box::new(pending.entries[0].1), 0))
    }
}

/// The iteration after its first entry has been taken.
pub open spec fn advance(pending: Pending) -> Pending {
    Pending { entries: pending.entries.drop_first(), started_empty: pending.started_empty }
}

impl Deserializer {
    /// A reader with `obj` in focus.
    pub fn from_gura_type(obj: Node) -> (reader: Deserializer)
        ensures
            reader@ == obj@,
    {
        Deserializer { obj }
    }

    /// The reader on a parsed document, or the error for a text that the
    /// parser refused: `parsed` is the parser's answer, a document or the
    /// message that says why there is none.
    pub fn from_parsed(parsed: Result<Node, String>) -> (result: Result<Deserializer, Error>)
        ensures
            match parsed {
                Ok(document) => result matches Ok(reader) && reader@ == document@,
                Err(message) => result matches Err(Error::Syntax(detail)) && detail@ == message@,
            },
    {
        match parsed {
            Ok(document) => Ok(Deserializer::from_gura_type(document)),
            Err(message) => Err(Error::Syntax(message)),
        }
    }

    /// The boolean of a boolean node.
    pub fn parse_bool(&self) -> (result: Result<bool, Error>)
        ensures
            result == (match self@ {
                Doc::Bool(b) => Ok(b),
                _ => Err(Error::ExpectedBoolean(None)),
            }),
    {
        match &self.obj {
            Node::Bool(boolean) => Ok(*boolean),
            _ => Err(Error::ExpectedBoolean(None)),
        }
    }

    /// The integer of an integer or big-integer node, cut to an unsigned
    /// machine word.
    pub fn parse_unsigned(&self) -> (result: Result<usize, Error>)
        ensures
            result == unsigned_of(self@),
    {
        match &self.obj {
            Node::Integer(int_value) => Ok(#[verifier::truncate] (*int_value as usize)),
            Node::BigInteger(big_int_value) => Ok(#[verifier::truncate] (*big_int_value as usize)),
            _ => Err(Error::ExpectedInteger(None)),
        }
    }

    /// The integer of an integer node.
    pub fn parse_signed(&self) -> (result: Result<isize, Error>)
        ensures
            result == signed_of(self@),
    {
        match &self.obj {
            Node::Integer(int_value) => Ok(*int_value),
            _ => Err(Error::ExpectedInteger(None)),
        }
    }

    /// The bit pattern of a float node.
    pub fn parse_float(&self) -> (result: Result<u64, Error>)
        ensures
            result == (match self@ {
                Doc::Float(bits) => Ok(bits),
                _ => Err(Error::ExpectedFloat(None)),
            }),
    {
        match &self.obj {
            Node::Float(float_value) => Ok(*float_value),
            _ => Err(Error::ExpectedFloat(None)),
        }
    }

    /// The character of a string node that holds exactly one character.
    pub fn parse_char(&self) -> (result: Result<char, Error>)
        ensures
            result == char_of(self@),
    {
        match &self.obj {
            Node::String(text) => {
                let str = text.as_str();
                if str.unicode_len() == 1 {
                    Ok(str.get_char(0))
                } else {
                    Err(Error::ExpectedChar(None))
                }
            },
            _ => Err(Error::ExpectedChar(None)),
        }
    }

    /// The text of a string node, or the key of a pair.
    pub fn parse_string(&self) -> (result: Result<String, Error>)
        ensures
            match text_of(self@) {
                Ok(text) => result matches Ok(owned) && owned@ == text,
                Err(error) => result == Err::<String, Error>(error),
            },
    {
        match &self.obj {
            Node::Pair(key, _, _) => Ok(key.clone()),
            Node::String(str_value) => Ok(str_value.clone()),
            _ => Err(Error::ExpectedString(None)),
        }
    }

    /// Reads the node as whatever its tag says it is.
    pub fn deserialize_any(&self) -> (result: Result<Visit, Error>)
        ensures
            outcome(result) == any_request(self@),
    {
        match &self.obj {
            Node::Array(_) => self.deserialize_seq(),
            Node::BigInteger(_) => self.deserialize_i128(),
            Node::Bool(_) => self.deserialize_bool(),
            Node::Float(_) => self.deserialize_f64(),
            Node::Integer(_) => self.deserialize_i64(),
            Node::Null => self.deserialize_unit(),
            Node::Object(_) => self.deserialize_map(),
            Node::Pair(_, _, _) => self.deserialize_identifier(),
            Node::String(_) => self.deserialize_string(),
            Node::Other => Err(Error::InvalidType),
        }
    }

    pub fn deserialize_bool(&self) -> (result: Result<Visit, Error>)
        ensures
            outcome(result) == bool_request(self@),
    {
        match self.parse_bool() {
            Ok(value) => Ok(Visit::Bool(value)),
            Err(error) => Err(error),
        }
    }

    pub fn deserialize_i8(&self) -> (result: Result<Visit, Error>)
        ensures
            outcome(result) == i8_request(self@),
    {
        match self.parse_signed() {
            Ok(value) => Ok(Visit::I8(#[verifier::truncate] (value as i8))),
            Err(error) => Err(error),
        }
    }

    pub fn deserialize_i16(&self) -> (result: Result<Visit, Error>)
        ensures
            outcome(result) == i16_request(self@),
    {
        match self.parse_signed() {
            Ok(value) => Ok(Visit::I16(#[verifier::truncate] (value as i16))),
            Err(error) => Err(error),
        }
    }

    pub fn deserialize_i32(&self) -> (result: Result<Visit, Error>)
        ensures
            outcome(result) == i32_request(self@),
    {
        match self.parse_signed() {
            Ok(value) => Ok(Visit::I32(#[verifier::truncate] (value as i32))),
            Err(error) => Err(error),
        }
    }

    pub fn deserialize_i64(&self) -> (result: Result<Visit, Error>)
        ensures
            outcome(result) == i64_request(self@),
    {
        match self.parse_signed() {
            Ok(value) => Ok(Visit::I64(value as i64)),
            Err(error) => Err(error),
        }
    }

    /// The wide integer of a big-integer node.
    pub fn deserialize_i128(&self) -> (result: Result<Visit, Error>)
        ensures
            outcome(result) == i128_request(self@),
    {
        match &self.obj {
            Node::BigInteger(value) => Ok(Visit::I128(*value)),
            _ => Err(Error::ExpectedInteger(None)),
        }
    }

    pub fn deserialize_u8(&self) -> (result: Result<Visit, Error>)
        ensures
            outcome(result) == u8_request(self@),
    {
        match self.parse_unsigned() {
            Ok(value) => Ok(Visit::U8(#[verifier::truncate] (value as u8))),
            Err(error) => Err(error),
        }
    }

    pub fn deserialize_u16(&self) -> (result: Result<Visit, Error>)
        ensures
            outcome(result) == u16_request(self@),
    {
        match self.parse_unsigned() {
            Ok(value) => Ok(Visit::U16(#[verifier::truncate] (value as u16))),
            Err(error) => Err(error),
        }
    }

    pub fn deserialize_u32(&self) -> (result: Result<Visit, Error>)
        ensures
            outcome(result) == u32_request(self@),
    {
        match self.parse_unsigned() {
            Ok(value) => Ok(Visit::U32(#[verifier::truncate] (value as u32))),
            Err(error) => Err(error),
        }
    }

    pub fn deserialize_u64(&self) -> (result: Result<Visit, Error>)
        ensures
            outcome(result) == u64_request(self@),
    {
        match self.parse_unsigned() {
            Ok(value) => Ok(Visit::U64(value as u64)),
            Err(error) => Err(error),
        }
    }

    /// The float of a float node, for a caller that wants 32 bits: the
    /// 64-bit pattern is handed out, and the caller rounds it.
    pub fn deserialize_f32(&self) -> (result: Result<Visit, Error>)
        ensures
            outcome(result) == f32_request(self@),
    {
        match self.parse_float() {
            Ok(bits) => Ok(Visit::F32(bits)),
            Err(error) => Err(error),
        }
    }

    pub fn deserialize_f64(&self) -> (result: Result<Visit, Error>)
        ensures
            outcome(result) == f64_request(self@),
    {
        match self.parse_float() {
            Ok(bits) => Ok(Visit::F64(bits)),
            Err(error) => Err(error),
        }
    }

    pub fn deserialize_char(&self) -> (result: Result<Visit, Error>)
        ensures
            outcome(result) == char_request(self@),
    {
        match self.parse_char() {
            Ok(value) => Ok(Visit::Char(value)),
            Err(error) => Err(error),
        }
    }

    pub fn deserialize_str(&self) -> (result: Result<Visit, Error>)
        ensures
            outcome(result) == string_request(self@),
    {
        match self.parse_string() {
            Ok(value) => Ok(Visit::String(value)),
            Err(error) => Err(error),
        }
    }

    pub fn deserialize_string(&self) -> (result: Result<Visit, Error>)
        ensures
            outcome(result) == string_request(self@),
    {
        self.deserialize_str()
    }

    /// A null node is an absent value; any other node is a present one, to
    /// be read again as it stands.
    pub fn deserialize_option(&self) -> (result: Result<Visit, Error>)
        ensures
            outcome(result) == option_request(self@),
    {
        match &self.obj {
            Node::Null => Ok(Visit::Absent),
            _ => Ok(Visit::Present(Deserializer::from_gura_type(self.obj.clone()))),
        }
    }

    /// A document has no valueless unit: this request fails on every node.
    pub fn deserialize_unit(&self) -> (result: Result<Visit, Error>)
        ensures
            outcome(result) == Err::<VisitView, Error>(Error::UnitNotSupported),
    {
        Err(Error::UnitNotSupported)
    }

    pub fn deserialize_unit_struct(&self, _name: &str) -> (result: Result<Visit, Error>)
        ensures
            outcome(result) == Err::<VisitView, Error>(Error::UnitNotSupported),
    {
        self.deserialize_unit()
    }

    /// A newtype wrapper is read through: the same node is read again.
    pub fn deserialize_newtype_struct(&self, _name: &str) -> (result: Result<Visit, Error>)
        ensures
            outcome(result) == Ok::<VisitView, Error>(VisitView::NewtypeStruct(self@)),
    {
        Ok(Visit::NewtypeStruct(Deserializer::from_gura_type(self.obj.clone())))
    }

    /// The items of an array node, as an iteration over a copy of them.
    pub fn deserialize_seq(&self) -> (result: Result<Visit, Error>)
        ensures
            outcome(result) == seq_request(self@),
    {
        match &self.obj {
            Node::Array(_) => {
                let obj = self.obj.clone();
                Ok(Visit::Sequence(CommaSeparated::new(obj)))
            },
            _ => Err(Error::ExpectedArray(None)),
        }
    }

    pub fn deserialize_tuple(&self, _len: usize) -> (result: Result<Visit, Error>)
        ensures
            outcome(result) == seq_request(self@),
    {
        self.deserialize_seq()
    }

    pub fn deserialize_tuple_struct(&self, _name: &str, _len: usize) -> (result: Result<
        Visit,
        Error,
    >)
        ensures
            outcome(result) == seq_request(self@),
    {
        self.deserialize_seq()
    }

    /// The entries of an object node, as an iteration over a copy of them.
    pub fn deserialize_map(&self) -> (result: Result<Visit, Error>)
        ensures
            outcome(result) == map_request(self@),
    {
        match &self.obj {
            Node::Object(_) => {
                let obj_aux = self.obj.clone();
                Ok(Visit::Mapping(CommaSeparated::new(obj_aux)))
            },
            _ => Err(Error::ExpectedMap(None)),
        }
    }

    pub fn deserialize_struct(&self, _name: &str, _fields: &[&str]) -> (result: Result<
        Visit,
        Error,
    >)
        ensures
            outcome(result) == map_request(self@),
    {
        self.deserialize_map()
    }

    /// A string node names a unit variant; an object node names the variant
    /// by the key of its first entry and holds the content as that entry's
    /// value.
    pub fn deserialize_enum(&self, _name: &str, _variants: &[&str]) -> (result: Result<
        Visit,
        Error,
    >)
        ensures
            outcome(result) == enum_request(self@),
    {
        match &self.obj {
            Node::String(name) => Ok(Visit::UnitVariant(name.clone())),
            Node::Object(_) => Ok(Visit::Enum(Enum::new(self.obj.clone()))),
            _ => Err(Error::ExpectedEnum),
        }
    }

    /// The name of a field or a variant: the key of a pair, or a string.
    pub fn deserialize_identifier(&self) -> (result: Result<Visit, Error>)
        ensures
            outcome(result) == identifier_request(self@),
    {
        match &self.obj {
            Node::Pair(key, _, _) => Ok(Visit::String(key.clone())),
            Node::String(text) => Ok(Visit::String(text.clone())),
            _ => Err(Error::ExpectedIdentifier),
        }
    }

    /// A value that the caller will drop is still read as its tag says.
    pub fn deserialize_ignored_any(&self) -> (result: Result<Visit, Error>)
        ensures
            outcome(result) == any_request(self@),
    {
        self.deserialize_any()
    }
}

impl CommaSeparated {
    /// The iteration over the entries of an object or the items of an array;
    /// over any other node it has nothing to hand out.
    pub fn new(obj: Node) -> (items: CommaSeparated)
        ensures
            items@ == pending_of(obj@),
            items@.coherent(),
    {
        let mut it: VecDeque<(String, Node)> = VecDeque::new();
        match obj {
            Node::Object(fields) => {
                let list = fields.to_vec();
                let mut i: usize = 0;
                while i < list.len()
                    invariant
                        i <= list@.len(),
                        it@.len() == i,
                        forall|j: int|
                            0 <= j < i ==> (#[trigger] it@[j]).0@ == list@[j].0@ && it@[j].1@
                                == list@[j].1@,
                    decreases list@.len() - i,
                {
                    let key = list[i].0.clone();
                    let elem = list[i].1.clone();
                    it.push_back((key, elem));
                    i += 1;
                }
                assert(entries_of(it@) =~= entries_of(list@));
            },
            Node::Array(ar) => {
                let mut i: usize = 0;
                while i < ar.len()
                    invariant
                        i <= ar@.len(),
                        it@.len() == i,
                        forall|j: int|
                            0 <= j < i ==> (#[trigger] it@[j]).0@ == Seq::<char>::empty()
                                && it@[j].1@ == ar@[j]@,
                    decreases ar@.len() - i,
                {
                    let elem = ar[i].clone();
                    it.push_back((String::new(), elem));
                    i += 1;
                }
                proof {
                    lemma_array_view(ar);
                    assert(entries_of(it@) =~= entries_in(Doc::Array(docs_of(ar@))));
                }
            },
            _ => {
                assert(entries_of(it@) =~= Seq::<(Seq<char>, Doc)>::empty());
            },
        }
        let is_empty = it.len() == 0;
        CommaSeparated { vec: it, is_empty }
    }

    /// A copy of the first entry that is left.
    pub fn peek_next_elem(&self) -> (result: Result<(String, Node), Error>)
        ensures
            match result {
                Ok(entry) => self@.entries.len() > 0 && (entry.0@, entry.1@) == self@.entries[0],
                Err(error) => self@.entries.len() == 0 && error == Error::ExpectedMap(None),
            },
    {
        if self.vec.len() > 0 {
            let elem = &self.vec[0];
            Ok((elem.0.clone(), elem.1.clone()))
        } else {
            Err(Error::ExpectedMap(None))
        }
    }

    /// Takes the first entry that is left.
    pub fn get_next_elem(&mut self) -> (result: Result<(String, Node), Error>)
        ensures
            match result {
                Ok(entry) => {
                    &&& old(self)@.entries.len() > 0
                    &&& (entry.0@, entry.1@) == old(self)@.entries[0]
                    &&& final(self)@ == advance(old(self)@)
                },
                Err(error) => {
                    &&& old(self)@.entries.len() == 0
                    &&& error == Error::ExpectedMap(None)
                    &&& final(self)@ == old(self)@
                },
            },
            old(self)@.coherent() ==> final(self)@.coherent(),
    {
        match self.vec.pop_front() {
            Some(elem) => {
                assert(entries_of(self.vec@) =~= entries_of(old(self).vec@).drop_first());
                Ok(elem)
            },
            None => Err(Error::ExpectedMap(None)),
        }
    }

    /// Sequence mode: takes the first entry that is left and hands out a
    /// reader on its node, or nothing once the entries have run out.
    pub fn next_element(&mut self) -> (result: Option<Deserializer>)
        ensures
            match result {
                Some(reader) => {
                    &&& old(self)@.entries.len() > 0
                    &&& reader@ == old(self)@.entries[0].1
                    &&& final(self)@ == advance(old(self)@)
                },
                None => old(self)@.entries.len() == 0 && final(self)@ == old(self)@,
            },
            old(self)@.coherent() ==> final(self)@.coherent(),
    {
        match self.get_next_elem() {
            Ok(entry) => Some(Deserializer::from_gura_type(entry.1)),
            Err(_) => None,
        }
    }

    /// Map mode: a reader on the first entry that is left, wrapped as a pair
    /// so that its key can be read as a value. The entry stays in place. An
    /// iteration that started without entries, or has run out of them, hands
    /// out nothing.
    pub fn next_key(&self) -> (result: Option<Deserializer>)
        ensures
            match next_key_of(self@) {
                Some(pair) => result matches Some(reader) && reader@ == pair,
                None => result.is_none(),
            },
            self@.coherent() ==> (result.is_none() <==> self@.entries.len() == 0),
    {
        if self.is_empty {
            return None;
        }
        match self.peek_next_elem() {
            Ok(entry) => Some(
                Deserializer::from_gura_type(Node::Pair(entry.0, Box::new(entry.1), 0)),
            ),
            Err(_) => None,
        }
    }

    /// Map mode: takes the first entry that is left and hands out a reader
    /// on its value.
    pub fn next_value(&mut self) -> (result: Result<Deserializer, Error>)
        ensures
            focus(result) == first_value(old(self)@.entries),
            final(self)@ == (if old(self)@.entries.len() > 0 {
                advance(old(self)@)
            } else {
                old(self)@
            }),
            old(self)@.coherent() ==> final(self)@.coherent(),
    {
        match self.get_next_elem() {
            Ok(entry) => Ok(Deserializer::from_gura_type(entry.1)),
            Err(error) => Err(error),
        }
    }
}

impl Enum {
    /// Access to the entries of an object node.
    pub fn new(obj: Node) -> (access: Enum)
        ensures
            access@ == entries_in(obj@),
    {
        let items = CommaSeparated::new(obj);
        Enum { vec: items.vec }
    }

    /// A copy of the first entry.
    pub fn peek_next_elem(&self) -> (result: Result<(String, Node), Error>)
        ensures
            match result {
                Ok(entry) => self@.len() > 0 && (entry.0@, entry.1@) == self@[0],
                Err(error) => self@.len() == 0 && error == Error::ExpectedMap(None),
            },
    {
        if self.vec.len() > 0 {
            let elem = &self.vec[0];
            Ok((elem.0.clone(), elem.1.clone()))
        } else {
            Err(Error::ExpectedMap(None))
        }
    }

    /// A reader on the first entry, wrapped as a pair so that its key can be
    /// read as the name of the variant.
    pub fn variant(&self) -> (result: Result<Deserializer, Error>)
        ensures
            focus(result) == first_pair(self@),
    {
        match self.peek_next_elem() {
            Ok(entry) => Ok(
                Deserializer::from_gura_type(Node::Pair(entry.0, Box::new(entry.1), 0)),
            ),
            Err(error) => Err(error),
        }
    }

    /// An object never stands for a unit variant, which is written as a bare
    /// string: this fails whatever the entries are.
    pub fn unit_variant(self) -> (result: Result<(), Error>)
        ensures
            result == Err::<(), Error>(Error::ExpectedUnitVariant),
    {
        Err(Error::ExpectedUnitVariant)
    }

    /// A reader on the value of the first entry: the content of a newtype
    /// variant.
    pub fn newtype_variant(self) -> (result: Result<Deserializer, Error>)
        ensures
            focus(result) == first_value(self@),
    {
        match self.peek_next_elem() {
            Ok(entry) => Ok(Deserializer::from_gura_type(entry.1)),
            Err(error) => Err(error),
        }
    }

    /// The content of a tuple variant: the value of the first entry, read as
    /// a sequence.
    pub fn tuple_variant(self, _len: usize) -> (result: Result<Visit, Error>)
        ensures
            outcome(result) == (match first_value(self@) {
                Ok(value) => seq_request(value),
                Err(error) => Err(error),
            }),
    {
        match self.peek_next_elem() {
            Ok(entry) => {
                let de = Deserializer::from_gura_type(entry.1);
                de.deserialize_seq()
            },
            Err(error) => Err(error),
        }
    }

    /// The content of a struct variant: the value of the first entry, read
    /// as a map.
    pub fn struct_variant(self, _fields: &[&str]) -> (result: Result<Visit, Error>)
        ensures
            outcome(result) == (match first_value(self@) {
                Ok(value) => map_request(value),
                Err(error) => Err(error),
            }),
    {
        match self.peek_next_elem() {
            Ok(entry) => {
                let de = Deserializer::from_gura_type(entry.1);
                de.deserialize_map()
            },
            Err(error) => Err(error),
        }
    }
}

} // verus!
