use gura::GuraType;
use serde_gura::de::{CommaSeparated, Deserializer, Enum, Visit};
use serde_gura::error::Error;
use serde_gura::node::Node;
use serde_gura::ser::Serializer;
use std::collections::HashMap;

// From the parser's tree to the library's, and back.

fn to_node(value: &GuraType) -> Node {
    match value {
        GuraType::Null => Node::Null,
        GuraType::Bool(b) => Node::Bool(*b),
        GuraType::Integer(n) => Node::Integer(*n),
        GuraType::BigInteger(n) => Node::BigInteger(*n),
        GuraType::Float(f) => Node::Float(f.to_bits()),
        GuraType::String(s) => Node::String(s.clone()),
        GuraType::Array(items) => Node::Array(items.iter().map(to_node).collect()),
        GuraType::Object(entries) => {
            let mut builder = Serializer.serialize_map(None).unwrap();
            for (key, entry) in entries.iter() {
                builder.serialize_entry(key.clone(), to_node(entry)).unwrap();
            }
            builder.end().unwrap()
        }
        GuraType::Pair(key, entry, aux) => Node::Pair(key.clone(), Box::new(to_node(entry)), *aux),
        _ => Node::Other,
    }
}

fn to_gura(node: &Node) -> GuraType {
    match node {
        Node::Null | Node::Other => GuraType::Null,
        Node::Bool(b) => GuraType::Bool(*b),
        Node::Integer(n) => GuraType::Integer(*n),
        Node::BigInteger(n) => GuraType::BigInteger(*n),
        Node::Float(bits) => GuraType::Float(f64::from_bits(*bits)),
        Node::String(s) => GuraType::String(s.clone()),
        Node::Array(items) => GuraType::Array(items.iter().map(to_gura).collect()),
        Node::Object(_) => {
            let mut entries = CommaSeparated::new(node.clone());
            let mut object = Vec::new();
            while let Ok((key, entry)) = entries.get_next_elem() {
                object.push((key, to_gura(&entry)));
            }
            GuraType::Object(object.into_iter().collect())
        }
        Node::Pair(key, entry, aux) => GuraType::Pair(key.clone(), Box::new(to_gura(entry)), *aux),
    }
}

fn reader(text: &str) -> Result<Deserializer, Error> {
    let parsed = gura::parse(text)
        .map(|document| to_node(&document))
        .map_err(|error| error.to_string());
    Deserializer::from_parsed(parsed)
}

// What a derived decoder does, written out by hand.

fn read_u16(de: &Deserializer) -> Result<u16, Error> {
    match de.deserialize_u16()? {
        Visit::U16(v) => Ok(v),
        other => panic!("unexpected {:?}", other),
    }
}

fn read_u32(de: &Deserializer) -> Result<u32, Error> {
    match de.deserialize_u32()? {
        Visit::U32(v) => Ok(v),
        other => panic!("unexpected {:?}", other),
    }
}

fn read_i32(de: &Deserializer) -> Result<i32, Error> {
    match de.deserialize_i32()? {
        Visit::I32(v) => Ok(v),
        other => panic!("unexpected {:?}", other),
    }
}

fn read_bool(de: &Deserializer) -> Result<bool, Error> {
    match de.deserialize_bool()? {
        Visit::Bool(v) => Ok(v),
        other => panic!("unexpected {:?}", other),
    }
}

fn read_f32(de: &Deserializer) -> Result<f32, Error> {
    match de.deserialize_f32()? {
        Visit::F32(bits) => Ok(f64::from_bits(bits) as f32),
        other => panic!("unexpected {:?}", other),
    }
}

fn read_char(de: &Deserializer) -> Result<char, Error> {
    match de.deserialize_char()? {
        Visit::Char(v) => Ok(v),
        other => panic!("unexpected {:?}", other),
    }
}

fn read_string(de: &Deserializer) -> Result<String, Error> {
    match de.deserialize_string()? {
        Visit::String(v) => Ok(v),
        other => panic!("unexpected {:?}", other),
    }
}

fn read_identifier(de: &Deserializer) -> Result<String, Error> {
    match de.deserialize_identifier()? {
        Visit::String(v) => Ok(v),
        other => panic!("unexpected {:?}", other),
    }
}

fn read_unit(de: &Deserializer) -> Result<(), Error> {
    de.deserialize_unit().map(|_| ())
}

fn read_option_bool(de: &Deserializer) -> Result<Option<bool>, Error> {
    match de.deserialize_option()? {
        Visit::Absent => Ok(None),
        Visit::Present(inner) => read_bool(&inner).map(Some),
        other => panic!("unexpected {:?}", other),
    }
}

fn read_seq<T>(
    de: &Deserializer,
    read: fn(&Deserializer) -> Result<T, Error>,
) -> Result<Vec<T>, Error> {
    match de.deserialize_seq()? {
        Visit::Sequence(items) => drain(items, read),
        other => panic!("unexpected {:?}", other),
    }
}

fn drain<T>(
    mut items: CommaSeparated,
    read: fn(&Deserializer) -> Result<T, Error>,
) -> Result<Vec<T>, Error> {
    let mut out = Vec::new();
    while let Some(element) = items.next_element() {
        out.push(read(&element)?);
    }
    Ok(out)
}

/// Walks the entries of a map: `on_entry` gets each key and the reader on
/// its value, and says whether it knew the key; the value of a key that it
/// did not know is read and dropped.
fn walk<F>(mut entries: CommaSeparated, mut on_entry: F) -> Result<(), Error>
where
    F: FnMut(&str, &Deserializer) -> Result<bool, Error>,
{
    while let Some(key) = entries.next_key() {
        let name = read_identifier(&key)?;
        let value = entries.next_value()?;
        if !on_entry(&name, &value)? {
            value.deserialize_ignored_any()?;
        }
    }
    Ok(())
}

fn read_struct<F>(de: &Deserializer, fields: &[&str], on_entry: F) -> Result<(), Error>
where
    F: FnMut(&str, &Deserializer) -> Result<bool, Error>,
{
    match de.deserialize_struct("", fields)? {
        Visit::Mapping(entries) => walk(entries, on_entry),
        other => panic!("unexpected {:?}", other),
    }
}

/// The name of the variant, and the access to its content where the enum
/// was written as an object.
fn read_variant(de: &Deserializer, variants: &[&str]) -> Result<(String, Option<Enum>), Error> {
    match de.deserialize_enum("", variants)? {
        Visit::UnitVariant(name) => Ok((name, None)),
        Visit::Enum(access) => {
            let name = read_identifier(&access.variant()?)?;
            Ok((name, Some(access)))
        }
        other => panic!("unexpected {:?}", other),
    }
}

// Some common structs

#[derive(Debug, PartialEq)]
struct TangoSinger {
    name: String,
    surname: String,
    year_of_birth: u16,
}

fn read_tango_singer(de: &Deserializer) -> Result<TangoSinger, Error> {
    let mut name = None;
    let mut surname = None;
    let mut year_of_birth = None;
    read_struct(de, &["name", "surname", "year_of_birth"], |key, value| {
        match key {
            "name" => name = Some(read_string(value)?),
            "surname" => surname = Some(read_string(value)?),
            "year_of_birth" => year_of_birth = Some(read_u16(value)?),
            _ => return Ok(false),
        }
        Ok(true)
    })?;
    Ok(TangoSinger {
        name: name.unwrap(),
        surname: surname.unwrap(),
        year_of_birth: year_of_birth.unwrap(),
    })
}

#[derive(Debug, PartialEq)]
struct Object {
    tango_singer: TangoSinger,
}

fn read_object(de: &Deserializer) -> Result<Object, Error> {
    let mut tango_singer = None;
    read_struct(de, &["tango_singer"], |key, value| {
        match key {
            "tango_singer" => tango_singer = Some(read_tango_singer(value)?),
            _ => return Ok(false),
        }
        Ok(true)
    })?;
    Ok(Object { tango_singer: tango_singer.unwrap() })
}

#[test]
fn de_tests_test_struct() {
    #[derive(PartialEq, Debug)]
    struct Test {
        int: u32,
        seq: Vec<String>,
    }

    let gura_str = r#"int: 1
seq: ["a", "b"]"#;
    let expected = Test {
        int: 1,
        seq: vec!["a".to_owned(), "b".to_owned()],
    };

    let de = reader(gura_str).unwrap();
    let mut int = None;
    let mut seq = None;
    read_struct(&de, &["int", "seq"], |key, value| {
        match key {
            "int" => int = Some(read_u32(value)?),
            "seq" => seq = Some(read_seq(value, read_string)?),
            _ => return Ok(false),
        }
        Ok(true)
    })
    .unwrap();
    assert_eq!(expected, Test { int: int.unwrap(), seq: seq.unwrap() });
}

#[derive(Debug, PartialEq)]
enum TestEnum {
    Unit,
    WithParam(i32),
    WithTuple((i32, i32, i32, i32)),
    TupleVariant(i32, i32),
    StructVariant { id: String },
}

fn read_test_enum(de: &Deserializer) -> Result<TestEnum, Error> {
    let variants = ["Unit", "WithParam", "WithTuple", "TupleVariant", "StructVariant"];
    let (name, access) = read_variant(de, &variants)?;
    match (name.as_str(), access) {
        ("Unit", None) => Ok(TestEnum::Unit),
        ("Unit", Some(access)) => access.unit_variant().map(|_| TestEnum::Unit),
        ("WithParam", Some(access)) => Ok(TestEnum::WithParam(read_i32(&access.newtype_variant()?)?)),
        ("WithTuple", Some(access)) => {
            let inner = access.newtype_variant()?;
            match inner.deserialize_tuple(4)? {
                Visit::Sequence(items) => {
                    let v = drain(items, read_i32)?;
                    Ok(TestEnum::WithTuple((v[0], v[1], v[2], v[3])))
                }
                other => panic!("unexpected {:?}", other),
            }
        }
        ("TupleVariant", Some(access)) => match access.tuple_variant(2)? {
            Visit::Sequence(items) => {
                let v = drain(items, read_i32)?;
                Ok(TestEnum::TupleVariant(v[0], v[1]))
            }
            other => panic!("unexpected {:?}", other),
        },
        ("StructVariant", Some(access)) => match access.struct_variant(&["id"])? {
            Visit::Mapping(entries) => {
                let mut id = None;
                walk(entries, |key, value| {
                    match key {
                        "id" => id = Some(read_string(value)?),
                        _ => return Ok(false),
                    }
                    Ok(true)
                })?;
                Ok(TestEnum::StructVariant { id: id.unwrap() })
            }
            other => panic!("unexpected {:?}", other),
        },
        (other, _) => panic!("unknown variant {}", other),
    }
}

#[test]
fn test_mixed() {
    #[derive(Debug, PartialEq)]
    struct EmptyStruct {}

    #[derive(PartialEq, Debug)]
    struct TestStruct {
        int: u32,
        seq: Vec<String>,
        bool: bool,
        float: f32,
        char: char,
        enums: TestEnum,
        enums_2: TestEnum,
        enums_3: TestEnum,
        enums_4: TestEnum,
        enums_5: TestEnum,
        optional: Option<bool>,
        optional_2: Option<bool>,
        empty_struct: EmptyStruct,
    }

    let gura_str = r#"
int: 1
seq: ["a", "b"]
bool: true
float: 33.9
char: 'a'
enums: "Unit"
enums_2:
    WithParam: 33
enums_3:
    WithTuple: [1, 2, 3, 4]
enums_4:
    TupleVariant: [1, 2]
enums_5:
    StructVariant:
        id: "String ID!"
optional: null
optional_2: false
empty_struct: empty
"#;

    let expected = TestStruct {
        int: 1,
        seq: vec!["a".to_owned(), "b".to_owned()],
        bool: true,
        float: 33.9,
        char: 'a',
        enums: TestEnum::Unit,
        enums_2: TestEnum::WithParam(33),
        enums_3: TestEnum::WithTuple((1, 2, 3, 4)),
        enums_4: TestEnum::TupleVariant(1, 2),
        enums_5: TestEnum::StructVariant {
            id: "String ID!".to_string(),
        },
        optional: None,
        optional_2: Some(false),
        empty_struct: EmptyStruct {},
    };

    let de = reader(gura_str).unwrap();
    let mut int = None;
    let mut seq = None;
    let mut bool = None;
    let mut float = None;
    let mut char = None;
    let mut enums = Vec::new();
    let mut optional = None;
    let mut optional_2 = None;
    let mut empty_struct = None;
    read_struct(&de, &[], |key, value| {
        match key {
            "int" => int = Some(read_u32(value)?),
            "seq" => seq = Some(read_seq(value, read_string)?),
            "bool" => bool = Some(read_bool(value)?),
            "float" => float = Some(read_f32(value)?),
            "char" => char = Some(read_char(value)?),
            "enums" | "enums_2" | "enums_3" | "enums_4" | "enums_5" => {
                enums.push(read_test_enum(value)?)
            }
            "optional" => optional = Some(read_option_bool(value)?),
            "optional_2" => optional_2 = Some(read_option_bool(value)?),
            "empty_struct" => {
                read_struct(value, &[], |_, _| Ok(false))?;
                empty_struct = Some(EmptyStruct {});
            }
            _ => return Ok(false),
        }
        Ok(true)
    })
    .unwrap();
    let mut enums = enums.into_iter();
    let decoded = TestStruct {
        int: int.unwrap(),
        seq: seq.unwrap(),
        bool: bool.unwrap(),
        float: float.unwrap(),
        char: char.unwrap(),
        enums: enums.next().unwrap(),
        enums_2: enums.next().unwrap(),
        enums_3: enums.next().unwrap(),
        enums_4: enums.next().unwrap(),
        enums_5: enums.next().unwrap(),
        optional: optional.unwrap(),
        optional_2: optional_2.unwrap(),
        empty_struct: empty_struct.unwrap(),
    };

    assert_eq!(expected, decoded);
}

#[test]
fn test_invalid_unit() {
    let gura_str = r#"unit: null"#;
    let de = reader(gura_str).unwrap();
    let your_error = read_struct(&de, &["unit"], |key, value| {
        match key {
            "unit" => read_unit(value)?,
            _ => return Ok(false),
        }
        Ok(true)
    })
    .unwrap_err();
    assert_eq!(Error::UnitNotSupported, your_error);
}

#[test]
fn test_objects_with_array() {
    #[derive(Debug, PartialEq)]
    struct TangoSingers {
        tango_singers: Vec<TangoSinger>,
    }

    let gura_string = r#"
# This is a Gura document.

# Array of objects
tango_singers: [
    name: "Carlos"
    surname: "Gardel"
    year_of_birth: 1890,

    name: "Aníbal"
    surname: "Troilo"
    year_of_birth: 1914
]

# Other objects
key: "value"
why: "to demostrate, to show case"
What: "not all Gura doc changes are data structure or code changes"

"#;

    let de = reader(gura_string).unwrap();
    let mut singers = None;
    read_struct(&de, &["tango_singers"], |key, value| {
        match key {
            "tango_singers" => singers = Some(read_seq(value, read_tango_singer)?),
            _ => return Ok(false),
        }
        Ok(true)
    })
    .unwrap();
    let tango_singers = TangoSingers { tango_singers: singers.unwrap() };
    let expected = TangoSingers {
        tango_singers: vec![
            TangoSinger {
                name: "Carlos".to_string(),
                surname: "Gardel".to_string(),
                year_of_birth: 1890,
            },
            TangoSinger {
                name: "Aníbal".to_string(),
                surname: "Troilo".to_string(),
                year_of_birth: 1914,
            },
        ],
    };

    assert_eq!(tango_singers, expected);
}

#[test]
fn test_objects_with_partial() {
    let gura_string = r#"
# This is a Gura document.

# Array of objects
tango_singer:
    name: "Carlos"
    surname: "Gardel"
    year_of_birth: 1890

# Other objects
key: "value"
why: "to demonstrate, to showcase"
what: "not all Gura doc changes are data structure or code changes"

"#;

    // Extracts only tango_singer data ignoring other objects
    let tango_singers: Object = read_object(&reader(gura_string).unwrap()).unwrap();
    let expected = Object {
        tango_singer: TangoSinger {
            name: "Carlos".to_string(),
            surname: "Gardel".to_string(),
            year_of_birth: 1890,
        },
    };

    assert_eq!(tango_singers, expected);
}

#[test]
fn test_objects_with_direct_access() {
    // Tests direct access without wrapper object
    let gura_string = r#"
tango_singer:
    name: "Carlos"
    surname: "Gardel"
    year_of_birth: 1890
"#;

    // Avoid to get the wrapped struct to access to the TangoSinger data
    let de = reader(gura_string).unwrap();
    let mut tango_singer: HashMap<String, TangoSinger> = HashMap::new();
    match de.deserialize_map().unwrap() {
        Visit::Mapping(mut entries) => {
            while let Some(key) = entries.next_key() {
                let name = read_string(&key).unwrap();
                let value = read_tango_singer(&entries.next_value().unwrap()).unwrap();
                tango_singer.insert(name, value);
            }
        }
        other => panic!("unexpected {:?}", other),
    }
    let expected = TangoSinger {
        name: "Carlos".to_string(),
        surname: "Gardel".to_string(),
        year_of_birth: 1890,
    };

    assert_eq!(*tango_singer.get("tango_singer").unwrap(), expected);
}

// Enums tests

#[derive(PartialEq, Debug)]
struct Database {
    ip: String,
    port: Vec<u16>,
    connection_max: u32,
    enabled: bool,
}

fn the_database() -> Database {
    Database {
        ip: "127.0.0.1".to_string(),
        port: vec![80, 8080],
        connection_max: 1200,
        enabled: true,
    }
}

/// Writes the fields of a database behind the entries in `lead`.
fn write_database(lead: &[(&'static str, Node)], database: &Database) -> Node {
    let mut builder = Serializer.serialize_struct("Database", 4 + lead.len()).unwrap();
    for (key, value) in lead {
        builder.serialize_field(key, value.clone()).unwrap();
    }
    builder
        .serialize_field("ip", Serializer.serialize_str(&database.ip).unwrap())
        .unwrap();
    let mut port = Serializer.serialize_seq(Some(database.port.len())).unwrap();
    for p in &database.port {
        port.serialize_element(Serializer.serialize_u16(*p).unwrap()).unwrap();
    }
    builder.serialize_field("port", port.end().unwrap()).unwrap();
    builder
        .serialize_field(
            "connection_max",
            Serializer.serialize_u32(database.connection_max).unwrap(),
        )
        .unwrap();
    builder
        .serialize_field("enabled", Serializer.serialize_bool(database.enabled).unwrap())
        .unwrap();
    builder.end().unwrap()
}

/// Reads a database from the entries of a map, and with it the value of the
/// entry `tag`, where there is one.
fn read_database(entries: CommaSeparated, tag: &str) -> Result<(Option<String>, Database), Error> {
    let mut found = None;
    let mut ip = None;
    let mut port = None;
    let mut connection_max = None;
    let mut enabled = None;
    walk(entries, |key, value| {
        match key {
            "ip" => ip = Some(read_string(value)?),
            "port" => port = Some(read_seq(value, read_u16)?),
            "connection_max" => connection_max = Some(read_u32(value)?),
            "enabled" => enabled = Some(read_bool(value)?),
            other if other == tag => found = Some(read_string(value)?),
            _ => return Ok(false),
        }
        Ok(true)
    })?;
    let database = Database {
        ip: ip.unwrap(),
        port: port.unwrap(),
        connection_max: connection_max.unwrap(),
        enabled: enabled.unwrap(),
    };
    Ok((found, database))
}

fn entries_of_any(de: &Deserializer) -> CommaSeparated {
    match de.deserialize_any().unwrap() {
        Visit::Mapping(entries) => entries,
        other => panic!("unexpected {:?}", other),
    }
}

#[test]
fn de_tests_test_enum() {
    #[derive(PartialEq, Debug)]
    enum E {
        Unit,
        Newtype(u32),
        Tuple(u32, u32),
        Struct { a: u32 },
    }

    fn read_e(de: &Deserializer) -> Result<E, Error> {
        let (name, access) = read_variant(de, &["Unit", "Newtype", "Tuple", "Struct"])?;
        match (name.as_str(), access) {
            ("Unit", None) => Ok(E::Unit),
            ("Newtype", Some(access)) => Ok(E::Newtype(read_u32(&access.newtype_variant()?)?)),
            ("Tuple", Some(access)) => match access.tuple_variant(2)? {
                Visit::Sequence(items) => {
                    let v = drain(items, read_u32)?;
                    Ok(E::Tuple(v[0], v[1]))
                }
                other => panic!("unexpected {:?}", other),
            },
            ("Struct", Some(access)) => match access.struct_variant(&["a"])? {
                Visit::Mapping(entries) => {
                    let mut a = None;
                    walk(entries, |key, value| {
                        match key {
                            "a" => a = Some(read_u32(value)?),
                            _ => return Ok(false),
                        }
                        Ok(true)
                    })?;
                    Ok(E::Struct { a: a.unwrap() })
                }
                other => panic!("unexpected {:?}", other),
            },
            (other, _) => panic!("unknown variant {}", other),
        }
    }

    let gura_str = r#"Newtype: 1"#;
    let expected = E::Newtype(1);
    assert_eq!(expected, read_e(&reader(gura_str).unwrap()).unwrap());

    let gura_str = r#"Tuple: [1, 2]"#;
    let expected = E::Tuple(1, 2);
    assert_eq!(expected, read_e(&reader(gura_str).unwrap()).unwrap());

    let gura_str = r#"Struct:
    a: 1
# Some other object
key: "value""#;
    let expected = E::Struct { a: 1 };
    assert_eq!(expected, read_e(&reader(gura_str).unwrap()).unwrap());

    let unit = Deserializer::from_gura_type(Node::String("Unit".to_string()));
    assert_eq!(E::Unit, read_e(&unit).unwrap());
}

#[test]
fn test_enum_internally_tagged() {
    #[derive(PartialEq, Debug)]
    enum MyEnum {
        Database(Database),
    }

    // You have some type.
    let expected = MyEnum::Database(the_database());

    // The variant's name travels as the field `type` before the fields.
    let MyEnum::Database(database) = &expected;
    let tag = Serializer.serialize_str("database").unwrap();
    let written = write_database(&[("type", tag)], database);
    let expected_str = gura::dump(&to_gura(&written));

    // Deserialize it back to a Rust type
    let de = reader(&expected_str).unwrap();
    let (tag, database) = read_database(entries_of_any(&de), "type").unwrap();
    assert_eq!(tag.as_deref(), Some("database"));
    let deserialized_database = MyEnum::Database(database);

    assert_eq!(deserialized_database, expected);
}

#[test]
fn test_enum_untagged() {
    #[derive(PartialEq, Debug)]
    enum MyEnum {
        Database(Database),
    }

    // You have some type.
    let expected = MyEnum::Database(the_database());

    // Without a tag the variant is written as its content alone.
    let MyEnum::Database(database) = &expected;
    let written = write_database(&[], database);
    let expected_str = gura::dump(&to_gura(&written));

    // Deserialize it back to a Rust type
    let de = reader(&expected_str).unwrap();
    let (tag, database) = read_database(entries_of_any(&de), "").unwrap();
    assert_eq!(tag, None);
    let deserialized_database = MyEnum::Database(database);

    assert_eq!(deserialized_database, expected);
}

#[test]
fn test_enum_adjacently_tagged() {
    #[derive(PartialEq, Debug)]
    enum MyEnum {
        Database(Database),
    }

    // You have some type.
    let expected = MyEnum::Database(the_database());

    // The variant's name travels as the field `t`, its content as `c`.
    let MyEnum::Database(database) = &expected;
    let mut builder = Serializer.serialize_struct("MyEnum", 2).unwrap();
    builder
        .serialize_field("t", Serializer.serialize_str("database").unwrap())
        .unwrap();
    builder.serialize_field("c", write_database(&[], database)).unwrap();
    let expected_str = gura::dump(&to_gura(&builder.end().unwrap()));

    // Deserialize it back to a Rust type
    let de = reader(&expected_str).unwrap();
    let mut tag = None;
    let mut content = None;
    read_struct(&de, &["t", "c"], |key, value| {
        match key {
            "t" => tag = Some(read_string(value)?),
            "c" => content = Some(read_database(entries_of_any(value), "")?.1),
            _ => return Ok(false),
        }
        Ok(true)
    })
    .unwrap();
    assert_eq!(tag.as_deref(), Some("database"));
    let deserialized_database = MyEnum::Database(content.unwrap());

    assert_eq!(deserialized_database, expected);
}

/// Tests some issues with numeric keys: keys that look like numbers are
/// read as strings, each with its value, and the numbers are parsed here.
#[test]
fn test_numeric_object_keys() {
    #[derive(Debug, PartialEq)]
    struct Values {
        session_id: String,
        sequence: u32,
    }

    #[derive(Debug, PartialEq)]
    struct Shards {
        resumable_shards: HashMap<usize, Values>,
    }

    fn read_values(de: &Deserializer) -> Result<Values, Error> {
        let mut session_id = None;
        let mut sequence = None;
        read_struct(de, &["session_id", "sequence"], |key, value| {
            match key {
                "session_id" => session_id = Some(read_string(value)?),
                "sequence" => sequence = Some(read_u32(value)?),
                _ => return Ok(false),
            }
            Ok(true)
        })?;
        Ok(Values { session_id: session_id.unwrap(), sequence: sequence.unwrap() })
    }

    let gura_string = r#"
resumable_shards:
    0:
        session_id: "Session 1"
        sequence: 2
    19:
        session_id: "Session 2"
        sequence: 29"#;

    // Creates expected shards struct
    let mut values = HashMap::new();
    values.insert(
        0,
        Values {
            session_id: "Session 1".to_string(),
            sequence: 2,
        },
    );
    values.insert(
        19,
        Values {
            session_id: "Session 2".to_string(),
            sequence: 29,
        },
    );
    let expected = Shards {
        resumable_shards: values,
    };

    // Deserialize it back to a Rust type
    let de = reader(gura_string).unwrap();
    let mut shards = HashMap::new();
    read_struct(&de, &["resumable_shards"], |key, value| {
        match key {
            "resumable_shards" => match value.deserialize_map()? {
                Visit::Mapping(mut entries) => {
                    while let Some(key) = entries.next_key() {
                        // A key is handed out as a pair, and the reader
                        // answers a request for an integer on a pair with
                        // the error for it: it makes no numbers of keys.
                        assert!(matches!(
                            key.deserialize_u64(),
                            Err(Error::ExpectedInteger(None))
                        ));
                        assert_eq!(key.parse_unsigned(), Err(Error::ExpectedInteger(None)));
                        // So the key is read as the string that it is, and
                        // this test, not the reader, makes the number of it.
                        let number: usize = read_string(&key)?.parse().unwrap();
                        shards.insert(number, read_values(&entries.next_value()?)?);
                    }
                }
                other => panic!("unexpected {:?}", other),
            },
            _ => return Ok(false),
        }
        Ok(true)
    })
    .unwrap();
    let deserialized_shards = Shards { resumable_shards: shards };

    assert_eq!(deserialized_shards, expected);
}

#[test]
fn a_text_that_does_not_parse_is_a_syntax_error() {
    match reader("seq: [1, 2") {
        Err(Error::Syntax(detail)) => assert!(!detail.is_empty()),
        other => panic!("unexpected {:?}", other),
    }
}

#[test]
fn an_empty_text_is_an_empty_object() {
    let de = reader("").unwrap();
    match de.deserialize_map().unwrap() {
        Visit::Mapping(entries) => assert!(entries.next_key().is_none()),
        other => panic!("unexpected {:?}", other),
    }
}
