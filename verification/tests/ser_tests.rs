use gura::GuraType;
use serde_gura::de::CommaSeparated;
use serde_gura::error::Error;
use serde_gura::node::Node;
use serde_gura::ser::Serializer;

fn to_gura(node: &Node) -> GuraType {
    match node {
        Node::Null | Node::Other => GuraType::Null,
        Node::Bool(b) => GuraType::Bool(*b),
        Node::Integer(n) => GuraType::Integer(*n),
        Node::BigInteger(n) => GuraType::BigInteger(*n),
        Node::Float(bits) => GuraType::Float(f64::from_bits(*bits)),
        Node::String(s) => GuraType::String(s.clone()),
        Node::Array(items) => GuraType::Array(items.iter().map(to_gura).collect()),
        Node::Object(_) => {
            let mut entries = CommaSeparated::new(node.clone());
            let mut object = Vec::new();
            while let Ok((key, entry)) = entries.get_next_elem() {
                object.push((key, to_gura(&entry)));
            }
            GuraType::Object(object.into_iter().collect())
        }
        Node::Pair(key, entry, aux) => GuraType::Pair(key.clone(), Box::new(to_gura(entry)), *aux),
    }
}

/// The text of what a value was written as.
fn to_string(written: Result<Node, Error>) -> Result<String, Error> {
    written.map(|node| gura::dump(&to_gura(&node)))
}

fn write_f64(v: f64) -> Node {
    Serializer.serialize_f64(v.to_bits()).unwrap()
}

fn write_seq(items: Vec<Node>) -> Node {
    let mut builder = Serializer.serialize_seq(Some(items.len())).unwrap();
    for item in items {
        builder.serialize_element(item).unwrap();
    }
    builder.end().unwrap()
}

#[test]
fn ser_tests_test_struct() {
    struct AnObject {
        name: String,
        float: f64,
        optional: Option<i32>,
    }

    struct Test {
        int: u32,
        seq: Vec<&'static str>,
        float_inf: f64,
        float_inf_new: f32,
        bool1: bool,
        bool2: bool,
        objects: Vec<AnObject>,
    }

    fn write_an_object(object: &AnObject) -> Node {
        let mut builder = Serializer.serialize_struct("AnObject", 3).unwrap();
        builder
            .serialize_field("name", Serializer.serialize_str(&object.name).unwrap())
            .unwrap();
        builder.serialize_field("float", write_f64(object.float)).unwrap();
        let optional = match object.optional {
            None => Serializer.serialize_none().unwrap(),
            Some(v) => Serializer
                .serialize_some(Serializer.serialize_i32(v).unwrap())
                .unwrap(),
        };
        builder.serialize_field("optional", optional).unwrap();
        builder.end().unwrap()
    }

    fn write_test(test: &Test) -> Result<Node, Error> {
        let mut builder = Serializer.serialize_struct("Test", 7)?;
        builder.serialize_field("int", Serializer.serialize_u32(test.int)?)?;
        let seq = test
            .seq
            .iter()
            .map(|s| Serializer.serialize_str(s).unwrap())
            .collect();
        builder.serialize_field("seq", write_seq(seq))?;
        builder.serialize_field("float_inf", write_f64(test.float_inf))?;
        builder.serialize_field("float_inf_new", write_f64(test.float_inf_new as f64))?;
        builder.serialize_field("bool1", Serializer.serialize_bool(test.bool1)?)?;
        builder.serialize_field("bool2", Serializer.serialize_bool(test.bool2)?)?;
        let objects = test.objects.iter().map(write_an_object).collect();
        builder.serialize_field("objects", write_seq(objects))?;
        builder.end()
    }

    let test = Test {
        int: 1,
        seq: vec!["a", "b"],
        float_inf: f64::INFINITY,
        float_inf_new: f32::NEG_INFINITY,
        bool1: true,
        bool2: false,
        objects: vec![
            AnObject {
                name: "Gura".to_string(),
                float: 90.44,
                optional: None,
            },
            AnObject {
                name: "Lang".to_string(),
                float: 0.8888,
                optional: Some(-15),
            },
        ],
    };
    let expected = r#"int: 1
seq: ["a", "b"]
float_inf: inf
float_inf_new: -inf
bool1: true
bool2: false
objects: [
    name: "Gura"
    float: 90.44
    optional: null,
    name: "Lang"
    float: 0.8888
    optional: -15
]"#;
    assert_eq!(to_string(write_test(&test)).unwrap(), expected);
}

#[test]
fn ser_tests_test_enum() {
    enum E {
        Unit,
        Newtype(u32),
        Tuple(u32, u32),
        Vec(Vec<i32>),
        Struct { a: u32 },
    }

    fn write_e(e: &E) -> Result<Node, Error> {
        match e {
            E::Unit => Serializer.serialize_unit_variant("E", 0, "Unit"),
            E::Newtype(v) => {
                Serializer.serialize_newtype_variant("E", 1, "Newtype", Serializer.serialize_u32(*v)?)
            }
            E::Tuple(a, b) => {
                let mut builder = Serializer.serialize_tuple_variant("E", 2, "Tuple", 2)?;
                builder.serialize_field(Serializer.serialize_u32(*a)?)?;
                builder.serialize_field(Serializer.serialize_u32(*b)?)?;
                builder.end()
            }
            E::Vec(items) => {
                let items = items
                    .iter()
                    .map(|v| Serializer.serialize_i32(*v).unwrap())
                    .collect();
                Serializer.serialize_newtype_variant("E", 3, "Vec", write_seq(items))
            }
            E::Struct { a } => {
                let mut builder = Serializer.serialize_struct_variant("E", 4, "Struct", 1)?;
                builder.serialize_field("a", Serializer.serialize_u32(*a)?)?;
                builder.end()
            }
        }
    }

    let u = E::Unit;
    let expected = r#""Unit""#;
    assert_eq!(to_string(write_e(&u)).unwrap(), expected);

    let n = E::Newtype(1);
    let expected = "Newtype: 1";
    assert_eq!(to_string(write_e(&n)).unwrap(), expected);

    let t = E::Tuple(1, 2);
    let expected = "Tuple: [1, 2]";
    assert_eq!(to_string(write_e(&t)).unwrap(), expected);

    let t = E::Vec(vec![1, 2]);
    let expected = "Vec: [1, 2]";
    assert_eq!(to_string(write_e(&t)).unwrap(), expected);

    let s = E::Struct { a: 1 };
    let expected = "Struct:\n    a: 1";
    assert_eq!(to_string(write_e(&s)).unwrap(), expected);
}

#[test]
fn test_hash_map() {
    #[derive(PartialEq, Debug)]
    struct Database {
        ip: String,
        port: Vec<u16>,
        connection_max: u32,
        enabled: bool,
    }
    let database = Database {
        ip: "127.0.0.1".to_string(),
        port: vec![80, 8080],
        connection_max: 1200,
        enabled: true,
    };

    fn write_database(database: &Database) -> Result<Node, Error> {
        let mut builder = Serializer.serialize_struct("Database", 4)?;
        builder.serialize_field("ip", Serializer.serialize_str(&database.ip)?)?;
        let port = database
            .port
            .iter()
            .map(|p| Serializer.serialize_u16(*p).unwrap())
            .collect();
        builder.serialize_field("port", write_seq(port))?;
        builder.serialize_field(
            "connection_max",
            Serializer.serialize_u32(database.connection_max)?,
        )?;
        builder.serialize_field("enabled", Serializer.serialize_bool(database.enabled)?)?;
        builder.end()
    }

    let mut map = std::collections::HashMap::new();
    map.insert("k", database);

    let mut builder = Serializer.serialize_map(Some(map.len())).unwrap();
    for (key, value) in &map {
        builder.serialize_key(key.to_string()).unwrap();
        builder.serialize_value(write_database(value).unwrap()).unwrap();
    }
    let sss_str = to_string(builder.end()).unwrap();

    let expected = r#"
k:
    ip: "127.0.0.1"
    port: [80, 8080]
    connection_max: 1200
    enabled: true"#;

    assert_eq!(sss_str, expected.trim());
}
