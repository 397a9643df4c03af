use value_decoder::{
    DeserializeSeed, EnumDeserializer, Error, MapDeserializer, Mapping, SeqDeserializer, Unexpected,
    UnexpectedBuf, Value, Visitor,
};

type Call<A, T> = Option<Box<dyn FnOnce(A) -> Result<T, Error>>>;

/// A target shape put together from the calls that it accepts; it declines
/// every other call.
struct Target<T> {
    expecting: &'static str,
    on_bool: Call<bool, T>,
    on_i64: Call<i64, T>,
    on_string: Call<String, T>,
    on_none: Call<(), T>,
    on_some: Call<Value, T>,
    on_newtype: Call<Value, T>,
    on_seq: Option<Box<dyn FnOnce(&mut SeqDeserializer) -> Result<T, Error>>>,
    on_map: Option<Box<dyn FnOnce(&mut MapDeserializer) -> Result<T, Error>>>,
    on_enum: Call<EnumDeserializer, T>,
}

fn target<T>(expecting: &'static str) -> Target<T> {
    Target {
        expecting,
        on_bool: None,
        on_i64: None,
        on_string: None,
        on_none: None,
        on_some: None,
        on_newtype: None,
        on_seq: None,
        on_map: None,
        on_enum: None,
    }
}

impl<T> Target<T> {
    fn decline(&self, unexpected: Unexpected) -> Result<T, Error> {
        Err(Error::invalid_type(unexpected, self.expecting))
    }
}

impl<T> Visitor for Target<T> {
    type Value = T;

    fn visit_bool(self, v: bool) -> Result<T, Error> {
        match self.on_bool {
            Some(f) => f(v),
            None => self.decline(Unexpected::Bool(v)),
        }
    }

    fn visit_i64(self, v: i64) -> Result<T, Error> {
        match self.on_i64 {
            Some(f) => f(v),
            None => self.decline(Unexpected::Signed(v)),
        }
    }

    fn visit_u64(self, v: u64) -> Result<T, Error> {
        self.decline(Unexpected::Unsigned(v))
    }

    fn visit_f64(self, bits: u64) -> Result<T, Error> {
        self.decline(Unexpected::Float(bits))
    }

    fn visit_str(self, v: &str) -> Result<T, Error> {
        self.visit_string(v.to_string())
    }

    fn visit_string(self, v: String) -> Result<T, Error> {
        match self.on_string {
            Some(f) => f(v),
            None => Err(Error::invalid_type(Unexpected::Str(&v), self.expecting)),
        }
    }

    fn visit_unit(self) -> Result<T, Error> {
        self.decline(Unexpected::Unit)
    }

    fn visit_none(self) -> Result<T, Error> {
        match self.on_none {
            Some(f) => f(()),
            None => self.decline(Unexpected::Option),
        }
    }

    fn visit_some(self, value: Value) -> Result<T, Error> {
        match self.on_some {
            Some(f) => f(value),
            None => self.decline(Unexpected::Option),
        }
    }

    fn visit_newtype_struct(self, value: Value) -> Result<T, Error> {
        match self.on_newtype {
            Some(f) => f(value),
            None => self.decline(Unexpected::NewtypeStruct),
        }
    }

    fn visit_seq(self, seq: &mut SeqDeserializer) -> Result<T, Error> {
        match self.on_seq {
            Some(f) => f(seq),
            None => self.decline(Unexpected::Sequence),
        }
    }

    fn visit_map(self, map: &mut MapDeserializer) -> Result<T, Error> {
        match self.on_map {
            Some(f) => f(map),
            None => self.decline(Unexpected::Mapping),
        }
    }

    fn visit_enum(self, data: EnumDeserializer) -> Result<T, Error> {
        match self.on_enum {
            Some(f) => f(data),
            None => self.decline(Unexpected::Enum),
        }
    }
}

/// The request to decode a value with a function.
struct As<T>(fn(Value) -> Result<T, Error>);

impl<T> DeserializeSeed for As<T> {
    type Value = T;

    fn deserialize(self, value: Value) -> Result<T, Error> {
        (self.0)(value)
    }
}

fn text(s: &str) -> Value {
    Value::String(s.to_string())
}

fn mapping(entries: Vec<(Value, Value)>) -> Value {
    let mut m = Mapping::new();
    for (key, value) in entries {
        m.insert(key, value);
    }
    Value::Mapping(m)
}

fn integer(value: Value) -> Result<i64, Error> {
    value.deserialize_any(Target { on_i64: Some(Box::new(Ok)), ..target("an integer") })
}

fn string(value: Value) -> Result<String, Error> {
    value.deserialize_any(Target { on_string: Some(Box::new(Ok)), ..target("a string") })
}

fn strings(value: Value) -> Result<Vec<String>, Error> {
    value.deserialize_any(Target {
        on_seq: Some(Box::new(|seq: &mut SeqDeserializer| {
            let mut items = Vec::with_capacity(seq.size_hint().unwrap_or(0));
            while let Some(item) = seq.next_element_seed(As(string))? {
                items.push(item);
            }
            Ok(items)
        })),
        ..target("a sequence of strings")
    })
}

fn optional_integer(value: Value) -> Result<Option<i64>, Error> {
    value.deserialize_option(Target {
        on_none: Some(Box::new(|_| Ok(None))),
        on_some: Some(Box::new(|value| integer(value).map(Some))),
        ..target("an optional integer")
    })
}

#[derive(Debug, PartialEq)]
struct Meters(i64);

fn meters(value: Value) -> Result<Meters, Error> {
    value.deserialize_newtype_struct(
        "Meters",
        Target {
            on_newtype: Some(Box::new(|value| integer(value).map(Meters))),
            ..target("a length in meters")
        },
    )
}

fn pair(value: Value) -> Result<(i64, i64), Error> {
    value.deserialize_any(Target {
        on_seq: Some(Box::new(|seq: &mut SeqDeserializer| {
            let first = match seq.next_element_seed(As(integer))? {
                Some(first) => first,
                None => return Err(Error::invalid_length(0, "a pair")),
            };
            let second = match seq.next_element_seed(As(integer))? {
                Some(second) => second,
                None => return Err(Error::invalid_length(1, "a pair")),
            };
            Ok((first, second))
        })),
        ..target("a pair")
    })
}

#[derive(Debug, PartialEq)]
enum Command {
    Move { x: i64, y: i64 },
    Jump(i64, i64),
    Wait(i64),
    Quit,
}

fn move_fields(map: &mut MapDeserializer) -> Result<Command, Error> {
    let mut x = None;
    let mut y = None;
    while let Some(field) = map.next_key_seed(As(string))? {
        match field.as_str() {
            "x" => x = Some(map.next_value_seed(As(integer))?),
            "y" => y = Some(map.next_value_seed(As(integer))?),
            other => return Err(Error::custom(&format!("unknown field `{}`", other))),
        }
    }
    match (x, y) {
        (Some(x), Some(y)) => Ok(Command::Move { x, y }),
        (None, _) => Err(Error::custom("missing field `x`")),
        (_, None) => Err(Error::custom("missing field `y`")),
    }
}

fn jump_fields(seq: &mut SeqDeserializer) -> Result<Command, Error> {
    let x = match seq.next_element_seed(As(integer))? {
        Some(x) => x,
        None => return Err(Error::invalid_length(0, "tuple variant Command::Jump")),
    };
    let y = match seq.next_element_seed(As(integer))? {
        Some(y) => y,
        None => return Err(Error::invalid_length(1, "tuple variant Command::Jump")),
    };
    Ok(Command::Jump(x, y))
}

fn command(value: Value) -> Result<Command, Error> {
    value.deserialize_enum(
        "Command",
        &["Move", "Jump", "Wait", "Quit"],
        Target {
            on_enum: Some(Box::new(|data: EnumDeserializer| {
                let (tag, payload) = data.variant_seed(As(string))?;
                match tag.as_str() {
                    "Move" => payload.struct_variant(
                        &["x", "y"],
                        Target { on_map: Some(Box::new(move_fields)), ..target("struct variant") },
                    ),
                    "Jump" => payload.tuple_variant(
                        2,
                        Target { on_seq: Some(Box::new(jump_fields)), ..target("tuple variant") },
                    ),
                    "Wait" => payload.newtype_variant_seed(As(integer)).map(Command::Wait),
                    "Quit" => payload.unit_variant().map(|()| Command::Quit),
                    other => Err(Error::custom(&format!("unknown variant `{}`", other))),
                }
            })),
            ..target("enum Command")
        },
    )
}

#[derive(Debug, PartialEq)]
enum Kind {
    Move,
    Stay,
}

fn kind(value: Value) -> Result<Kind, Error> {
    value.deserialize_enum(
        "Kind",
        &["Move", "Stay"],
        Target {
            on_enum: Some(Box::new(|data: EnumDeserializer| {
                let (tag, payload) = data.variant_seed(As(string))?;
                match tag.as_str() {
                    "Move" => payload.unit_variant().map(|()| Kind::Move),
                    "Stay" => payload.unit_variant().map(|()| Kind::Stay),
                    other => Err(Error::custom(&format!("unknown variant `{}`", other))),
                }
            })),
            ..target("enum Kind")
        },
    )
}

#[derive(Debug, PartialEq)]
struct Record {
    name: String,
    tags: Vec<String>,
    kind: Kind,
}

fn record(value: Value) -> Result<Record, Error> {
    value.deserialize_any(Target {
        on_map: Some(Box::new(|map: &mut MapDeserializer| {
            let mut name = None;
            let mut tags = None;
            let mut the_kind = None;
            while let Some(field) = map.next_key_seed(As(string))? {
                match field.as_str() {
                    "name" => name = Some(map.next_value_seed(As(string))?),
                    "tags" => tags = Some(map.next_value_seed(As(strings))?),
                    "kind" => the_kind = Some(map.next_value_seed(As(kind))?),
                    other => return Err(Error::custom(&format!("unknown field `{}`", other))),
                }
            }
            let name = name.ok_or_else(|| Error::custom("missing field `name`"))?;
            let tags = tags.ok_or_else(|| Error::custom("missing field `tags`"))?;
            let kind = the_kind.ok_or_else(|| Error::custom("missing field `kind`"))?;
            Ok(Record { name, tags, kind })
        })),
        ..target("struct Record")
    })
}

/// A record whose target stops at the first field it has all it needs from.
fn name_only(value: Value) -> Result<String, Error> {
    value.deserialize_any(Target {
        on_map: Some(Box::new(|map: &mut MapDeserializer| {
            while let Some(field) = map.next_key_seed(As(string))? {
                if field == "name" {
                    return map.next_value_seed(As(string));
                }
                map.next_value();
            }
            Err(Error::custom("missing field `name`"))
        })),
        ..target("a record with a name")
    })
}

fn full_record() -> Vec<(Value, Value)> {
    vec![
        (text("name"), text("a")),
        (text("tags"), Value::Sequence(vec![text("x"), text("y")])),
        (text("kind"), text("Move")),
    ]
}

#[test]
fn scalars_decode_into_their_targets() {
    assert_eq!(integer(Value::I64(42)), Ok(42));
    assert_eq!(string(text("abc")), Ok("abc".to_string()));
    assert_eq!(
        integer(text("abc")),
        Err(Error::InvalidType {
            unexpected: UnexpectedBuf::Str("abc".to_string()),
            expected: "an integer".to_string()
        })
    );
    assert_eq!(
        string(Value::Null),
        Err(Error::InvalidType { unexpected: UnexpectedBuf::Unit, expected: "a string".to_string() })
    );
}

#[test]
fn null_decodes_to_an_absent_option() {
    assert_eq!(optional_integer(Value::Null), Ok(None));
}

#[test]
fn integer_decodes_to_a_present_option() {
    assert_eq!(optional_integer(Value::I64(5)), Ok(Some(5)));
}

#[test]
fn present_option_of_the_wrong_shape_fails_in_the_wrapped_target() {
    assert_eq!(
        optional_integer(Value::Bool(true)),
        Err(Error::InvalidType {
            unexpected: UnexpectedBuf::Bool(true),
            expected: "an integer".to_string()
        })
    );
}

#[test]
fn wrapper_decodes_the_value_it_wraps() {
    assert_eq!(meters(Value::I64(12)), Ok(Meters(12)));
    assert_eq!(
        meters(Value::Sequence(vec![])),
        Err(Error::InvalidType {
            unexpected: UnexpectedBuf::Sequence,
            expected: "an integer".to_string()
        })
    );
}

#[test]
fn visitor_that_reads_three_of_three_succeeds() {
    assert_eq!(
        strings(Value::Sequence(vec![text("a"), text("b"), text("c")])),
        Ok(vec!["a".to_string(), "b".to_string(), "c".to_string()])
    );
}

#[test]
fn visitor_that_reads_two_of_three_fails_with_the_length() {
    assert_eq!(
        pair(Value::Sequence(vec![Value::I64(1), Value::I64(2), Value::I64(3)])),
        Err(Error::InvalidLength { len: 3, expected: "fewer elements in sequence".to_string() })
    );
    assert_eq!(pair(Value::Sequence(vec![Value::I64(1), Value::I64(2)])), Ok((1, 2)));
}

#[test]
fn failure_of_an_element_ends_the_decode() {
    assert_eq!(
        strings(Value::Sequence(vec![text("a"), Value::I64(2), text("c")])),
        Err(Error::InvalidType {
            unexpected: UnexpectedBuf::Signed(2),
            expected: "a string".to_string()
        })
    );
}

#[test]
fn move_decodes_as_a_struct_variant() {
    let value = mapping(vec![(
        text("Move"),
        mapping(vec![(text("x"), Value::I64(1)), (text("y"), Value::I64(2))]),
    )]);
    assert_eq!(command(value), Ok(Command::Move { x: 1, y: 2 }));
}

#[test]
fn quit_decodes_as_a_unit_variant() {
    assert_eq!(command(text("Quit")), Ok(Command::Quit));
    assert_eq!(command(mapping(vec![(text("Quit"), Value::Null)])), Ok(Command::Quit));
}

#[test]
fn jump_decodes_as_a_tuple_variant() {
    let value =
        mapping(vec![(text("Jump"), Value::Sequence(vec![Value::I64(3), Value::I64(4)]))]);
    assert_eq!(command(value), Ok(Command::Jump(3, 4)));
}

#[test]
fn wait_decodes_as_a_newtype_variant() {
    assert_eq!(command(mapping(vec![(text("Wait"), Value::I64(9))])), Ok(Command::Wait(9)));
}

#[test]
fn two_entries_are_no_variant() {
    assert_eq!(
        command(mapping(vec![(text("A"), Value::I64(1)), (text("B"), Value::I64(2))])),
        Err(Error::InvalidValue {
            unexpected: UnexpectedBuf::Mapping,
            expected: "map with a single key".to_string()
        })
    );
}

#[test]
fn variant_with_the_wrong_payload_fails() {
    assert_eq!(
        command(text("Move")),
        Err(Error::InvalidType {
            unexpected: UnexpectedBuf::UnitVariant,
            expected: "struct variant".to_string()
        })
    );
    assert_eq!(
        command(mapping(vec![(text("Move"), Value::Sequence(vec![Value::I64(1)]))])),
        Err(Error::InvalidType {
            unexpected: UnexpectedBuf::Sequence,
            expected: "struct variant".to_string()
        })
    );
    assert_eq!(
        command(mapping(vec![(text("Jump"), Value::I64(1))])),
        Err(Error::InvalidType {
            unexpected: UnexpectedBuf::Signed(1),
            expected: "tuple variant".to_string()
        })
    );
    assert_eq!(
        command(text("Wait")),
        Err(Error::InvalidType {
            unexpected: UnexpectedBuf::UnitVariant,
            expected: "newtype variant".to_string()
        })
    );
    assert_eq!(
        command(mapping(vec![(text("Quit"), Value::I64(0))])),
        Err(Error::InvalidType { unexpected: UnexpectedBuf::Signed(0), expected: "unit".to_string() })
    );
    assert_eq!(
        command(mapping(vec![(text("Jump"), Value::Sequence(vec![]))])),
        Err(Error::InvalidType {
            unexpected: UnexpectedBuf::Unit,
            expected: "tuple variant".to_string()
        })
    );
}

#[test]
fn tag_that_is_no_string_fails_in_its_target() {
    assert_eq!(
        command(mapping(vec![(Value::I64(1), Value::Null)])),
        Err(Error::InvalidType {
            unexpected: UnexpectedBuf::Signed(1),
            expected: "a string".to_string()
        })
    );
    assert_eq!(
        command(text("Fly")),
        Err(Error::Custom("unknown variant `Fly`".to_string()))
    );
}

#[test]
fn record_decodes_with_all_three_fields() {
    assert_eq!(
        record(mapping(full_record())),
        Ok(Record {
            name: "a".to_string(),
            tags: vec!["x".to_string(), "y".to_string()],
            kind: Kind::Move
        })
    );
}

#[test]
fn record_without_its_kind_fails_in_the_target() {
    let mut entries = full_record();
    entries.pop();
    assert_eq!(
        record(mapping(entries)),
        Err(Error::Custom("missing field `kind`".to_string()))
    );
}

#[test]
fn record_with_a_field_of_the_wrong_shape_fails() {
    let mut entries = full_record();
    entries[1].1 = text("x");
    assert_eq!(
        record(mapping(entries)),
        Err(Error::InvalidType {
            unexpected: UnexpectedBuf::Str("x".to_string()),
            expected: "a sequence of strings".to_string()
        })
    );
}

#[test]
fn record_read_in_part_fails_with_the_length() {
    assert_eq!(
        name_only(mapping(full_record())),
        Err(Error::InvalidLength { len: 3, expected: "fewer elements in map".to_string() })
    );
    let mut entries = full_record();
    entries.rotate_left(1);
    assert_eq!(name_only(mapping(entries)), Ok("a".to_string()));
}
