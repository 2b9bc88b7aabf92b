use numberish::{DecodeError, Numberish, ObjectData, ObjectData2, Scalar};
use serde_json::Value;
use uuid::Uuid;

const SCENARIO_NUMBER: &str = "{\"owner\":\"14aafd84-a57f-11e8-8706-4fc23c74c5e7\", \
    \"bucket_id\":\"ce0dc791-d83f-4395-8e85-cb9edddee542\",\
    \"name\":\"someobject\",\"vnode\":84}";
const SCENARIO_STRING: &str = "{\"owner\":\"14aafd84-a57f-11e8-8706-4fc23c74c5e7\", \
    \"bucket_id\":\"ce0dc791-d83f-4395-8e85-cb9edddee542\",\
    \"name\":\"someobject\",\"vnode\":\"84\"}";

/// The scalar kind under which a JSON decoder presents a value.
fn scalar_of(v: &Value) -> Scalar {
    match v {
        Value::Number(n) => match (n.as_u64(), n.as_i64()) {
            (Some(u), _) => Scalar::U64(u),
            (None, Some(i)) => Scalar::I64(i),
            _ => Scalar::Other,
        },
        Value::String(s) => Scalar::Str(s.clone()),
        _ => Scalar::Other,
    }
}

fn uuid_field(doc: &Value, key: &str) -> Uuid {
    Uuid::parse_str(doc[key].as_str().unwrap()).unwrap()
}

fn decode_flexible(input: &str) -> Result<ObjectData2, DecodeError> {
    let doc: Value = serde_json::from_str(input).unwrap();
    ObjectData2::decode(
        uuid_field(&doc, "owner"),
        uuid_field(&doc, "bucket_id"),
        doc["name"].as_str().unwrap().to_string(),
        scalar_of(&doc["vnode"]),
    )
}

#[test]
fn flexible_record_takes_a_bare_number() {
    let d = decode_flexible(SCENARIO_NUMBER).unwrap();
    assert_eq!(d.vnode, Numberish(84));
    assert_eq!(d.owner, Uuid::parse_str("14aafd84-a57f-11e8-8706-4fc23c74c5e7").unwrap());
    assert_eq!(d.bucket_id, Uuid::parse_str("ce0dc791-d83f-4395-8e85-cb9edddee542").unwrap());
    assert_eq!(d.name, "someobject");
}

#[test]
fn flexible_record_takes_a_numeric_string() {
    let a = decode_flexible(SCENARIO_NUMBER).unwrap();
    let b = decode_flexible(SCENARIO_STRING).unwrap();
    assert_eq!(b.vnode, Numberish(84));
    assert_eq!(a.vnode, b.vnode);
}

#[test]
fn strict_record_refuses_a_numeric_string() {
    let doc: Value = serde_json::from_str(SCENARIO_STRING).unwrap();
    let strict = serde_json::from_value::<u64>(doc["vnode"].clone());
    let err = strict.unwrap_err();
    assert!(err.to_string().contains("invalid type"));
    let doc: Value = serde_json::from_str(SCENARIO_NUMBER).unwrap();
    let d = ObjectData {
        owner: uuid_field(&doc, "owner"),
        bucket_id: uuid_field(&doc, "bucket_id"),
        name: doc["name"].as_str().unwrap().to_string(),
        vnode: serde_json::from_value::<u64>(doc["vnode"].clone()).unwrap(),
    };
    assert_eq!(d.vnode, 84);
}

#[test]
fn flexible_record_fails_whole_on_a_bad_vnode() {
    let input = SCENARIO_STRING.replace("\"84\"", "\"84x\"");
    match decode_flexible(&input) {
        Err(DecodeError::NotANumber(t)) => assert_eq!(t, "84x"),
        _ => panic!("the record must fail"),
    }
}

#[test]
fn json_kinds_other_than_numbers_and_strings_are_refused() {
    for text in ["true", "1.5", "null", "[1]", "{\"a\":1}"] {
        let v: Value = serde_json::from_str(text).unwrap();
        assert!(matches!(
            Numberish::deserialize(scalar_of(&v)),
            Err(DecodeError::InvalidType)
        ));
    }
    let v: Value = serde_json::from_str("-1").unwrap();
    assert_eq!(Numberish::deserialize(scalar_of(&v)).unwrap(), Numberish(u64::MAX));
}
