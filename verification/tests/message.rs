use serde_json::Value;
use wit_ai::api::endpoints::message::{
    can_normalize, parse_map_to_vec, Entity, Intent, Message, Trait,
};
use wit_ai::api::endpoints::{Endpoint, ParseBody};
use wit_ai::api::Error;
use wit_ai::json::{decode_field, Decode, Number};

fn endpoint() -> Endpoint {
    Endpoint::Message("hi".to_owned())
}

fn parse(body: &str) -> Result<Message, Error> {
    endpoint().parse_body(body.as_bytes())
}

fn json(text: &str) -> Value {
    serde_json::from_str(text).unwrap()
}

fn as_f32(n: Number) -> f32 {
    match n {
        Number::PosInt(u) => u as f32,
        Number::NegInt(i) => i as f32,
        Number::Float(bits) => f64::from_bits(bits) as f32,
    }
}

#[test]
fn empty_message_parses() {
    let m = parse("{\"text\":\"hi\",\"intents\":[],\"entities\":{},\"traits\":{}}").unwrap();
    assert_eq!(m.text, "hi");
    assert!(m.intents.is_empty());
    assert!(m.entities.is_empty());
    assert!(m.traits.is_empty());
}

#[test]
fn entities_are_flattened() {
    let body = "{\"text\":\"NYC\",\"intents\":[],\"traits\":{},\"entities\":{\"wit$location\":[{\"id\":\"1\",\"name\":\"wit$location\",\"role\":\"r\",\"start\":0,\"end\":3,\"body\":\"NYC\",\"value\":\"NYC\",\"confidence\":0.9}]}}";
    let m = parse(body).unwrap();
    assert_eq!(m.entities.len(), 1);
    assert_eq!(m.entities[0].len(), 1);
    let e = &m.entities[0][0];
    assert_eq!(e.id, "1");
    assert_eq!(e.name, "wit$location");
    assert_eq!(e.role, "r");
    assert_eq!(e.start, 0);
    assert_eq!(e.end, 3);
    assert_eq!(e.body, "NYC");
    assert_eq!(e.value, Value::String("NYC".to_owned()));
    assert_eq!(as_f32(e.confidence), 0.9f32);
    assert_eq!(e.confidence, Number::Float(0.9f64.to_bits()));
}

#[test]
fn entity_fields_in_another_order() {
    let body = "{\"entities\":{\"wit$location\":[{\"confidence\":0.9,\"value\":\"NYC\",\"body\":\"NYC\",\"end\":3,\"start\":0,\"role\":\"r\",\"name\":\"wit$location\",\"id\":\"1\"}]},\"traits\":{},\"intents\":[],\"text\":\"NYC\"}";
    let m = parse(body).unwrap();
    assert_eq!(m.text, "NYC");
    assert_eq!(m.entities.len(), 1);
    assert_eq!(m.entities[0].len(), 1);
    let e = &m.entities[0][0];
    assert_eq!(e.id, "1");
    assert_eq!(e.name, "wit$location");
    assert_eq!(e.role, "r");
    assert_eq!((e.start, e.end), (0, 3));
    assert_eq!(e.body, "NYC");
    assert_eq!(e.value, Value::String("NYC".to_owned()));
    assert_eq!(as_f32(e.confidence), 0.9f32);
}

#[test]
fn intents_and_traits_are_decoded() {
    let body = "{\"text\":\"t\",\"intents\":[{\"id\":\"i1\",\"name\":\"greet\",\"confidence\":0.5},{\"id\":\"i2\",\"name\":\"bye\",\"confidence\":1}],\"entities\":{},\"traits\":{\"b\":{\"id\":\"t2\",\"name\":\"mood\",\"confidence\":0.25},\"a\":{\"id\":\"t1\",\"name\":\"tone\",\"confidence\":0.75}}}";
    let m = parse(body).unwrap();
    assert_eq!(m.intents.len(), 2);
    assert_eq!(m.intents[0].id, "i1");
    assert_eq!(m.intents[0].name, "greet");
    assert_eq!(as_f32(m.intents[0].confidence), 0.5f32);
    assert_eq!(m.intents[1].id, "i2");
    assert_eq!(m.intents[1].name, "bye");
    assert_eq!(m.intents[1].confidence, Number::PosInt(1));
    assert_eq!(as_f32(m.intents[1].confidence), 1.0f32);
    assert_eq!(m.traits.len(), 2);
    let mut ids: Vec<&str> = m.traits.iter().map(|t| t.id.as_str()).collect();
    ids.sort();
    assert_eq!(ids, vec!["t1", "t2"]);
}

#[test]
fn traits_follow_the_order_of_the_decoded_object() {
    let body = "{\"text\":\"t\",\"intents\":[],\"entities\":{},\"traits\":{\"b\":{\"id\":\"t2\",\"name\":\"mood\",\"confidence\":0.25},\"a\":{\"id\":\"t1\",\"name\":\"tone\",\"confidence\":0.75}}}";
    let m = parse(body).unwrap();
    let value = json(body);
    let keys: Vec<&String> = value["traits"].as_object().unwrap().keys().collect();
    let expected: Vec<&str> = keys
        .iter()
        .map(|k| if k.as_str() == "a" { "t1" } else { "t2" })
        .collect();
    let got: Vec<&str> = m.traits.iter().map(|t| t.id.as_str()).collect();
    assert_eq!(got, expected);
}

#[test]
fn entities_with_several_keys_and_items() {
    let item = |id: &str| {
        format!(
            "{{\"id\":\"{}\",\"name\":\"n\",\"role\":\"r\",\"start\":1,\"end\":2,\"body\":\"b\",\"value\":{{\"k\":[1,null]}},\"confidence\":1.5}}",
            id
        )
    };
    let body = format!(
        "{{\"text\":\"t\",\"intents\":[],\"traits\":{{}},\"entities\":{{\"x\":[{},{}],\"y\":[],\"z\":[{}]}}}}",
        item("1"),
        item("2"),
        item("3")
    );
    let m = parse(&body).unwrap();
    let mut lens: Vec<usize> = m.entities.iter().map(|row| row.len()).collect();
    lens.sort();
    assert_eq!(lens, vec![0, 1, 2]);
    let row = m.entities.iter().find(|row| row.len() == 2).unwrap();
    assert_eq!(row[0].id, "1");
    assert_eq!(row[1].id, "2");
    assert_eq!(row[0].value, json("{\"k\":[1,null]}"));
}

#[test]
fn unknown_members_are_passed_over() {
    let body = "{\"text\":\"hi\",\"intents\":[{\"id\":\"1\",\"name\":\"n\",\"confidence\":0.5,\"extra\":true}],\"entities\":{},\"traits\":{},\"more\":[1,2]}";
    let m = parse(body).unwrap();
    assert_eq!(m.intents.len(), 1);
    assert_eq!(m.text, "hi");
}

#[test]
fn invalid_json_is_a_bad_response() {
    let body = "{\"text\":";
    let e = parse(body).unwrap_err();
    assert_eq!(e.name, "Bad Response");
    assert_eq!(e.code, 400);
    let expected = serde_json::from_slice::<Value>(body.as_bytes()).unwrap_err().to_string();
    assert_eq!(e.message, expected);
    assert_eq!(e.debug, "b\"{\\\"text\\\":\"");
}

#[test]
fn json_that_is_no_message_is_a_bad_response() {
    let e = parse("{\"text\":5}").unwrap_err();
    assert_eq!(e.name, "Bad Response");
    assert_eq!(e.code, 400);
    assert_eq!(e.message, "invalid field `text`");
    assert_eq!(e.debug, "Object {\"text\": Number(5)}");
}

#[test]
fn missing_members_are_a_bad_response() {
    for (body, key) in [
        ("{\"intents\":[],\"entities\":{},\"traits\":{}}", "text"),
        ("{\"text\":\"hi\",\"entities\":{},\"traits\":{}}", "intents"),
        ("{\"text\":\"hi\",\"intents\":[],\"traits\":{}}", "entities"),
        ("{\"text\":\"hi\",\"intents\":[],\"entities\":{}}", "traits"),
        ("{\"text\":\"hi\"}", "intents"),
        ("{}", "text"),
        ("[]", "text"),
        ("null", "text"),
        ("\"text\"", "text"),
    ] {
        let e = parse(body).unwrap_err();
        assert_eq!(e.name, "Bad Response");
        assert_eq!(e.code, 400);
        assert_eq!(e.message, format!("missing field `{}`", key));
        assert_eq!(e.debug, format!("{:?}", json(body)));
    }
}

#[test]
fn members_of_the_wrong_kind_are_a_bad_response() {
    for (body, key) in [
        ("{\"text\":null,\"intents\":{},\"entities\":[],\"traits\":[]}", "text"),
        ("{\"text\":\"hi\",\"intents\":{},\"entities\":{},\"traits\":{}}", "intents"),
        ("{\"text\":\"hi\",\"intents\":[],\"entities\":[],\"traits\":{}}", "entities"),
        ("{\"text\":\"hi\",\"intents\":[],\"entities\":{},\"traits\":[]}", "traits"),
        ("{\"text\":\"hi\",\"intents\":[{\"id\":\"1\",\"name\":\"n\"}],\"entities\":{},\"traits\":{}}", "intents"),
        ("{\"text\":\"hi\",\"intents\":[{\"id\":1,\"name\":\"n\",\"confidence\":1}],\"entities\":{},\"traits\":{}}", "intents"),
        ("{\"text\":\"hi\",\"intents\":[{\"id\":\"1\",\"name\":\"n\",\"confidence\":\"1\"}],\"entities\":{},\"traits\":{}}", "intents"),
    ] {
        let e = parse(body).unwrap_err();
        assert_eq!(e.name, "Bad Response");
        assert_eq!(e.code, 400);
        assert_eq!(e.message, format!("invalid field `{}`", key));
        assert_eq!(e.debug, format!("{:?}", json(body)));
    }
}

#[test]
fn a_member_of_entities_that_does_not_decode_cannot_be_read() {
    let e = endpoint();
    for body in [
        "{\"text\":\"hi\",\"intents\":[],\"entities\":{\"x\":1},\"traits\":{}}",
        "{\"text\":\"hi\",\"intents\":[],\"entities\":{\"x\":[{\"id\":\"1\"}]},\"traits\":{}}",
        "{\"text\":\"hi\",\"intents\":[],\"entities\":{},\"traits\":{\"x\":[]}}",
        "{\"entities\":{\"x\":{}}}",
    ] {
        assert!(!ParseBody::<Message>::can_parse(&e, body.as_bytes()));
        let r: Option<Result<Message, Error>> = e.try_parse_body(body.as_bytes());
        assert!(r.is_none());
    }
}

#[test]
fn try_parse_body_reads_what_can_be_read() {
    let e = endpoint();
    let ok: Option<Result<Message, Error>> =
        e.try_parse_body(b"{\"text\":\"hi\",\"intents\":[],\"entities\":{},\"traits\":{}}");
    assert_eq!(ok.unwrap().unwrap().text, "hi");
    let bad: Option<Result<Message, Error>> = e.try_parse_body(b"nonsense");
    assert_eq!(bad.unwrap().unwrap_err().code, 400);
    let other: Option<Result<Message, Error>> = e.try_parse_body(b"{\"entities\":[]}");
    assert_eq!(other.unwrap().unwrap_err().name, "Bad Response");
}

#[test]
fn parse_map_to_vec_flattens_an_object() {
    let v = json("{\"b\":{\"id\":\"2\",\"name\":\"n\",\"confidence\":2},\"a\":{\"id\":\"1\",\"name\":\"m\",\"confidence\":-1}}");
    assert!(can_normalize::<Trait>(&v));
    let items = parse_map_to_vec::<Trait>(&v).unwrap();
    assert_eq!(items.len(), 2);
    let order: Vec<&String> = v.as_object().unwrap().keys().collect();
    for (item, key) in items.iter().zip(order) {
        if key == "a" {
            assert_eq!((item.id.as_str(), item.name.as_str()), ("1", "m"));
            assert_eq!(item.confidence, Number::NegInt(-1));
        } else {
            assert_eq!((item.id.as_str(), item.name.as_str()), ("2", "n"));
            assert_eq!(item.confidence, Number::PosInt(2));
        }
    }
}

#[test]
fn parse_map_to_vec_of_what_is_no_object() {
    for text in ["[]", "1", "null", "\"x\"", "true"] {
        let v = json(text);
        assert!(can_normalize::<Trait>(&v));
        assert!(parse_map_to_vec::<Trait>(&v).is_none());
    }
    let empty = json("{}");
    assert_eq!(parse_map_to_vec::<Vec<Entity>>(&empty).unwrap().len(), 0);
}

#[test]
fn can_normalize_sees_a_member_that_does_not_decode() {
    assert!(!can_normalize::<Trait>(&json("{\"a\":{\"id\":\"1\",\"name\":\"m\"}}")));
    assert!(!can_normalize::<Vec<Entity>>(&json("{\"a\":[],\"b\":{}}")));
    assert!(can_normalize::<Vec<Entity>>(&json("{\"a\":[],\"b\":[]}")));
}

#[test]
fn message_from_json_value() {
    let v = json("{\"text\":\"hi\",\"intents\":[],\"entities\":{},\"traits\":{}}");
    assert!(Message::can_decode(&v));
    assert_eq!(Message::from_json(&v).unwrap().text, "hi");
    let no = json("{\"text\":\"hi\"}");
    assert!(Message::can_decode(&no));
    assert_eq!(Message::from_json(&no).unwrap_err(), "missing field `intents`");
    assert!(!Message::can_decode(&json("{\"traits\":{\"a\":1}}")));
}

#[test]
fn message_from_parsed_keeps_the_decoder_error() {
    let e = Message::from_parsed(Err("boom".to_owned()), b"xyz").unwrap_err();
    assert_eq!(e.name, "Bad Response");
    assert_eq!(e.message, "boom");
    assert_eq!(e.code, 400);
    assert_eq!(e.debug, "b\"xyz\"");
    let m = Message::from_parsed(
        Ok(json("{\"text\":\"hi\",\"intents\":[],\"entities\":{},\"traits\":{}}")),
        b"",
    );
    assert_eq!(m.unwrap().text, "hi");
}

#[test]
fn strings_decode_out_of_strings_only() {
    assert_eq!(String::decode(&json("\"a\\nb\"")), Some("a\nb".to_owned()));
    assert_eq!(String::decode(&json("1")), None);
    assert_eq!(String::decode(&json("null")), None);
}

#[test]
fn offsets_decode_out_of_integers_in_range() {
    assert_eq!(i16::decode(&json("0")), Some(0));
    assert_eq!(i16::decode(&json("32767")), Some(32767));
    assert_eq!(i16::decode(&json("-32768")), Some(-32768));
    assert_eq!(i16::decode(&json("32768")), None);
    assert_eq!(i16::decode(&json("-32769")), None);
    assert_eq!(i16::decode(&json("18446744073709551615")), None);
    assert_eq!(i16::decode(&json("3.0")), None);
    assert_eq!(i16::decode(&json("\"3\"")), None);
}

#[test]
fn numbers_decode_as_they_stand() {
    assert_eq!(Number::decode(&json("7")), Some(Number::PosInt(7)));
    assert_eq!(Number::decode(&json("0")), Some(Number::PosInt(0)));
    assert_eq!(Number::decode(&json("-7")), Some(Number::NegInt(-7)));
    assert_eq!(
        Number::decode(&json("18446744073709551615")),
        Some(Number::PosInt(u64::MAX))
    );
    assert_eq!(Number::decode(&json("0.5")), Some(Number::Float(0.5f64.to_bits())));
    assert_eq!(Number::decode(&json("-2e3")), Some(Number::Float((-2000.0f64).to_bits())));
    assert_eq!(Number::decode(&json("\"7\"")), None);
    assert_eq!(Number::decode(&json("null")), None);
}

#[test]
fn values_decode_as_themselves() {
    for text in ["null", "true", "1", "\"s\"", "[1,2]", "{\"a\":{}}"] {
        assert_eq!(Value::decode(&json(text)), Some(json(text)));
    }
}

#[test]
fn lists_decode_out_of_arrays_whose_items_all_decode() {
    assert_eq!(Vec::<i16>::decode(&json("[1,2,3]")), Some(vec![1, 2, 3]));
    assert_eq!(Vec::<i16>::decode(&json("[]")), Some(vec![]));
    assert_eq!(Vec::<i16>::decode(&json("[1,\"2\"]")), None);
    assert_eq!(Vec::<i16>::decode(&json("{}")), None);
}

#[test]
fn fields_decode_by_key() {
    let v = json("{\"a\":1,\"b\":\"x\"}");
    assert_eq!(decode_field::<i16>(&v, "a"), Some(1));
    assert_eq!(decode_field::<String>(&v, "b"), Some("x".to_owned()));
    assert_eq!(decode_field::<String>(&v, "a"), None);
    assert_eq!(decode_field::<i16>(&v, "c"), None);
    assert_eq!(decode_field::<i16>(&json("[1]"), "a"), None);
}

#[test]
fn intent_decodes_out_of_an_object() {
    let i = Intent::decode(&json("{\"name\":\"n\",\"confidence\":0.125,\"id\":\"9\"}")).unwrap();
    assert_eq!(i.id, "9");
    assert_eq!(i.name, "n");
    assert_eq!(as_f32(i.confidence), 0.125f32);
    assert!(Intent::decode(&json("[\"9\",\"n\",0.125]")).is_none());
    assert!(Intent::decode(&json("{\"name\":\"n\",\"id\":\"9\"}")).is_none());
}

#[test]
fn entity_offsets_out_of_range_do_not_decode() {
    let text = "{\"id\":\"1\",\"name\":\"n\",\"role\":\"r\",\"start\":0,\"end\":40000,\"body\":\"b\",\"value\":null,\"confidence\":1}";
    assert!(Entity::decode(&json(text)).is_none());
    let ok = text.replace("40000", "-4");
    let e = Entity::decode(&json(&ok)).unwrap();
    assert_eq!(e.end, -4);
    assert_eq!(e.value, Value::Null);
}
