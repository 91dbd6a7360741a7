use lifx_rs::Color;
use lifx_rs::LiFxResults;
use lifx_rs::json::JsonValue;
use lifx_rs::json::parse_json;
use lifx_rs::models::lights_of_body;
use lifx_rs::models::scenes_of_body;
use lifx_rs::numerals::bool_to_string;
use lifx_rs::numerals::i64_to_string;
use lifx_rs::numerals::parse_i64;
use lifx_rs::numerals::u64_to_string;

#[test]
fn integers_render_in_decimal() {
    assert_eq!(i64_to_string(0), "0");
    assert_eq!(i64_to_string(42), "42");
    assert_eq!(i64_to_string(-7), "-7");
    assert_eq!(i64_to_string(i64::MIN), "-9223372036854775808");
    assert_eq!(i64_to_string(i64::MAX), "9223372036854775807");
    assert_eq!(u64_to_string(10), "10");
    assert_eq!(bool_to_string(true), "true");
    assert_eq!(bool_to_string(false), "false");
}

#[test]
fn integers_parse_from_decimal() {
    assert_eq!(parse_i64("0"), Some(0));
    assert_eq!(parse_i64("0042"), Some(42));
    assert_eq!(parse_i64("-9223372036854775808"), Some(i64::MIN));
    assert_eq!(parse_i64("9223372036854775807"), Some(i64::MAX));
    assert_eq!(parse_i64("9223372036854775808"), None);
    assert_eq!(parse_i64("-9223372036854775809"), None);
    assert_eq!(parse_i64("1e3"), None);
    assert_eq!(parse_i64("1.5"), None);
    assert_eq!(parse_i64(""), None);
    assert_eq!(parse_i64("-"), None);
}

#[test]
fn json_parses_scalars_and_nesting() {
    assert!(matches!(parse_json("null"), Some(JsonValue::Null)));
    assert!(matches!(parse_json("true"), Some(JsonValue::Bool(true))));
    assert!(matches!(parse_json("false"), Some(JsonValue::Bool(false))));
    match parse_json(" { \"a\" : [ 1 , -2.5e3 , \"x\" ] } ") {
        Some(JsonValue::Obj(members)) => {
            assert_eq!(members.len(), 1);
            assert_eq!(members[0].0, "a");
            match &members[0].1 {
                JsonValue::Arr(items) => {
                    assert_eq!(items.len(), 3);
                    assert!(matches!(&items[0], JsonValue::Num(t) if t == "1"));
                    assert!(matches!(&items[1], JsonValue::Num(t) if t == "-2.5e3"));
                    assert!(matches!(&items[2], JsonValue::Str(t) if t == "x"));
                },
                _ => panic!("expected an array"),
            }
        },
        _ => panic!("expected an object"),
    }
}

#[test]
fn json_decodes_escapes_and_surrogate_pairs() {
    match parse_json("\"a\\n\\t\\\"\\\\\\u0041\\ud83d\\ude00\"") {
        Some(JsonValue::Str(t)) => {
            assert_eq!(t, "a\n\t\"\\A\u{1f600}");
        },
        _ => panic!("expected a string"),
    }
}

#[test]
fn json_rejects_malformed_documents() {
    assert!(parse_json("").is_none());
    assert!(parse_json("{").is_none());
    assert!(parse_json("[1,]").is_none());
    assert!(parse_json("{\"a\":}").is_none());
    assert!(parse_json("01").is_none());
    assert!(parse_json("\"\\ud83d\"").is_none());
    assert!(parse_json("nul").is_none());
    assert!(parse_json("{} {}").is_none());
}

#[test]
fn error_body_is_a_successfully_parsed_envelope() {
    let envelope = LiFxResults::of_body("{\"error\": \"Invalid token\"}").unwrap();
    assert_eq!(envelope.error, Some("Invalid token".to_string()));
    assert_eq!(envelope.results, None);
}

#[test]
fn results_envelope_parses_per_target_outcomes() {
    let body = "{\"results\": [{\"id\": \"d073d5\", \"label\": \"Desk\", \"status\": \"ok\"}]}";
    let envelope = LiFxResults::of_body(body).unwrap();
    assert_eq!(envelope.error, None);
    let results = envelope.results.unwrap();
    assert_eq!(results.len(), 1);
    assert_eq!(results[0].id, "d073d5");
    assert_eq!(results[0].label, "Desk");
    assert_eq!(results[0].status, "ok");
}

#[test]
fn envelope_rejects_duplicate_known_fields() {
    assert!(LiFxResults::of_body("{\"error\": \"a\", \"error\": \"b\"}").is_none());
    assert!(LiFxResults::of_body("{\"results\": 3}").is_none());
    assert!(LiFxResults::of_body("not json").is_none());
}

#[test]
fn envelope_ignores_unknown_fields() {
    let envelope = LiFxResults::of_body("{\"extra\": {\"deep\": [1,2]}, \"error\": null}").unwrap();
    assert_eq!(envelope.error, None);
    assert_eq!(envelope.results, None);
}

fn light_body() -> String {
    "[{\
     \"id\": \"d073d5\",\
     \"uuid\": \"8fa5f072\",\
     \"label\": \"Left Lamp\",\
     \"connected\": true,\
     \"power\": \"on\",\
     \"color\": {\"hue\": 250.0, \"saturation\": 0.5, \"kelvin\": 3500},\
     \"brightness\": 0.5,\
     \"group\": {\"id\": \"1c8d\", \"name\": \"Lounge\"},\
     \"location\": {\"id\": \"1d6f\", \"name\": \"Home\"},\
     \"product\": {\
     \"name\": \"Original 1000\",\
     \"identifier\": \"lifx_original_a21\",\
     \"company\": \"LIFX\",\
     \"vendor_id\": 1,\
     \"product_id\": 1,\
     \"capabilities\": {\
     \"has_color\": true, \"has_variable_color_temp\": true, \"has_ir\": false,\
     \"has_hev\": false, \"has_chain\": false, \"has_matrix\": false,\
     \"has_multizone\": false, \"min_kelvin\": 2500, \"max_kelvin\": 9000}},\
     \"last_seen\": \"2015-03-02T08:53:02.867+00:00\",\
     \"seconds_since_seen\": 0\
     }]"
        .to_string()
}

#[test]
fn lights_listing_parses_nested_records() {
    let lights = lights_of_body(&light_body()).unwrap();
    assert_eq!(lights.len(), 1);
    let light = &lights[0];
    assert_eq!(light.id, "d073d5");
    assert_eq!(light.uuid, "8fa5f072");
    assert_eq!(light.label, "Left Lamp");
    assert!(light.connected);
    assert_eq!(light.power, "on");
    assert_eq!(light.color.hue, Some("250.0".to_string()));
    assert_eq!(light.color.saturation, Some("0.5".to_string()));
    assert_eq!(light.color.kelvin, Some(3500));
    assert_eq!(light.brightness, "0.5");
    assert_eq!(light.group.name, "Lounge");
    assert_eq!(light.location.id, "1d6f");
    assert_eq!(light.product.company, "LIFX");
    assert_eq!(light.product.vendor_id, 1);
    assert!(light.product.capabilities.has_color);
    assert_eq!(light.product.capabilities.min_kelvin, 2500);
    assert_eq!(light.product.capabilities.max_kelvin, 9000);
    assert_eq!(light.last_seen, "2015-03-02T08:53:02.867+00:00");
    assert_eq!(light.seconds_since_seen, 0);
    assert_eq!(light.error, None);
    assert_eq!(light.errors, None);
}

#[test]
fn lights_listing_rejects_missing_required_fields() {
    assert!(lights_of_body("[{\"id\": \"x\"}]").is_none());
    assert!(lights_of_body("{}").is_none());
}

#[test]
fn scenes_listing_parses_states() {
    let body = "[{\
     \"uuid\": \"3795\",\
     \"name\": \"Bedtime\",\
     \"account\": {\"uuid\": \"d73d\"},\
     \"states\": [{\"selector\": \"id:abc\", \"power\": \"on\", \"brightness\": 0.5}],\
     \"created_at\": 1424991588,\
     \"updated_at\": 1424991589\
     }]";
    let scenes = scenes_of_body(body).unwrap();
    assert_eq!(scenes.len(), 1);
    let scene = &scenes[0];
    assert_eq!(scene.uuid, "3795");
    assert_eq!(scene.name, "Bedtime");
    assert_eq!(scene.account.uuid, "d73d");
    assert_eq!(scene.created_at, 1424991588);
    assert_eq!(scene.updated_at, 1424991589);
    assert_eq!(scene.states.len(), 1);
    assert_eq!(scene.states[0].selector, Some("id:abc".to_string()));
    assert_eq!(scene.states[0].power, Some("on".to_string()));
    assert_eq!(scene.states[0].brightness, Some("0.5".to_string()));
    assert_eq!(scene.states[0].color, None);
}

#[test]
fn color_validation_body_parses() {
    let color = Color::of_body("{\"hue\": 0, \"saturation\": 1.0, \"kelvin\": null}").unwrap();
    assert_eq!(color.hue, Some("0".to_string()));
    assert_eq!(color.saturation, Some("1.0".to_string()));
    assert_eq!(color.kelvin, None);
    assert_eq!(color.brightness, None);
    assert_eq!(color.error, None);
}
