use lifx_rs::BreatheEffect;
use lifx_rs::Clean;
use lifx_rs::EffectsOff;
use lifx_rs::FlameEffect;
use lifx_rs::MorphEffect;
use lifx_rs::MoveEffect;
use lifx_rs::PulseEffect;
use lifx_rs::State;
use lifx_rs::StateDelta;
use lifx_rs::States;
use lifx_rs::Toggle;
use lifx_rs::string_vec_to_params;

fn pair(k: &str, v: &str) -> (String, String) {
    (k.to_string(), v.to_string())
}

#[test]
fn empty_objects_flatten_to_no_pairs() {
    assert_eq!(State::new().to_params(), vec![]);
    assert_eq!(Clean::new().to_params(), vec![]);
    assert_eq!(Toggle::new().to_params(), vec![]);
    assert_eq!(StateDelta::new().to_params(), vec![]);
    assert_eq!(BreatheEffect::new().to_params(), vec![]);
    assert_eq!(MoveEffect::new().to_params(), vec![]);
    assert_eq!(MorphEffect::new().to_params(), vec![]);
    assert_eq!(PulseEffect::new().to_params(), vec![]);
    assert_eq!(EffectsOff::new().to_params(), vec![]);
    assert_eq!(FlameEffect::new().to_params(), vec![]);
}

#[test]
fn full_state_flattens_in_declaration_order() {
    let mut state = State::new();
    state.power = Some("on".to_string());
    state.color = Some("red".to_string());
    state.brightness = Some("0.5".to_string());
    state.duration = Some("2".to_string());
    state.infrared = Some("0.1".to_string());
    state.selector = Some("all".to_string());
    state.fast = Some(true);
    assert_eq!(
        state.to_params(),
        vec![
            pair("power", "on"),
            pair("color", "red"),
            pair("brightness", "0.5"),
            pair("duration", "2"),
            pair("infrared", "0.1"),
            pair("selector", "all"),
            pair("fast", "true"),
        ]
    );
}

#[test]
fn state_power_off_round_trip() {
    let mut off_state = State::new();
    off_state.power = Some("off".to_string());
    assert_eq!(off_state.to_params(), vec![pair("power", "off")]);
}

#[test]
fn clean_flattens_booleans_and_integers() {
    let mut clean = Clean::new();
    clean.stop = Some(false);
    clean.duration = Some(0);
    assert_eq!(clean.to_params(), vec![pair("stop", "false"), pair("duration", "0")]);
}

#[test]
fn toggle_flattens_duration() {
    let mut toggle = Toggle::new();
    toggle.duration = Some(-7);
    assert_eq!(toggle.to_params(), vec![pair("duration", "-7")]);
}

#[test]
fn state_delta_flattens_in_declaration_order() {
    let mut delta = StateDelta::new();
    delta.power = Some("on".to_string());
    delta.duration = Some("1.5".to_string());
    delta.infrared = Some("0".to_string());
    delta.hue = Some("120".to_string());
    delta.saturation = Some("0.25".to_string());
    delta.brightness = Some("0.75".to_string());
    delta.kelvin = Some(3500);
    delta.fast = Some(false);
    assert_eq!(
        delta.to_params(),
        vec![
            pair("power", "on"),
            pair("duration", "1.5"),
            pair("infrared", "0"),
            pair("hue", "120"),
            pair("saturation", "0.25"),
            pair("brightness", "0.75"),
            pair("kelvin", "3500"),
            pair("fast", "false"),
        ]
    );
}

#[test]
fn breathe_effect_flattens_in_declaration_order() {
    let mut breathe = BreatheEffect::new();
    breathe.color = Some("red".to_string());
    breathe.from_color = Some("green".to_string());
    breathe.period = Some("10".to_string());
    breathe.cycles = Some("3".to_string());
    breathe.persist = Some(true);
    breathe.power_on = Some(true);
    breathe.peak = Some("0.8".to_string());
    assert_eq!(
        breathe.to_params(),
        vec![
            pair("color", "red"),
            pair("from_color", "green"),
            pair("period", "10"),
            pair("cycles", "3"),
            pair("persist", "true"),
            pair("power_on", "true"),
            pair("peak", "0.8"),
        ]
    );
}

#[test]
fn move_effect_flattens_in_declaration_order() {
    let mut move_effect = MoveEffect::new();
    move_effect.direction = Some("forward".to_string());
    move_effect.period = Some(2);
    move_effect.cycles = Some("5".to_string());
    move_effect.power_on = Some(true);
    move_effect.fast = Some(false);
    assert_eq!(
        move_effect.to_params(),
        vec![
            pair("direction", "forward"),
            pair("period", "2"),
            pair("cycles", "5"),
            pair("power_on", "true"),
            pair("fast", "false"),
        ]
    );
}

#[test]
fn morph_effect_renders_palette_in_bracket_format() {
    let mut morph = MorphEffect::new();
    morph.period = Some(5);
    morph.palette = Some(vec!["red".to_string(), "green".to_string()]);
    assert_eq!(
        morph.to_params(),
        vec![pair("period", "5"), pair("palette", "[\"red\", \"green\"]")]
    );
}

#[test]
fn pulse_effect_flattens_in_declaration_order() {
    let mut pulse = PulseEffect::new();
    pulse.color = Some("blue".to_string());
    pulse.from_color = Some("white".to_string());
    pulse.period = Some("1".to_string());
    pulse.cycles = Some("4".to_string());
    pulse.persist = Some(false);
    pulse.power_on = Some(true);
    assert_eq!(
        pulse.to_params(),
        vec![
            pair("color", "blue"),
            pair("from_color", "white"),
            pair("period", "1"),
            pair("cycles", "4"),
            pair("persist", "false"),
            pair("power_on", "true"),
        ]
    );
}

#[test]
fn effects_off_flattens_power_off() {
    let mut effects_off = EffectsOff::new();
    effects_off.power_off = Some(true);
    assert_eq!(effects_off.to_params(), vec![pair("power_off", "true")]);
}

#[test]
fn flame_effect_flattens_in_declaration_order() {
    let mut flame = FlameEffect::new();
    flame.period = Some(3);
    flame.duration = Some("8".to_string());
    flame.power_on = Some(false);
    flame.fast = Some(true);
    assert_eq!(
        flame.to_params(),
        vec![
            pair("period", "3"),
            pair("duration", "8"),
            pair("power_on", "false"),
            pair("fast", "true"),
        ]
    );
}

#[test]
fn palette_encoder_produces_bespoke_bracket_format() {
    let palette = vec!["red".to_string(), "green".to_string()];
    assert_eq!(string_vec_to_params(palette), "[\"red\", \"green\"]");
}

#[test]
fn palette_encoder_single_and_empty() {
    assert_eq!(string_vec_to_params(vec!["red".to_string()]), "[\"red\"]");
    assert_eq!(string_vec_to_params(vec![]), "[]");
    assert_eq!(
        string_vec_to_params(vec!["a".to_string(), "b".to_string(), "c".to_string()]),
        "[\"a\", \"b\", \"c\"]"
    );
}

#[test]
fn state_writes_nulls_for_absent_fields() {
    let state = State::new();
    assert_eq!(
        state.to_json(),
        "{\"power\":null,\"color\":null,\"brightness\":null,\"duration\":null,\
         \"infrared\":null,\"selector\":null,\"fast\":null}"
    );
}

#[test]
fn states_payload_writes_nested_json() {
    let mut one = State::new();
    one.power = Some("off".to_string());
    one.brightness = Some("0.5".to_string());
    one.selector = Some("id:abc".to_string());
    let mut two = State::new();
    two.power = Some("on".to_string());
    let mut defaults = State::new();
    defaults.duration = Some("2".to_string());
    let mut states = States::new();
    states.states = Some(vec![one, two]);
    states.defaults = Some(defaults);
    assert_eq!(
        states.to_json(),
        "{\"states\":[\
         {\"power\":\"off\",\"color\":null,\"brightness\":0.5,\"duration\":null,\
         \"infrared\":null,\"selector\":\"id:abc\",\"fast\":null},\
         {\"power\":\"on\",\"color\":null,\"brightness\":null,\"duration\":null,\
         \"infrared\":null,\"selector\":null,\"fast\":null}],\
         \"defaults\":{\"power\":null,\"color\":null,\"brightness\":null,\"duration\":2,\
         \"infrared\":null,\"selector\":null,\"fast\":null}}"
    );
}

#[test]
fn empty_states_payload_writes_nulls() {
    let states = States::new();
    assert_eq!(states.to_json(), "{\"states\":null,\"defaults\":null}");
}

#[test]
fn state_json_escapes_quotes_and_control_characters() {
    let mut state = State::new();
    state.power = Some("o\"n\\\n\u{1f}".to_string());
    assert_eq!(
        state.to_json(),
        "{\"power\":\"o\\\"n\\\\\\n\\u001f\",\"color\":null,\"brightness\":null,\
         \"duration\":null,\"infrared\":null,\"selector\":null,\"fast\":null}"
    );
}
