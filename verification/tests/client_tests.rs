use lifx_rs::Color;
use lifx_rs::LifxConfig;
use lifx_rs::LifxError;
use lifx_rs::Light;
use lifx_rs::State;
use lifx_rs::Toggle;
use lifx_rs::color_path;
use lifx_rs::id_selector;
use lifx_rs::lights_path;

fn unreachable_config(endpoints: Vec<&str>) -> LifxConfig {
    LifxConfig {
        access_token: "token".to_string(),
        api_endpoints: endpoints.into_iter().map(|e| e.to_string()).collect(),
    }
}

#[test]
fn selector_is_embedded_verbatim_exactly_once() {
    assert_eq!(lights_path("all", "/state"), "/v1/lights/all/state");
    assert_eq!(lights_path("group_id:a%20b", ""), "/v1/lights/group_id:a%20b");
    assert_eq!(lights_path("id:d073d5", "/effects/breathe"), "/v1/lights/id:d073d5/effects/breathe");
    assert_eq!(id_selector("d073d5"), "id:d073d5");
    assert_eq!(color_path("red"), "/v1/color?string=red");
}

#[test]
fn single_unreachable_endpoint_reports_transport_failure() {
    let config = unreachable_config(vec!["http://127.0.0.1:9"]);
    let result = Light::list_all(config);
    assert!(matches!(result, Err(LifxError::Transport(_))));
}

#[test]
fn both_endpoints_unreachable_reports_transport_failure() {
    let config = unreachable_config(vec!["http://127.0.0.1:9", "http://127.0.0.1:19"]);
    let mut state = State::new();
    state.power = Some("off".to_string());
    let result = Light::set_state_by_selector(config, "all".to_string(), state);
    assert!(matches!(result, Err(LifxError::Transport(_))));
}

#[test]
fn commands_fail_at_transport_without_panicking() {
    let config = unreachable_config(vec!["http://127.0.0.1:9"]);
    let mut toggle = Toggle::new();
    toggle.duration = Some(1);
    assert!(Light::toggle_by_selector(config.clone(), "all".to_string(), toggle).is_err());
    assert!(Color::validate(config, "red".to_string()).is_err());
}
