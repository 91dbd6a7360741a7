//! A client library for the LIFX cloud HTTP API and the structurally
//! identical unofficial local variant: list lights and scenes, replace or
//! nudge their state, toggle power, start and stop the animated effects,
//! and validate color texts, each call run under a verified two-endpoint
//! fallback policy — attempt the primary endpoint and, on a transport
//! failure with a second endpoint configured, retry once against the
//! fallback, surfacing the second failure if both fail.

pub mod numerals;
pub mod params;
pub mod json;
pub mod models;
pub mod fallback;
pub mod http;
pub mod client;

pub use client::LifxConfig;
pub use client::Plan;
pub use client::RequestKind;
pub use client::RunRecord;
pub use client::bearer_value;
pub use client::execute;
pub use client::lights_path;
pub use client::color_path;
pub use client::id_selector;
pub use client::list_plan;
pub use client::set_state_plan;
pub use client::set_states_plan;
pub use client::state_delta_plan;
pub use client::toggle_plan;
pub use client::clean_plan;
pub use client::breathe_plan;
pub use client::move_effect_plan;
pub use client::morph_effect_plan;
pub use client::flame_effect_plan;
pub use client::pulse_effect_plan;
pub use client::effects_off_plan;
pub use client::scenes_plan;
pub use client::validate_plan;
pub use fallback::FallbackState;
pub use http::LifxError;
pub use models::Account;
pub use models::Capabilities;
pub use models::Color;
pub use models::Error;
pub use models::Group;
pub use models::LiFxResult;
pub use models::LiFxResults;
pub use models::Light;
pub use models::Lights;
pub use models::Location;
pub use models::Product;
pub use models::Scene;
pub use models::Scenes;
pub use params::BreatheEffect;
pub use params::Clean;
pub use params::EffectsOff;
pub use params::FlameEffect;
pub use params::MorphEffect;
pub use params::MoveEffect;
pub use params::PulseEffect;
pub use params::State;
pub use params::StateDelta;
pub use params::States;
pub use params::Toggle;
pub use params::string_vec_to_params;
