use rustcraft::config::{
    default_audio_device, default_weather_effects, ParticleSetting, ParticleValue,
    UNLIMITED_FRAMERATE,
};
use rustcraft::menu::{
    adjusted_config_value, config_value_label, next_framerate, previous_framerate,
    ConfigChoice, ConfigEntryKind, ConfigValue,
};

#[test]
fn particle_settings_cycle_and_name_themselves() {
    assert_eq!(ParticleSetting::All.next(), ParticleSetting::Decreased);
    assert_eq!(ParticleSetting::Minimal.next(), ParticleSetting::All);
    assert!(ParticleSetting::Decreased.enabled());
    assert!(!ParticleSetting::Minimal.enabled());
    assert_eq!(ParticleSetting::Decreased.label(), "Decreased");
    assert_eq!(ParticleSetting::default(), ParticleSetting::All);
}

#[test]
fn stored_particle_values_accept_flags_and_names() {
    assert_eq!(ParticleSetting::from_value(&ParticleValue::Flag(true)), ParticleSetting::All);
    assert_eq!(ParticleSetting::from_value(&ParticleValue::Flag(false)), ParticleSetting::Minimal);
    assert_eq!(
        ParticleSetting::from_value(&ParticleValue::Name("DeCreased".to_string())),
        ParticleSetting::Decreased
    );
    assert_eq!(
        ParticleSetting::from_value(&ParticleValue::Name("minimal".to_string())),
        ParticleSetting::Minimal
    );
    assert_eq!(
        ParticleSetting::from_value(&ParticleValue::Name("lots".to_string())),
        ParticleSetting::All
    );
    assert_eq!(ParticleSetting::from_value(&ParticleValue::Other), ParticleSetting::All);
}

#[test]
fn option_defaults() {
    assert_eq!(default_audio_device(), "default");
    assert!(default_weather_effects());
}

#[test]
fn framerate_presets_step_up_and_down() {
    assert_eq!(next_framerate(0), 30);
    assert_eq!(next_framerate(30), 60);
    assert_eq!(next_framerate(165), 240);
    assert_eq!(next_framerate(500), UNLIMITED_FRAMERATE);
    assert_eq!(next_framerate(UNLIMITED_FRAMERATE), UNLIMITED_FRAMERATE);
    assert_eq!(previous_framerate(30), 30);
    assert_eq!(previous_framerate(165), 120);
    assert_eq!(previous_framerate(UNLIMITED_FRAMERATE), 500);
}

#[test]
fn mod_config_controls_toggle_step_clamp_and_cycle() {
    assert_eq!(
        adjusted_config_value(&ConfigEntryKind::Boolean, &ConfigValue::Boolean(true), 1,),
        Some(ConfigValue::Boolean(false))
    );

    let choice = ConfigEntryKind::Choice {
        options: vec![
            ConfigChoice {
                value: "classic".into(),
                label: "Classic".into(),
            },
            ConfigChoice {
                value: "subtle".into(),
                label: "Subtle".into(),
            },
        ],
    };
    assert_eq!(
        adjusted_config_value(&choice, &ConfigValue::Choice("classic".into()), -1),
        Some(ConfigValue::Choice("subtle".into()))
    );
    assert_eq!(
        adjusted_config_value(&choice, &ConfigValue::Choice("subtle".into()), 1),
        Some(ConfigValue::Choice("classic".into()))
    );
}

#[test]
fn config_values_of_the_wrong_kind_do_not_step() {
    assert_eq!(
        adjusted_config_value(&ConfigEntryKind::Boolean, &ConfigValue::Choice("x".into()), 1),
        None
    );
    let empty = ConfigEntryKind::Choice { options: Vec::new() };
    assert_eq!(adjusted_config_value(&empty, &ConfigValue::Choice("x".into()), 1), None);
    assert_eq!(
        config_value_label(&ConfigEntryKind::Boolean, &ConfigValue::Choice("x".into())),
        "Invalid value"
    );
}

#[test]
fn config_labels() {
    let choice = ConfigEntryKind::Choice {
        options: vec![ConfigChoice {
            value: "classic".into(),
            label: "Classic".into(),
        }],
    };
    assert_eq!(config_value_label(&ConfigEntryKind::Boolean, &ConfigValue::Boolean(true)), "On");
    assert_eq!(config_value_label(&ConfigEntryKind::Boolean, &ConfigValue::Boolean(false)), "Off");
    assert_eq!(config_value_label(&choice, &ConfigValue::Choice("classic".into())), "Classic");
    assert_eq!(config_value_label(&choice, &ConfigValue::Choice("other".into())), "other");
    assert_eq!(
        adjusted_config_value(&choice, &ConfigValue::Choice("unknown".into()), 1),
        Some(ConfigValue::Choice("classic".into()))
    );
}
