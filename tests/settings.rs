use oxidized_soundboard::settings::{
    clamp_volume, gain_percent, AudioSettings, AudioSettingsMessage, AudioSettingsModel, AudioType,
    Gains,
};

fn gain_scale(g: u32) -> f32 {
    g as f32 / 100.0
}

#[test]
fn gain_half_volume_unmuted() {
    assert_eq!(gain_percent(50, false), 50);
    assert_eq!(gain_scale(gain_percent(50, false)), 0.5);
}

#[test]
fn gain_half_volume_muted_is_silent() {
    assert_eq!(gain_percent(50, true), 0);
    assert_eq!(gain_scale(gain_percent(50, true)), 0.0);
}

#[test]
fn gain_rises_with_volume_and_mute_silences() {
    let mut last = 0;
    for v in 0..=100 {
        let g = gain_percent(v, false);
        assert!(g >= last);
        assert_eq!(g, v as u32);
        assert_eq!(gain_percent(v, true), 0);
        last = g;
    }
    assert_eq!(gain_scale(gain_percent(100, false)), 1.0);
    assert_eq!(gain_scale(gain_percent(0, false)), 0.0);
}

#[test]
fn clamp_keeps_range() {
    assert_eq!(clamp_volume(-5), 0);
    assert_eq!(clamp_volume(0), 0);
    assert_eq!(clamp_volume(42), 42);
    assert_eq!(clamp_volume(100), 100);
    assert_eq!(clamp_volume(250), 100);
}

#[test]
fn default_settings_are_silent_on_default_devices() {
    let s = AudioSettings::default();
    assert_eq!(s.output1_slider_value, 0);
    assert_eq!(s.output2_slider_value, 0);
    assert!(!s.output1_muted);
    assert!(!s.output2_muted);
    assert_eq!(s.out1_dev_name, "");
    assert_eq!(s.out2_dev_name, "");
    assert_eq!(s.gains(), Gains { out1: 0, out2: 0 });
}

#[test]
fn apply_changes_one_field_per_message() {
    let mut s = AudioSettings::default();
    s.apply(AudioSettingsMessage::SliderChange(70, AudioType::Output1));
    s.apply(AudioSettingsMessage::SliderChange(30, AudioType::Output2));
    assert_eq!(s.gains(), Gains { out1: 70, out2: 30 });
    s.apply(AudioSettingsMessage::MutePressed(AudioType::Output2));
    assert!(s.output2_muted);
    assert!(!s.output1_muted);
    assert_eq!(s.gains(), Gains { out1: 70, out2: 0 });
    s.apply(AudioSettingsMessage::MutePressed(AudioType::Output2));
    assert!(!s.output2_muted);
    assert_eq!(s.output2_slider_value, 30);
    s.apply(AudioSettingsMessage::OutDev1Selected("Speakers".to_string()));
    s.apply(AudioSettingsMessage::OutDev2Selected("Virtual Cable".to_string()));
    assert_eq!(s.out1_dev_name, "Speakers");
    assert_eq!(s.out2_dev_name, "Virtual Cable");
    assert_eq!(s.output1_slider_value, 70);
}

#[test]
fn apply_forces_slider_into_range() {
    let mut s = AudioSettings::default();
    s.apply(AudioSettingsMessage::SliderChange(180, AudioType::Output1));
    s.apply(AudioSettingsMessage::SliderChange(-3, AudioType::Output2));
    assert_eq!(s.output1_slider_value, 100);
    assert_eq!(s.output2_slider_value, 0);
}

#[test]
fn normalized_clamps_saved_volumes() {
    let s = AudioSettings {
        output2_slider_value: 400,
        output2_muted: true,
        output1_slider_value: -20,
        output1_muted: false,
        out2_dev_name: "b".to_string(),
        out1_dev_name: "a".to_string(),
    };
    let n = s.normalized();
    assert_eq!(n.output1_slider_value, 0);
    assert_eq!(n.output2_slider_value, 100);
    assert!(n.output2_muted);
    assert_eq!(n.out1_dev_name, "a");
    assert_eq!(n.out2_dev_name, "b");
}

#[test]
fn model_records_device_pick_per_role() {
    let mut m = AudioSettingsModel::new(vec!["A".to_string(), "B".to_string()]);
    assert_eq!(m.out1_dev_name, "");
    let mut s = AudioSettings::default();
    m.update(&mut s, AudioSettingsMessage::OutDev2Selected("B".to_string()));
    assert_eq!(m.out2_dev_name, "B");
    assert_eq!(m.out1_dev_name, "");
    assert_eq!(s.out2_dev_name, "B");
    assert_eq!(s.out1_dev_name, "");
    m.update(&mut s, AudioSettingsMessage::OutDev1Selected("A".to_string()));
    assert_eq!(m.out1_dev_name, "A");
    assert_eq!(s.out1_dev_name, "A");
    m.update(&mut s, AudioSettingsMessage::SliderChange(60, AudioType::Output1));
    assert_eq!(s.output1_slider_value, 60);
    assert_eq!(m.out1_dev_name, "A");
    m.refresh_devices(vec!["C".to_string()]);
    assert_eq!(m.out_dev_names, vec!["C".to_string()]);
    assert_eq!(m.out2_dev_name, "B");
}
