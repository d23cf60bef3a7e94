use signal_toolbox::effect::{DistortionKind, EffectParameters, Feedback, FilterMode};
use signal_toolbox::settings::{
    Control, Settings, CUTOFF_MAX, DEFAULT_CUTOFF, DEFAULT_DELAY, DEFAULT_REVERB, DEFAULT_SPEED,
    DELAY_MAX, DELAY_MIN, SPEED_MAX,
};

#[test]
fn ranges_and_defaults() {
    assert_eq!(SPEED_MAX, 3_000);
    assert_eq!(DELAY_MIN, 1);
    assert_eq!(DELAY_MAX, 5);
    assert_eq!(CUTOFF_MAX, 10_000_000);
    assert_eq!(DEFAULT_SPEED, 2_000);
    assert_eq!(DEFAULT_REVERB, 800);
    assert_eq!(DEFAULT_DELAY, 1);
    assert_eq!(DEFAULT_CUTOFF, 100_000);
}

#[test]
fn a_session_starts_with_the_defaults() {
    let settings = Settings::new();
    assert_eq!(settings.speed(), 2_000);
    assert_eq!(settings.reverb().thousandths(), 800);
    assert_eq!(settings.delay(), 1);
    assert_eq!(settings.cutoff(), 100_000);
}

#[test]
fn speed_is_kept_between_zero_and_three() {
    let mut settings = Settings::new();
    settings.set_speed(1_250);
    assert_eq!(settings.speed(), 1_250);
    settings.set_speed(0);
    assert_eq!(settings.speed(), 0);
    settings.set_speed(3_000);
    assert_eq!(settings.speed(), 3_000);
    settings.set_speed(3_001);
    assert_eq!(settings.speed(), 3_000);
    settings.set_speed(-1);
    assert_eq!(settings.speed(), 0);
    settings.set_speed(i64::MAX);
    assert_eq!(settings.speed(), 3_000);
    settings.set_speed(i64::MIN);
    assert_eq!(settings.speed(), 0);
}

#[test]
fn reverb_is_kept_between_zero_and_one() {
    let mut settings = Settings::new();
    settings.set_reverb(500);
    assert_eq!(settings.reverb().thousandths(), 500);
    settings.set_reverb(1_000);
    assert_eq!(settings.reverb().thousandths(), 1_000);
    settings.set_reverb(1_001);
    assert_eq!(settings.reverb().thousandths(), 1_000);
    settings.set_reverb(-250);
    assert_eq!(settings.reverb().thousandths(), 0);
}

#[test]
fn delay_is_kept_between_one_and_five_seconds() {
    let mut settings = Settings::new();
    settings.set_delay(3);
    assert_eq!(settings.delay(), 3);
    settings.set_delay(5);
    assert_eq!(settings.delay(), 5);
    settings.set_delay(6);
    assert_eq!(settings.delay(), 5);
    settings.set_delay(0);
    assert_eq!(settings.delay(), 1);
    settings.set_delay(-4);
    assert_eq!(settings.delay(), 1);
}

#[test]
fn cutoff_is_kept_between_zero_and_ten_kilohertz() {
    let mut settings = Settings::new();
    settings.set_cutoff(440_000);
    assert_eq!(settings.cutoff(), 440_000);
    settings.set_cutoff(10_000_000);
    assert_eq!(settings.cutoff(), 10_000_000);
    settings.set_cutoff(10_000_001);
    assert_eq!(settings.cutoff(), 10_000_000);
    settings.set_cutoff(-1);
    assert_eq!(settings.cutoff(), 0);
}

#[test]
fn setting_one_value_leaves_the_others() {
    let mut settings = Settings::new();
    settings.set_speed(1_000);
    assert_eq!(settings.reverb().thousandths(), 800);
    assert_eq!(settings.delay(), 1);
    assert_eq!(settings.cutoff(), 100_000);
    settings.set_reverb(100);
    assert_eq!(settings.speed(), 1_000);
    assert_eq!(settings.delay(), 1);
    assert_eq!(settings.cutoff(), 100_000);
    settings.set_delay(4);
    assert_eq!(settings.speed(), 1_000);
    assert_eq!(settings.reverb().thousandths(), 100);
    assert_eq!(settings.cutoff(), 100_000);
    settings.set_cutoff(5_000_000);
    assert_eq!(settings.speed(), 1_000);
    assert_eq!(settings.reverb().thousandths(), 100);
    assert_eq!(settings.delay(), 4);
}

#[test]
fn plain_playback_asks_for_no_effect() {
    assert_eq!(Settings::new().request(Control::PlayNormally), None);
}

#[test]
fn distortion_control_asks_for_a_hard_clip() {
    assert_eq!(
        Settings::new().request(Control::Distortion),
        Some(EffectParameters::Distortion { kind: DistortionKind::HardClip, drive: 15_000 })
    );
}

#[test]
fn speed_control_asks_for_the_adjusted_rate() {
    let mut settings = Settings::new();
    assert_eq!(
        settings.request(Control::ChangedSpeed),
        Some(EffectParameters::PlaybackRate { value: 2_000, transition: 3_000 })
    );
    settings.set_speed(500);
    assert_eq!(
        settings.request(Control::ChangedSpeed),
        Some(EffectParameters::PlaybackRate { value: 500, transition: 3_000 })
    );
}

#[test]
fn reverb_control_asks_for_the_adjusted_feedback() {
    let mut settings = Settings::new();
    assert_eq!(
        settings.request(Control::Reverb),
        Some(EffectParameters::Reverb { feedback: Feedback::clamped(800) })
    );
    settings.set_reverb(7_000);
    assert_eq!(
        settings.request(Control::Reverb),
        Some(EffectParameters::Reverb { feedback: Feedback::clamped(1_000) })
    );
}

#[test]
fn pass_controls_ask_for_the_default_cutoff() {
    let mut settings = Settings::new();
    settings.set_cutoff(250_000);
    assert_eq!(
        settings.request(Control::LowPass),
        Some(EffectParameters::Filter { mode: FilterMode::LowPass, cutoff: 1_000_000 })
    );
    assert_eq!(
        settings.request(Control::HighPass),
        Some(EffectParameters::Filter { mode: FilterMode::HighPass, cutoff: 1_000_000 })
    );
}

#[test]
fn delay_control_asks_for_the_adjusted_time_in_milliseconds() {
    let mut settings = Settings::new();
    assert_eq!(
        settings.request(Control::Delay),
        Some(EffectParameters::Delay { time: 1_000, feedback: 2_000 })
    );
    settings.set_delay(5);
    assert_eq!(
        settings.request(Control::Delay),
        Some(EffectParameters::Delay { time: 5_000, feedback: 2_000 })
    );
}

#[test]
fn cutoff_control_asks_for_a_low_pass_at_the_adjusted_cutoff() {
    let mut settings = Settings::new();
    assert_eq!(
        settings.request(Control::Cutoff),
        Some(EffectParameters::Filter { mode: FilterMode::LowPass, cutoff: 100_000 })
    );
    settings.set_cutoff(9_999_999);
    assert_eq!(
        settings.request(Control::Cutoff),
        Some(EffectParameters::Filter { mode: FilterMode::LowPass, cutoff: 9_999_999 })
    );
}

#[test]
fn no_request_leaves_the_offered_ranges() {
    let mut settings = Settings::new();
    for value in [i64::MIN, -1, 0, 1, 999, 1_000, 2_999, 3_001, 5_000_000, 20_000_000, i64::MAX] {
        settings.set_speed(value);
        settings.set_reverb(value);
        settings.set_delay(value);
        settings.set_cutoff(value);
        match settings.request(Control::ChangedSpeed) {
            Some(EffectParameters::PlaybackRate { value: rate, .. }) => assert!(rate <= 3_000),
            other => panic!("{other:?}"),
        }
        match settings.request(Control::Reverb) {
            Some(EffectParameters::Reverb { feedback }) => {
                assert!(feedback.thousandths() <= 1_000)
            }
            other => panic!("{other:?}"),
        }
        match settings.request(Control::Delay) {
            Some(EffectParameters::Delay { time, .. }) => {
                assert!((1_000..=5_000).contains(&time))
            }
            other => panic!("{other:?}"),
        }
        match settings.request(Control::Cutoff) {
            Some(EffectParameters::Filter { cutoff, .. }) => assert!(cutoff <= 10_000_000),
            other => panic!("{other:?}"),
        }
    }
}
