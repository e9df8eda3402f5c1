use waterer::settings::{
    get_settings, update_settings, AppSettings, LoadedSettings, PartialAppSettings, SettingsFile,
    ValidationError, MAX_DAILY_GOAL_ML, MAX_SIP_AMOUNT_ML, MAX_TIMER_INTERVAL_MS,
};

fn nothing() -> PartialAppSettings {
    PartialAppSettings {
        timer_interval_ms: None,
        sip_amount_ml: None,
        notifications_enabled: None,
        start_minimized: None,
        daily_goal_ml: None,
    }
}

#[test]
fn defaults_have_the_documented_values() {
    let d = AppSettings::default();
    assert_eq!(d.timer_interval_ms, 1000);
    assert_eq!(d.sip_amount_ml, 35);
    assert!(d.notifications_enabled);
    assert!(d.start_minimized);
    assert_eq!(d.daily_goal_ml, 2000);
    assert!(d.is_valid());
    assert_eq!(d.validate(), Ok(()));
}

#[test]
fn bounds_are_inclusive_at_the_top_and_exclusive_at_zero() {
    let d = AppSettings::default();
    assert!(!AppSettings { timer_interval_ms: 0, ..d }.is_valid());
    assert!(AppSettings { timer_interval_ms: 1, ..d }.is_valid());
    assert!(AppSettings { timer_interval_ms: 86_400_000, ..d }.is_valid());
    assert!(!AppSettings { timer_interval_ms: 86_400_001, ..d }.is_valid());
    assert!(!AppSettings { timer_interval_ms: u64::MAX, ..d }.is_valid());

    assert!(!AppSettings { sip_amount_ml: 0, ..d }.is_valid());
    assert!(!AppSettings { sip_amount_ml: -1, ..d }.is_valid());
    assert!(AppSettings { sip_amount_ml: 1, ..d }.is_valid());
    assert!(AppSettings { sip_amount_ml: 1000, ..d }.is_valid());
    assert!(!AppSettings { sip_amount_ml: 1001, ..d }.is_valid());
    assert!(!AppSettings { sip_amount_ml: i64::MIN, ..d }.is_valid());

    assert!(!AppSettings { daily_goal_ml: 0, ..d }.is_valid());
    assert!(!AppSettings { daily_goal_ml: -2000, ..d }.is_valid());
    assert!(AppSettings { daily_goal_ml: 1, ..d }.is_valid());
    assert!(AppSettings { daily_goal_ml: 10_000, ..d }.is_valid());
    assert!(!AppSettings { daily_goal_ml: 10_001, ..d }.is_valid());
    assert!(!AppSettings { daily_goal_ml: i64::MAX, ..d }.is_valid());
}

#[test]
fn limits_are_a_day_a_litre_and_ten_litres() {
    assert_eq!(MAX_TIMER_INTERVAL_MS, 24 * 60 * 60 * 1000);
    assert_eq!(MAX_SIP_AMOUNT_ML, 1000);
    assert_eq!(MAX_DAILY_GOAL_ML, 10_000);
}

#[test]
fn validate_names_the_first_broken_bound() {
    let d = AppSettings::default();
    assert_eq!(
        AppSettings { timer_interval_ms: 0, ..d }.validate(),
        Err(ValidationError::TimerIntervalOutOfRange)
    );
    assert_eq!(
        AppSettings { sip_amount_ml: 0, ..d }.validate(),
        Err(ValidationError::SipAmountOutOfRange)
    );
    assert_eq!(
        AppSettings { daily_goal_ml: 10_001, ..d }.validate(),
        Err(ValidationError::DailyGoalOutOfRange)
    );
    let all_wrong = AppSettings { timer_interval_ms: 0, sip_amount_ml: 0, daily_goal_ml: 0, ..d };
    assert_eq!(all_wrong.validate(), Err(ValidationError::TimerIntervalOutOfRange));
    let two_wrong = AppSettings { sip_amount_ml: 5000, daily_goal_ml: 0, ..d };
    assert_eq!(two_wrong.validate(), Err(ValidationError::SipAmountOutOfRange));
}

#[test]
fn messages_name_the_field() {
    assert_eq!(
        ValidationError::TimerIntervalOutOfRange.message(),
        "Invalid settings after update: timer_interval_ms must be between 1 and 86400000"
    );
    assert_eq!(
        ValidationError::SipAmountOutOfRange.message(),
        "Invalid settings after update: sip_amount_ml must be between 1 and 1000"
    );
    assert_eq!(
        ValidationError::DailyGoalOutOfRange.message(),
        "Invalid settings after update: daily_goal_ml must be between 1 and 10000"
    );
}

#[test]
fn load_keeps_a_valid_file() {
    let stored = AppSettings {
        timer_interval_ms: 60_000,
        sip_amount_ml: 50,
        notifications_enabled: false,
        start_minimized: false,
        daily_goal_ml: 2500,
    };
    assert_eq!(
        AppSettings::load(SettingsFile::Parsed(stored)),
        LoadedSettings { settings: stored, save_defaults: false }
    );
}

#[test]
fn load_replaces_a_missing_file() {
    assert_eq!(
        AppSettings::load(SettingsFile::Missing),
        LoadedSettings { settings: AppSettings::default(), save_defaults: true }
    );
}

#[test]
fn load_replaces_a_malformed_file() {
    assert_eq!(
        AppSettings::load(SettingsFile::Malformed),
        LoadedSettings { settings: AppSettings::default(), save_defaults: true }
    );
}

#[test]
fn load_replaces_an_invalid_file() {
    let stored = AppSettings { sip_amount_ml: 2000, ..AppSettings::default() };
    assert_eq!(
        AppSettings::load(SettingsFile::Parsed(stored)),
        LoadedSettings { settings: AppSettings::default(), save_defaults: true }
    );
    let zero_interval = AppSettings { timer_interval_ms: 0, ..AppSettings::default() };
    let loaded = AppSettings::load(SettingsFile::Parsed(zero_interval));
    assert!(loaded.settings.is_valid());
    assert!(loaded.save_defaults);
}

#[test]
fn load_does_not_write_over_an_unreadable_file() {
    assert_eq!(
        AppSettings::load(SettingsFile::Unreadable),
        LoadedSettings { settings: AppSettings::default(), save_defaults: false }
    );
}

#[test]
fn update_with_out_of_range_sip_amount_is_rejected_and_changes_nothing() {
    let before = AppSettings {
        timer_interval_ms: 5000,
        sip_amount_ml: 40,
        notifications_enabled: false,
        start_minimized: true,
        daily_goal_ml: 1800,
    };
    let mut current = before;
    let partial = PartialAppSettings {
        sip_amount_ml: Some(2000),
        notifications_enabled: Some(true),
        daily_goal_ml: Some(3000),
        ..nothing()
    };
    assert_eq!(current.update_with_partial(partial), Err(ValidationError::SipAmountOutOfRange));
    assert_eq!(current, before);

    let outcome = update_settings(&mut current, partial);
    assert_eq!(
        outcome,
        Err("Invalid settings after update: sip_amount_ml must be between 1 and 1000".to_string())
    );
    assert_eq!(current, before);
}

#[test]
fn update_with_only_the_daily_goal_changes_only_the_daily_goal() {
    let mut current = AppSettings::default();
    let partial = PartialAppSettings { daily_goal_ml: Some(3000), ..nothing() };
    assert_eq!(current.update_with_partial(partial), Ok(()));
    assert_eq!(
        current,
        AppSettings {
            timer_interval_ms: 1000,
            sip_amount_ml: 35,
            notifications_enabled: true,
            start_minimized: true,
            daily_goal_ml: 3000,
        }
    );
}

#[test]
fn update_replaces_every_named_field() {
    let mut current = AppSettings::default();
    let partial = PartialAppSettings {
        timer_interval_ms: Some(86_400_000),
        sip_amount_ml: Some(1000),
        notifications_enabled: Some(false),
        start_minimized: Some(false),
        daily_goal_ml: Some(10_000),
    };
    let expected = AppSettings {
        timer_interval_ms: 86_400_000,
        sip_amount_ml: 1000,
        notifications_enabled: false,
        start_minimized: false,
        daily_goal_ml: 10_000,
    };
    assert_eq!(update_settings(&mut current, partial), Ok(expected));
    assert_eq!(current, expected);
    assert_eq!(get_settings(&current), expected);
}

#[test]
fn update_with_nothing_keeps_valid_settings() {
    let mut current = AppSettings::default();
    assert_eq!(update_settings(&mut current, nothing()), Ok(AppSettings::default()));
    assert_eq!(current, AppSettings::default());
}

#[test]
fn update_can_repair_settings_that_were_invalid() {
    let mut current = AppSettings { daily_goal_ml: 0, ..AppSettings::default() };
    assert_eq!(
        current.update_with_partial(nothing()),
        Err(ValidationError::DailyGoalOutOfRange)
    );
    assert_eq!(current.daily_goal_ml, 0);
    let repair = PartialAppSettings { daily_goal_ml: Some(1500), ..nothing() };
    assert_eq!(current.update_with_partial(repair), Ok(()));
    assert_eq!(current.daily_goal_ml, 1500);
}

#[test]
fn update_reports_each_bound() {
    let mut current = AppSettings::default();
    let interval = PartialAppSettings { timer_interval_ms: Some(86_400_001), ..nothing() };
    assert_eq!(
        current.update_with_partial(interval),
        Err(ValidationError::TimerIntervalOutOfRange)
    );
    let goal = PartialAppSettings { daily_goal_ml: Some(-1), ..nothing() };
    assert_eq!(current.update_with_partial(goal), Err(ValidationError::DailyGoalOutOfRange));
    let amount = PartialAppSettings { sip_amount_ml: Some(0), ..nothing() };
    assert_eq!(current.update_with_partial(amount), Err(ValidationError::SipAmountOutOfRange));
    assert_eq!(current, AppSettings::default());
}
