use waterer::db::{init_db, DbSetup, APP_DIRECTORY, DB_NAME, SETTINGS_FILE};
use waterer::tray::{update_sip_menu_item, update_timer_menu_item, TRAY_SIP_AMOUNT_ML};

#[test]
fn the_timer_entry_offers_the_opposite() {
    assert_eq!(update_timer_menu_item(false), "Start Timer");
    assert_eq!(update_timer_menu_item(true), "Stop Timer");
}

#[test]
fn the_sip_entry_shows_todays_amount() {
    assert_eq!(update_sip_menu_item(0), "Sip (0ml today)");
    assert_eq!(update_sip_menu_item(9), "Sip (9ml today)");
    assert_eq!(update_sip_menu_item(10), "Sip (10ml today)");
    assert_eq!(update_sip_menu_item(105), "Sip (105ml today)");
    assert_eq!(update_sip_menu_item(1_234_567_890), "Sip (1234567890ml today)");
}

#[test]
fn the_sip_entry_at_the_limits() {
    assert_eq!(update_sip_menu_item(-5), "Sip (-5ml today)");
    assert_eq!(update_sip_menu_item(i64::MAX), "Sip (9223372036854775807ml today)");
    assert_eq!(update_sip_menu_item(i64::MIN), "Sip (-9223372036854775808ml today)");
    for amount in [-1001, -100, -10, -1, 1, 99, 100, 101, 999, 1000, 20_000] {
        assert_eq!(update_sip_menu_item(amount), format!("Sip ({}ml today)", amount));
    }
}

#[test]
fn the_tray_sip_is_fifty_millilitres() {
    assert_eq!(TRAY_SIP_AMOUNT_ML, 50);
}

#[test]
fn an_existing_database_is_left_alone() {
    assert_eq!(init_db(true, true), DbSetup { create_directory: false, create_file: false });
    assert_eq!(init_db(true, false), DbSetup { create_directory: false, create_file: false });
}

#[test]
fn a_missing_database_is_created() {
    assert_eq!(init_db(false, true), DbSetup { create_directory: false, create_file: true });
    assert_eq!(init_db(false, false), DbSetup { create_directory: true, create_file: true });
}

#[test]
fn file_names() {
    assert_eq!(APP_DIRECTORY, "waterer");
    assert_eq!(DB_NAME, "waterer.db");
    assert_eq!(SETTINGS_FILE, "settings.toml");
}
