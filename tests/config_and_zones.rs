use irrigation_relay::config::{Config, SaveOutcome, ServerError, StoredConfig, CONFIG_FILE_PATH};
use irrigation_relay::dio_controller::{DioController, Level, ZoneError};

#[test]
fn default_config_is_empty() {
    let c = Config::default();
    assert!(c.schedules.is_empty());
    assert!(!c.stagger_on);
    assert!(!c.stagger_zones);
}

#[test]
fn load_missing_gives_default_and_bad_store_is_invalid() {
    let c = Config::load(StoredConfig::Missing).unwrap();
    assert!(c.schedules.is_empty());
    assert!(matches!(Config::load(StoredConfig::Unreadable), Err(ServerError::InvalidConfig)));
    assert!(matches!(Config::load(StoredConfig::Malformed), Err(ServerError::InvalidConfig)));
    let mut stored = Config::default();
    stored.set_stagger_zones(true);
    let c = Config::load(StoredConfig::Parsed(stored)).unwrap();
    assert!(c.stagger_zones);
}

#[test]
fn save_outcomes_map_to_errors() {
    let c = Config::default();
    assert!(c.save(SaveOutcome::Saved).is_ok());
    assert!(matches!(c.save(SaveOutcome::NotSerialized), Err(ServerError::InvalidTOML)));
    match c.save(SaveOutcome::NotCreated) {
        Err(ServerError::FailedToCreateFile(p)) => assert_eq!(p, CONFIG_FILE_PATH),
        other => panic!("unexpected {other:?}"),
    }
    match c.save(SaveOutcome::NotWritten) {
        Err(ServerError::FailedToWriteToFile(p)) => assert_eq!(p, ".config.toml"),
        other => panic!("unexpected {other:?}"),
    }
}

#[test]
fn error_messages() {
    assert_eq!(ServerError::InvalidConfig.message(), "Invalid configuration file");
    assert_eq!(ServerError::InvalidTOML.message(), "Invalid TOML");
    assert_eq!(
        ServerError::FailedToWriteToFile("x.toml".to_string()).message(),
        "Failed to write to file: x.toml"
    );
}

#[test]
fn setters_change_one_field() {
    let mut c = Config::default();
    c.set_stagger_on(true);
    assert!(c.stagger_on && !c.stagger_zones);
    c.set_stagger_zones(true);
    c.set_schedules(Vec::new());
    assert!(c.stagger_on && c.stagger_zones);
    let d = c.duplicate();
    assert!(d.stagger_on && d.stagger_zones && d.schedules.is_empty());
}

#[test]
fn zones_start_low_and_toggle_by_number() {
    let mut dio = DioController::new();
    assert_eq!(dio.status(), vec![Level::Low; 6]);
    assert_eq!(dio.toggle_zone(1, Level::High), Ok(()));
    assert_eq!(dio.toggle_zone(6, Level::High), Ok(()));
    assert_eq!(
        dio.status(),
        vec![Level::High, Level::Low, Level::Low, Level::Low, Level::Low, Level::High]
    );
    assert_eq!(dio.toggle_zone(1, Level::Low), Ok(()));
    assert_eq!(dio.status()[0], Level::Low);
}

#[test]
fn zone_numbers_out_of_range_are_refused() {
    let mut dio = DioController::new();
    assert_eq!(dio.toggle_zone(0, Level::High), Err(ZoneError::ZoneOutOfRange));
    assert_eq!(dio.toggle_zone(7, Level::High), Err(ZoneError::ZoneOutOfRange));
    assert_eq!(dio.status(), vec![Level::Low; 6]);
}
