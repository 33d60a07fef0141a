use logs::{log, set_log_level, LogLevel, Registry};

const LEVELS: [LogLevel; 4] = [LogLevel::Error, LogLevel::Warn, LogLevel::Info, LogLevel::Debug];

#[test]
fn new_registry_holds_info() {
    assert_eq!(Registry::new().get_threshold(), LogLevel::Info);
}

#[test]
fn default_registry_holds_info() {
    assert_eq!(Registry::default().get_threshold(), LogLevel::Info);
}

#[test]
fn set_log_level_replaces_the_threshold() {
    for before in LEVELS {
        for after in LEVELS {
            let mut registry = Registry::new();
            set_log_level(&mut registry, before);
            assert_eq!(registry.get_threshold(), before);
            set_log_level(&mut registry, after);
            assert_eq!(registry.get_threshold(), after);
        }
    }
}

#[test]
fn set_threshold_replaces_the_threshold() {
    let mut registry = Registry::new();
    registry.set_threshold(LogLevel::Debug);
    assert_eq!(registry.get_threshold(), LogLevel::Debug);
    registry.set_threshold(LogLevel::Error);
    assert_eq!(registry.get_threshold(), LogLevel::Error);
}

#[test]
fn setting_the_same_level_twice_filters_as_once() {
    for level in LEVELS {
        let mut once = Registry::new();
        set_log_level(&mut once, level);
        let mut twice = Registry::new();
        set_log_level(&mut twice, level);
        set_log_level(&mut twice, level);
        assert_eq!(once.get_threshold(), twice.get_threshold());
        for probe in LEVELS {
            assert_eq!(
                log(&once, probe, "m").is_some(),
                log(&twice, probe, "m").is_some(),
                "probe {:?} at {:?}",
                probe,
                level
            );
        }
    }
}

#[test]
fn last_write_wins() {
    let mut registry = Registry::new();
    let writes = [
        LogLevel::Debug,
        LogLevel::Error,
        LogLevel::Error,
        LogLevel::Info,
        LogLevel::Debug,
        LogLevel::Warn,
    ];
    for level in writes {
        set_log_level(&mut registry, level);
    }
    assert_eq!(registry.get_threshold(), LogLevel::Warn);
    assert!(log(&registry, LogLevel::Warn, "m").is_some());
    assert!(log(&registry, LogLevel::Info, "m").is_none());
}
