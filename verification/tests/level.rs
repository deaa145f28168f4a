use fabric_rust::Level;

const ALL: [Level; 5] = [Level::Error, Level::Warn, Level::Info, Level::Debug, Level::Trace];

#[test]
fn to_i32_agrees_with_the_cast() {
    for level in ALL {
        assert_eq!(level.to_i32(), level as i32);
    }
    assert_eq!(Level::Info.to_i32(), 2);
}

#[test]
fn from_i32_of_to_i32_gives_the_level_back() {
    for level in ALL {
        assert_eq!(Level::from_i32(level.to_i32()), Some(level));
    }
}

#[test]
fn from_i32_accepts_exactly_zero_to_four() {
    for value in -3..8 {
        let level = Level::from_i32(value);
        assert_eq!(level.is_some(), (0..=4).contains(&value));
        if let Some(level) = level {
            assert_eq!(level.to_i32(), value);
        }
    }
    assert_eq!(Level::from_i32(i32::MIN), None);
    assert_eq!(Level::from_i32(i32::MAX), None);
    assert_eq!(Level::from_i32(3), Some(Level::Debug));
}

#[test]
fn every_level_has_its_own_name() {
    let names: Vec<&str> = ALL.iter().map(|l| l.name()).collect();
    assert_eq!(names, vec!["ERROR", "WARN", "INFO", "DEBUG", "TRACE"]);
}
