use vizzy::error::SimulationError;
use vizzy::pellets::{parse_setting_name, Background, ColoringMode, SettingName, SettingValue, Settings, UNIT};

#[test]
fn collision_damping_above_one_is_refused() {
    let mut s = Settings::default();
    let before = s;
    let r = s.update_setting("collision_damping", SettingValue::Decimal(3 * UNIT / 2));
    assert_eq!(r, Err(SimulationError::InvalidValue));
    assert_eq!(s, before);
}

#[test]
fn defaults() {
    let s = Settings::default();
    assert_eq!(s.particle_count, 5000);
    assert_eq!(s.particle_size, 12_000);
    assert_eq!(s.collision_damping, UNIT);
    assert_eq!(s.background_type, Background::White);
    assert_eq!(s.coloring_mode, ColoringMode::Density);
    assert_eq!(s.overlap_resolution_strength, 20_000);
    assert!(s.density_damping_enabled);
    assert!(s.is_valid());
}

#[test]
fn valid_updates_apply() {
    let mut s = Settings::default();
    assert_eq!(s.update_setting("collision_damping", SettingValue::Decimal(UNIT / 2)), Ok(()));
    assert_eq!(s.collision_damping, UNIT / 2);
    assert_eq!(s.update_setting("energy_damping", SettingValue::Integer(1)), Ok(()));
    assert_eq!(s.energy_damping, UNIT);
    assert_eq!(s.update_setting("particle_count", SettingValue::Integer(1234)), Ok(()));
    assert_eq!(s.particle_count, 1234);
    assert_eq!(s.update_setting("background_type", SettingValue::Text("black".to_string())), Ok(()));
    assert_eq!(s.background_type, Background::Black);
    assert_eq!(s.update_setting("coloring_mode", SettingValue::Text("velocity".to_string())), Ok(()));
    assert_eq!(s.coloring_mode, ColoringMode::Velocity);
    assert_eq!(s.update_setting("density_damping_enabled", SettingValue::Flag(false)), Ok(()));
    assert!(!s.density_damping_enabled);
    assert!(s.is_valid());
}

#[test]
fn unknown_setting_is_reported() {
    let mut s = Settings::default();
    let before = s;
    assert_eq!(
        s.update_setting("no_such_setting", SettingValue::Integer(1)),
        Err(SimulationError::UnknownSetting)
    );
    assert_eq!(s, before);
    assert_eq!(parse_setting_name("density_radius"), Some(SettingName::DensityRadius));
    assert_eq!(parse_setting_name("Density_radius"), None);
}

#[test]
fn wrong_types_and_ranges_are_refused() {
    let mut s = Settings::default();
    let before = s;
    let cases = vec![
        ("particle_count", SettingValue::Decimal(5)),
        ("particle_count", SettingValue::Integer(-1)),
        ("particle_size", SettingValue::Decimal(0)),
        ("energy_damping", SettingValue::Decimal(-1)),
        ("overlap_resolution_strength", SettingValue::Integer(2)),
        ("background_type", SettingValue::Text("grey".to_string())),
        ("coloring_mode", SettingValue::Flag(true)),
        ("density_damping_enabled", SettingValue::Integer(1)),
        ("gravity_softening", SettingValue::Text("0.1".to_string())),
    ];
    for (name, value) in cases {
        assert_eq!(s.update_setting(name, value), Err(SimulationError::InvalidValue));
        assert_eq!(s, before);
    }
}

#[test]
fn randomize_stays_in_ranges() {
    let mut s = Settings::default();
    let mut sizes = std::collections::HashSet::new();
    let mut flags = std::collections::HashSet::new();
    for _ in 0..40 {
        s.randomize();
        assert!((1_000..5_000).contains(&s.particle_size));
        assert!((500_000..950_000).contains(&s.collision_damping));
        assert!((100_000..500_000).contains(&s.initial_velocity_max));
        assert!(50_000 <= s.initial_velocity_min && s.initial_velocity_min < s.initial_velocity_max * 7 / 10);
        assert!((3_000..12_000).contains(&s.gravitational_constant));
        assert!((900_000..990_000).contains(&s.energy_damping));
        assert!((3_000..8_000).contains(&s.gravity_softening));
        assert!((20_000..50_000).contains(&s.density_radius));
        assert!((0..1_000_000).contains(&s.long_range_gravity_strength));
        assert!((10_000..100_000).contains(&s.overlap_resolution_strength));
        assert_eq!(s.particle_count, 5000);
        assert_eq!(s.background_type, Background::White);
        assert!(s.is_valid());
        sizes.insert(s.particle_size);
        flags.insert(s.density_damping_enabled);
    }
    assert!(sizes.len() > 1);
    assert_eq!(flags.len(), 2);
}
