use vizzy::camera::Camera;
use vizzy::commands::{
    finish_force_matrix_rebuild, flip_force_matrix_horizontal, flip_force_matrix_sign,
    flip_force_matrix_vertical, rotate_force_matrix_clockwise, rotate_force_matrix_counterclockwise,
    scale_force_matrix, shift_force_matrix_down, shift_force_matrix_left, shift_force_matrix_right,
    shift_force_matrix_up, zero_force_matrix, SimulationManager,
};
use vizzy::error::SimulationError;
use vizzy::matrix::{ForceMatrix, COEFFICIENT_UNIT};
use vizzy::pellets::{SettingValue, Settings, UNIT};
use vizzy::simulation::{MouseButton, SettingsSnapshot, SimulationKind, SimulationType, parse_simulation_kind};

const U: i32 = COEFFICIENT_UNIT as i32;

fn particle_life_with(rows: Vec<Vec<i32>>) -> SimulationManager {
    let mut manager = SimulationManager::new();
    manager.start_simulation("particle_life", 800, 600).unwrap();
    let m = ForceMatrix::from_rows(rows).unwrap();
    manager
        .current_simulation
        .as_mut()
        .unwrap()
        .apply_settings(SettingsSnapshot::ParticleLife(m))
        .unwrap();
    manager
}

fn current_matrix(manager: &SimulationManager) -> Vec<Vec<i32>> {
    match manager.current_simulation.as_ref().unwrap().get_settings() {
        SettingsSnapshot::ParticleLife(m) => m.to_rows(),
        _ => panic!("not a species-interaction simulation"),
    }
}

#[test]
fn unknown_kind_is_refused() {
    assert!(matches!(
        SimulationType::new("boids", 10, 10),
        Err(SimulationError::UnknownSimulationKind)
    ));
    let mut manager = SimulationManager::new();
    manager.start_simulation("pellets", 10, 10).unwrap();
    assert_eq!(manager.start_simulation("nope", 10, 10), Err(SimulationError::UnknownSimulationKind));
    assert!(matches!(manager.current_simulation, Some(SimulationType::Pellets(_))));
    assert_eq!(parse_simulation_kind("gray_scott"), Some(SimulationKind::GrayScott));
    manager.destroy_simulation();
    assert!(manager.current_simulation.is_none());
}

#[test]
fn update_setting_through_dispatcher() {
    let mut sim = SimulationType::new("pellets", 100, 100).unwrap();
    let before = sim.get_settings();
    assert_eq!(
        sim.update_setting("collision_damping", SettingValue::Decimal(3 * UNIT / 2)),
        Err(SimulationError::InvalidValue)
    );
    match (before, sim.get_settings()) {
        (SettingsSnapshot::Pellets(a), SettingsSnapshot::Pellets(b)) => assert_eq!(a, b),
        _ => panic!("wrong snapshot kind"),
    }
    assert_eq!(sim.update_setting("density_radius", SettingValue::Decimal(30_000)), Ok(()));
    match sim.get_settings() {
        SettingsSnapshot::Pellets(s) => assert_eq!(s.density_radius, 30_000),
        _ => panic!("wrong snapshot kind"),
    }
    let mut menu = SimulationType::new("main_menu", 100, 100).unwrap();
    assert_eq!(
        menu.update_setting("density_radius", SettingValue::Decimal(30_000)),
        Err(SimulationError::UnknownSetting)
    );
}

#[test]
fn resize_keeps_viewport_and_frame_in_step() {
    let mut sim = SimulationType::new("gray_scott", 800, 600).unwrap();
    let frame = sim.render_frame(800, 600).unwrap();
    assert_eq!((frame.width, frame.height), (frame.viewport_width, frame.viewport_height));
    assert_eq!(sim.get_state().step_count, 1);
    sim.resize(1024, 768);
    assert_eq!(sim.render_frame(800, 600), Err(SimulationError::GpuResourceFailure));
    assert_eq!(sim.get_state().step_count, 1);
    let frame = sim.render_frame(1024, 768).unwrap();
    assert_eq!((frame.width, frame.height), (1024, 768));
    assert_eq!((frame.viewport_width, frame.viewport_height), (1024, 768));
    let camera = sim.get_camera_state();
    assert_eq!((camera.viewport_width, camera.viewport_height), (1024, 768));
    assert_eq!(sim.render_frame_static(1024, 768).unwrap(), frame);
    assert_eq!(sim.get_state().step_count, 2);
}

#[test]
fn zero_sized_surface_is_an_error() {
    let mut sim = SimulationType::new("pellets", 0, 0).unwrap();
    assert_eq!(sim.render_frame(0, 0), Err(SimulationError::GpuResourceFailure));
    assert_eq!(sim.render_frame_static(0, 0), Err(SimulationError::GpuResourceFailure));
    assert_eq!(sim.get_state().step_count, 0);
}

#[test]
fn randomize_then_get_settings_agree() {
    let mut sim = SimulationType::new("pellets", 100, 100).unwrap();
    sim.render_frame(100, 100).unwrap();
    sim.randomize_settings();
    let s = match sim.get_settings() {
        SettingsSnapshot::Pellets(s) => s,
        _ => panic!("wrong snapshot kind"),
    };
    assert!((10_000..100_000).contains(&s.overlap_resolution_strength));
    assert!((500_000..950_000).contains(&s.collision_damping));
    assert!(s.is_valid());
    match sim.get_settings() {
        SettingsSnapshot::Pellets(again) => assert_eq!(again, s),
        _ => panic!("wrong snapshot kind"),
    }
    assert_eq!(sim.get_state().step_count, 1);
}

#[test]
fn presets_and_applied_settings() {
    let mut sim = SimulationType::new("pellets", 100, 100).unwrap();
    sim.render_frame(100, 100).unwrap();
    let mut custom = Settings::default();
    custom.energy_damping = UNIT / 2;
    assert_eq!(sim.apply_settings(SettingsSnapshot::Pellets(custom)), Ok(()));
    assert_eq!(sim.get_state().step_count, 1);
    assert_eq!(sim.load_preset(SettingsSnapshot::Pellets(custom)), Ok(()));
    assert_eq!(sim.get_state().step_count, 0);
    let mut bad = custom;
    bad.collision_damping = 2 * UNIT;
    assert_eq!(sim.apply_settings(SettingsSnapshot::Pellets(bad)), Err(SimulationError::InvalidValue));
    assert_eq!(sim.load_preset(SettingsSnapshot::Empty), Err(SimulationError::WrongSimulationKind));
    match sim.get_settings() {
        SettingsSnapshot::Pellets(s) => assert_eq!(s, custom),
        _ => panic!("wrong snapshot kind"),
    }
}

#[test]
fn runtime_reset_keeps_settings() {
    let mut sim = SimulationType::new("pellets", 100, 100).unwrap();
    sim.update_setting("particle_count", SettingValue::Integer(42)).unwrap();
    sim.render_frame(100, 100).unwrap();
    sim.handle_mouse_interaction(5, 6, 2).unwrap();
    sim.reset_runtime_state();
    assert_eq!(sim.get_state().step_count, 0);
    assert!(sim.get_state().interaction.is_none());
    match sim.get_settings() {
        SettingsSnapshot::Pellets(s) => assert_eq!(s.particle_count, 42),
        _ => panic!("wrong snapshot kind"),
    }
}

#[test]
fn mouse_interaction_is_idempotent() {
    let mut sim = SimulationType::new("particle_life", 100, 100).unwrap();
    sim.handle_mouse_interaction(10, -20, 0).unwrap();
    let once = sim.get_state();
    sim.handle_mouse_interaction(10, -20, 0).unwrap();
    assert_eq!(sim.get_state(), once);
    let i = once.interaction.unwrap();
    assert_eq!((i.world_x, i.world_y, i.button), (10, -20, MouseButton::Primary));
    assert_eq!(sim.handle_mouse_interaction(1, 1, 3), Err(SimulationError::InvalidValue));
    assert_eq!(sim.get_state(), once);
}

#[test]
fn gui_toggles() {
    let mut sim = SimulationType::new("main_menu", 100, 100).unwrap();
    assert!(sim.is_gui_visible());
    assert!(!sim.toggle_gui());
    assert!(!sim.is_gui_visible());
    assert!(sim.toggle_gui());
}

#[test]
fn camera_operations() {
    let mut sim = SimulationType::new("gray_scott", 100, 100).unwrap();
    sim.pan_camera(UNIT, -UNIT / 2);
    let c = sim.get_camera_state();
    assert_eq!((c.position_x, c.position_y, c.zoom), (UNIT, -UNIT / 2, UNIT));
    sim.zoom_camera(UNIT / 10);
    assert_eq!(sim.get_camera_state().zoom, 1_100_000);
    sim.reset_camera();
    assert_eq!(sim.get_camera_state(), Camera::new(100, 100));
}

#[test]
fn zoom_to_cursor_keeps_cursor_point() {
    let mut sim = SimulationType::new("pellets", 100, 100).unwrap();
    let (cx, cy) = (400_000i64, -300_000i64);
    let before = sim.get_camera_state();
    sim.zoom_camera_to_cursor(UNIT, cx, cy);
    let after = sim.get_camera_state();
    assert_eq!(after.zoom, 2 * UNIT);
    let offset_before = (cx - before.position_x) as i128 * before.zoom as i128;
    let offset_after = (cx - after.position_x) as i128 * after.zoom as i128;
    assert!(offset_before - offset_after >= 0 && offset_before - offset_after < after.zoom as i128);
    assert_eq!(after.position_x, 200_000);
    assert_eq!(after.position_y, -150_000);
}

#[test]
fn matrix_commands_need_species_interaction() {
    let mut manager = SimulationManager::new();
    assert!(matches!(zero_force_matrix(&mut manager), Err(SimulationError::WrongSimulationKind)));
    manager.start_simulation("pellets", 10, 10).unwrap();
    assert!(matches!(
        scale_force_matrix(&mut manager, 2 * U),
        Err(SimulationError::WrongSimulationKind)
    ));
    assert!(matches!(flip_force_matrix_sign(&mut manager), Err(SimulationError::WrongSimulationKind)));
}

#[test]
fn matrix_commands_update_settings_and_buffer() {
    let start = vec![vec![U, 0, -U], vec![U / 2, 0, U / 5], vec![-3 * U / 10, 7 * U / 10, 0]];
    let mut manager = particle_life_with(start.clone());
    let rebuild = flip_force_matrix_horizontal(&mut manager).unwrap();
    assert_eq!(rebuild.previous.to_rows(), start);
    assert_eq!(finish_force_matrix_rebuild(&mut manager, rebuild, true), Ok(()));
    let rebuild = rotate_force_matrix_clockwise(&mut manager).unwrap();
    assert_eq!(rebuild.data, vec![0, U / 5, -U, 7 * U / 10, 0, 0, -3 * U / 10, U / 2, U]);
    finish_force_matrix_rebuild(&mut manager, rebuild, true).unwrap();
    let rebuild = rotate_force_matrix_counterclockwise(&mut manager).unwrap();
    finish_force_matrix_rebuild(&mut manager, rebuild, true).unwrap();
    let rebuild = flip_force_matrix_horizontal(&mut manager).unwrap();
    finish_force_matrix_rebuild(&mut manager, rebuild, true).unwrap();
    assert_eq!(current_matrix(&manager), start);
    for command in [
        flip_force_matrix_vertical,
        shift_force_matrix_left,
        shift_force_matrix_right,
        shift_force_matrix_up,
        shift_force_matrix_down,
        flip_force_matrix_sign,
    ] {
        let rebuild = command(&mut manager).unwrap();
        assert_eq!(rebuild.data.len(), 9);
        finish_force_matrix_rebuild(&mut manager, rebuild, true).unwrap();
    }
    assert_eq!(current_matrix(&manager)[2], vec![-U, 0, U]);
}

#[test]
fn failed_rebuild_restores_previous_matrix() {
    let start = vec![vec![U, 2], vec![3, 4]];
    let mut manager = particle_life_with(start.clone());
    let rebuild = scale_force_matrix(&mut manager, 2 * U).unwrap();
    assert_eq!(rebuild.data, vec![2 * U, 4, 6, 8]);
    assert_eq!(current_matrix(&manager), vec![vec![2 * U, 4], vec![6, 8]]);
    assert_eq!(
        finish_force_matrix_rebuild(&mut manager, rebuild, false),
        Err(SimulationError::GpuResourceFailure)
    );
    assert_eq!(current_matrix(&manager), start);
    let rebuild = zero_force_matrix(&mut manager).unwrap();
    assert_eq!(rebuild.data, vec![0; 4]);
}
