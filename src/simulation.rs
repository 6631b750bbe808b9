//! The simulation kinds and the closed dispatcher over them.
//!
//! Each kind owns presettable settings (if it has any), runtime state, a
//! camera and a GUI flag. `SimulationType` routes every operation to the
//! active kind by an exhaustive match.

use crate::camera::{
    anchored, camera_in_bounds, clamp_position, zoomed, Camera, POSITION_LIMIT,
};
use crate::error::SimulationError;
use crate::matrix::{is_matrix, ForceMatrix};
use crate::pellets::{accepts, setting_named, valid_settings, with_setting, Settings, SettingValue};
use crate::text::text_eq;
use vstd::prelude::*;

verus! {

/// Species count of a freshly created species-interaction simulation.
pub const DEFAULT_SPECIES_COUNT: usize = 4;

/// The mouse buttons.
#[derive(Clone, Copy, Debug, PartialEq, Eq, Structural)]
pub enum MouseButton {
    Primary,
    Middle,
    Secondary,
}

/// A pointer held down at a world point.
#[derive(Clone, Copy, Debug, PartialEq, Eq, Structural)]
pub struct MouseInteraction {
    pub world_x: i64,
    pub world_y: i64,
    pub button: MouseButton,
}

/// Data derived while the simulation runs; never part of a preset.
#[derive(Clone, Copy, Debug, PartialEq, Eq, Structural)]
pub struct RuntimeState {
    /// Steps taken since the last reset.
    pub step_count: u64,
    /// The pointer interaction in force, if any.
    pub interaction: Option<MouseInteraction>,
}

/// What a render call drew into.
#[derive(Clone, Copy, Debug, PartialEq, Eq, Structural)]
pub struct Frame {
    pub width: u32,
    pub height: u32,
    pub viewport_width: u32,
    pub viewport_height: u32,
}

/// The part every simulation kind has.
#[derive(Clone, Copy, Debug, PartialEq, Eq, Structural)]
pub struct SimulationCore {
    pub state: RuntimeState,
    pub camera: Camera,
    pub gui_visible: bool,
}

/// The particle-collision simulation.
#[derive(Clone, Copy, Debug)]
pub struct PelletsModel {
    pub settings: Settings,
    pub common: SimulationCore,
}

/// The species-interaction simulation; its settings are the force matrix.
#[derive(Clone, Debug)]
pub struct ParticleLifeModel {
    pub force_matrix: ForceMatrix,
    pub common: SimulationCore,
}

/// The reaction-diffusion simulation.
#[derive(Clone, Copy, Debug)]
pub struct GrayScottModel {
    pub common: SimulationCore,
}

/// The idle background behind the menu.
#[derive(Clone, Copy, Debug)]
pub struct MainMenuModel {
    pub common: SimulationCore,
}

/// One simulation of each kind; exactly one is active at a time.
#[derive(Clone, Debug)]
pub enum SimulationType {
    GrayScott(GrayScottModel),
    ParticleLife(ParticleLifeModel),
    Pellets(PelletsModel),
    MainMenu(MainMenuModel),
}

/// The presettable settings of one simulation.
#[derive(Clone, Debug)]
pub enum SettingsSnapshot {
    Pellets(Settings),
    ParticleLife(ForceMatrix),
    /// A kind without tunable settings.
    Empty,
}

/// The simulation kinds by name.
#[derive(Clone, Copy, Debug, PartialEq, Eq, Structural)]
pub enum SimulationKind {
    GrayScott,
    ParticleLife,
    Pellets,
    MainMenu,
}

pub open spec fn kind_named(name: Seq<char>) -> Option<SimulationKind> {
    if name == "gray_scott"@ {
        Some(SimulationKind::GrayScott)
    } else if name == "particle_life"@ {
        Some(SimulationKind::ParticleLife)
    } else if name == "pellets"@ {
        Some(SimulationKind::Pellets)
    } else if name == "main_menu"@ {
        Some(SimulationKind::MainMenu)
    } else {
        None
    }
}

pub open spec fn fresh_state() -> RuntimeState {
    RuntimeState { step_count: 0, interaction: None }
}

pub open spec fn fresh_common(width: u32, height: u32) -> SimulationCore {
    SimulationCore {
        state: fresh_state(),
        camera: Camera::new_spec(width, height),
        gui_visible: true,
    }
}

pub open spec fn button_of(code: u32) -> Option<MouseButton> {
    if code == 0 {
        Some(MouseButton::Primary)
    } else if code == 1 {
        Some(MouseButton::Middle)
    } else if code == 2 {
        Some(MouseButton::Secondary)
    } else {
        None
    }
}

/// Whether a surface of this size can be drawn by `common`: not empty, and of
/// the size the camera's viewport was last set to.
pub open spec fn surface_fits(common: SimulationCore, width: u32, height: u32) -> bool {
    &&& width > 0
    &&& height > 0
    &&& width == common.camera.viewport_width
    &&& height == common.camera.viewport_height
}

/// The frame drawn on a surface that fits.
pub open spec fn frame_of(common: SimulationCore) -> Frame {
    Frame {
        width: common.camera.viewport_width,
        height: common.camera.viewport_height,
        viewport_width: common.camera.viewport_width,
        viewport_height: common.camera.viewport_height,
    }
}

/// The step count after one more step; it stops at the top of its range.
pub open spec fn next_step(n: u64) -> u64 {
    if n == u64::MAX {
        n
    } else {
        (n + 1) as u64
    }
}

/// `common` after one step.
pub open spec fn stepped(common: SimulationCore) -> SimulationCore {
    SimulationCore {
        state: RuntimeState { step_count: next_step(common.state.step_count), ..common.state },
        ..common
    }
}

/// The matrices a species-interaction simulation may hold.
pub open spec fn matrix_fits(m: Seq<Seq<i32>>) -> bool {
    is_matrix(m) && m.len() >= 1
}

/// The kind called `name`, if there is one.
pub fn parse_simulation_kind(name: &str) -> (r: Option<SimulationKind>)
    ensures
        r == kind_named(name@),
{
    if text_eq(name, "gray_scott") {
        Some(SimulationKind::GrayScott)
    } else if text_eq(name, "particle_life") {
        Some(SimulationKind::ParticleLife)
    } else if text_eq(name, "pellets") {
        Some(SimulationKind::Pellets)
    } else if text_eq(name, "main_menu") {
        Some(SimulationKind::MainMenu)
    } else {
        None
    }
}

/// The button with mouse code `code`: 0 primary, 1 middle, 2 secondary.
pub fn mouse_button(code: u32) -> (r: Option<MouseButton>)
    ensures
        r == button_of(code),
{
    if code == 0 {
        Some(MouseButton::Primary)
    } else if code == 1 {
        Some(MouseButton::Middle)
    } else if code == 2 {
        Some(MouseButton::Secondary)
    } else {
        None
    }
}

fn clamp_coordinate(v: i64) -> (r: i64)
    ensures
        r == clamp_position(v as int),
{
    if v > POSITION_LIMIT {
        POSITION_LIMIT
    } else if v < -POSITION_LIMIT {
        -POSITION_LIMIT
    } else {
        v
    }
}

impl SimulationCore {
    pub open spec fn wf(&self) -> bool {
        camera_in_bounds(self.camera)
    }

    pub fn new(width: u32, height: u32) -> (r: SimulationCore)
        ensures
            r == fresh_common(width, height),
            r.wf(),
    {
        SimulationCore {
            state: RuntimeState { step_count: 0, interaction: None },
            camera: Camera::new(width, height),
            gui_visible: true,
        }
    }

    /// Draws a frame, after one step when `advance` is set. A surface that
    /// is empty or of another size than the viewport is refused and nothing
    /// changes.
    pub fn render(&mut self, width: u32, height: u32, advance: bool) -> (r: Result<
        Frame,
        SimulationError,
    >)
        ensures
            surface_fits(*old(self), width, height) ==> r == Ok::<Frame, SimulationError>(
                frame_of(*old(self)),
            ) && *final(self) == (SimulationCore {
                state: RuntimeState {
                    step_count: if advance {
                        next_step(old(self).state.step_count)
                    } else {
                        old(self).state.step_count
                    },
                    ..old(self).state
                },
                ..*old(self)
            }),
            !surface_fits(*old(self), width, height) ==> r == Err::<Frame, SimulationError>(
                SimulationError::GpuResourceFailure,
            ) && *final(self) == *old(self),
    {
        if width == 0 || height == 0 || width != self.camera.viewport_width || height
            != self.camera.viewport_height {
            return Err(SimulationError::GpuResourceFailure);
        }
        if advance && self.state.step_count < u64::MAX {
            self.state.step_count = self.state.step_count + 1;
        }
        Ok(
            Frame {
                width: self.camera.viewport_width,
                height: self.camera.viewport_height,
                viewport_width: self.camera.viewport_width,
                viewport_height: self.camera.viewport_height,
            },
        )
    }

    /// Records the pointer interaction; runtime state only.
    pub fn handle_mouse_interaction(&mut self, world_x: i64, world_y: i64, mouse_button_code: u32) -> (r:
        Result<(), SimulationError>)
        ensures
            button_of(mouse_button_code) matches Some(b) ==> r is Ok && *final(self) == (
            SimulationCore {
                state: RuntimeState {
                    interaction: Some(MouseInteraction { world_x, world_y, button: b }),
                    ..old(self).state
                },
                ..*old(self)
            }),
            button_of(mouse_button_code) is None ==> r == Err::<(), SimulationError>(
                SimulationError::InvalidValue,
            ) && *final(self) == *old(self),
    {
        match mouse_button(mouse_button_code) {
            Some(button) => {
                self.state.interaction = Some(MouseInteraction { world_x, world_y, button });
                Ok(())
            },
            None => Err(SimulationError::InvalidValue),
        }
    }

    pub fn zoom_camera_to_cursor(&mut self, delta: i64, cursor_x: i64, cursor_y: i64)
        requires
            old(self).wf(),
        ensures
            final(self).wf(),
            final(self).state == old(self).state,
            final(self).gui_visible == old(self).gui_visible,
            final(self).camera.zoom == zoomed(old(self).camera.zoom as int, delta as int),
            final(self).camera.position_x == clamp_position(
                anchored(
                    old(self).camera.position_x as int,
                    clamp_position(cursor_x as int),
                    old(self).camera.zoom as int,
                    final(self).camera.zoom as int,
                ),
            ),
            final(self).camera.position_y == clamp_position(
                anchored(
                    old(self).camera.position_y as int,
                    clamp_position(cursor_y as int),
                    old(self).camera.zoom as int,
                    final(self).camera.zoom as int,
                ),
            ),
            final(self).camera.viewport_width == old(self).camera.viewport_width,
            final(self).camera.viewport_height == old(self).camera.viewport_height,
    {
        let x = clamp_coordinate(cursor_x);
        let y = clamp_coordinate(cursor_y);
        self.camera.zoom_to_cursor(delta, x, y);
    }
}

impl SimulationType {
    pub open spec fn common(&self) -> SimulationCore {
        match self {
            SimulationType::GrayScott(s) => s.common,
            SimulationType::ParticleLife(s) => s.common,
            SimulationType::Pellets(s) => s.common,
            SimulationType::MainMenu(s) => s.common,
        }
    }

    /// `self` with its shared part replaced by `c`.
    pub open spec fn with_common(self, c: SimulationCore) -> SimulationType {
        match self {
            SimulationType::GrayScott(s) => SimulationType::GrayScott(GrayScottModel { common: c }),
            SimulationType::ParticleLife(s) => SimulationType::ParticleLife(
                ParticleLifeModel { common: c, ..s },
            ),
            SimulationType::Pellets(s) => SimulationType::Pellets(PelletsModel { common: c, ..s }),
            SimulationType::MainMenu(s) => SimulationType::MainMenu(MainMenuModel { common: c }),
        }
    }

    pub open spec fn kind(&self) -> SimulationKind {
        match self {
            SimulationType::GrayScott(_) => SimulationKind::GrayScott,
            SimulationType::ParticleLife(_) => SimulationKind::ParticleLife,
            SimulationType::Pellets(_) => SimulationKind::Pellets,
            SimulationType::MainMenu(_) => SimulationKind::MainMenu,
        }
    }

    /// Settings meet their kind's validation, and the camera is in bounds.
    pub open spec fn wf(&self) -> bool {
        &&& self.common().wf()
        &&& match self {
            SimulationType::ParticleLife(s) => matrix_fits(s.force_matrix@),
            SimulationType::Pellets(s) => valid_settings(s.settings),
            _ => true,
        }
    }

    /// The presettable settings, as a snapshot.
    pub open spec fn settings_spec(&self) -> SettingsSnapshot {
        match self {
            SimulationType::ParticleLife(s) => SettingsSnapshot::ParticleLife(s.force_matrix),
            SimulationType::Pellets(s) => SettingsSnapshot::Pellets(s.settings),
            _ => SettingsSnapshot::Empty,
        }
    }

    /// Whether `snapshot` belongs to this kind and passes its validation.
    pub open spec fn snapshot_fits(&self, snapshot: SettingsSnapshot) -> bool {
        match (self, snapshot) {
            (SimulationType::ParticleLife(_), SettingsSnapshot::ParticleLife(m)) => matrix_fits(m@),
            (SimulationType::Pellets(_), SettingsSnapshot::Pellets(s)) => valid_settings(s),
            (SimulationType::GrayScott(_), SettingsSnapshot::Empty) => true,
            (SimulationType::MainMenu(_), SettingsSnapshot::Empty) => true,
            _ => false,
        }
    }

    /// Whether `snapshot` belongs to another kind than this one.
    pub open spec fn snapshot_kind_differs(&self, snapshot: SettingsSnapshot) -> bool {
        match (self, snapshot) {
            (SimulationType::ParticleLife(_), SettingsSnapshot::ParticleLife(_)) => false,
            (SimulationType::Pellets(_), SettingsSnapshot::Pellets(_)) => false,
            (SimulationType::GrayScott(_), SettingsSnapshot::Empty) => false,
            (SimulationType::MainMenu(_), SettingsSnapshot::Empty) => false,
            _ => true,
        }
    }

    /// `self` holding the settings of a snapshot that fits.
    pub open spec fn with_settings(self, snapshot: SettingsSnapshot) -> SimulationType {
        match (self, snapshot) {
            (SimulationType::ParticleLife(s), SettingsSnapshot::ParticleLife(m)) => SimulationType::ParticleLife(
                ParticleLifeModel { force_matrix: m, ..s },
            ),
            (SimulationType::Pellets(s), SettingsSnapshot::Pellets(p)) => SimulationType::Pellets(
                PelletsModel { settings: p, ..s },
            ),
            _ => self,
        }
    }

    /// A simulation of the kind called `kind`, with default settings and a
    /// viewport of the given size.
    pub fn new(kind: &str, width: u32, height: u32) -> (r: Result<SimulationType, SimulationError>)
        ensures
            kind_named(kind@) is None ==> r == Err::<SimulationType, SimulationError>(
                SimulationError::UnknownSimulationKind,
            ),
            kind_named(kind@) matches Some(k) ==> r matches Ok(s) && s.kind() == k && s.wf()
                && s.common() == fresh_common(width, height) && (s matches SimulationType::Pellets(p)
                ==> p.settings == crate::pellets::default_settings()) && (
            s matches SimulationType::ParticleLife(p) ==> p.force_matrix@ =~= Seq::new(
                DEFAULT_SPECIES_COUNT as nat,
                |i: int| Seq::new(DEFAULT_SPECIES_COUNT as nat, |j: int| 0i32),
            )),
    {
        let common = SimulationCore::new(width, height);
        match parse_simulation_kind(kind) {
            Some(SimulationKind::GrayScott) => Ok(SimulationType::GrayScott(GrayScottModel { common })),
            Some(SimulationKind::ParticleLife) => {
                let force_matrix = ForceMatrix::zeros(DEFAULT_SPECIES_COUNT);
                Ok(SimulationType::ParticleLife(ParticleLifeModel { force_matrix, common }))
            },
            Some(SimulationKind::Pellets) => {
                let settings = Settings::default();
                Ok(SimulationType::Pellets(PelletsModel { settings, common }))
            },
            Some(SimulationKind::MainMenu) => Ok(SimulationType::MainMenu(MainMenuModel { common })),
            None => Err(SimulationError::UnknownSimulationKind),
        }
    }

    /// Advances one step and draws. A surface that is empty or of another
    /// size than the viewport is refused and nothing changes.
    pub fn render_frame(&mut self, width: u32, height: u32) -> (r: Result<Frame, SimulationError>)
        ensures
            surface_fits(old(self).common(), width, height) ==> r == Ok::<Frame, SimulationError>(
                frame_of(old(self).common()),
            ) && *final(self) == old(self).with_common(stepped(old(self).common())),
            !surface_fits(old(self).common(), width, height) ==> r == Err::<Frame, SimulationError>(
                SimulationError::GpuResourceFailure,
            ) && *final(self) == *old(self),
    {
        let ghost before = *self;
        let r = self.common_mut().render(width, height, true);
        proof {
            if r is Err {
                assert(before.with_common(before.common()) == before);
            }
        }
        r
    }

    /// Draws the current state without stepping (paused mode).
    pub fn render_frame_static(&mut self, width: u32, height: u32) -> (r: Result<Frame, SimulationError>)
        ensures
            *final(self) == *old(self),
            surface_fits(old(self).common(), width, height) ==> r == Ok::<Frame, SimulationError>(
                frame_of(old(self).common()),
            ),
            !surface_fits(old(self).common(), width, height) ==> r == Err::<Frame, SimulationError>(
                SimulationError::GpuResourceFailure,
            ),
    {
        let mut c = *self.common_ref();
        c.render(width, height, false)
    }

    /// Sets the viewport to the new surface size; nothing else changes.
    pub fn resize(&mut self, width: u32, height: u32)
        ensures
            *final(self) == old(self).with_common(
                SimulationCore {
                    camera: Camera {
                        viewport_width: width,
                        viewport_height: height,
                        ..old(self).common().camera
                    },
                    ..old(self).common()
                },
            ),
    {
        self.common_mut().camera.resize(width, height);
    }

    /// Sets one setting by name. Runtime state never changes; an unknown name
    /// or a refused value changes nothing.
    pub fn update_setting(&mut self, setting_name: &str, value: SettingValue) -> (r: Result<
        (),
        SimulationError,
    >)
        requires
            old(self).wf(),
        ensures
            final(self).wf(),
            final(self).common() == old(self).common(),
            match *old(self) {
                SimulationType::Pellets(p) => match setting_named(setting_name@) {
                    None => r == Err::<(), SimulationError>(SimulationError::UnknownSetting)
                        && *final(self) == *old(self),
                    Some(f) => if accepts(f, value) {
                        r is Ok && *final(self) == SimulationType::Pellets(
                            PelletsModel { settings: with_setting(p.settings, f, value), ..p },
                        )
                    } else {
                        r == Err::<(), SimulationError>(SimulationError::InvalidValue)
                            && *final(self) == *old(self)
                    },
                },
                _ => r == Err::<(), SimulationError>(SimulationError::UnknownSetting)
                    && *final(self) == *old(self),
            },
    {
        match self {
            SimulationType::Pellets(p) => p.settings.update_setting(setting_name, value),
            SimulationType::ParticleLife(_) => Err(SimulationError::UnknownSetting),
            SimulationType::GrayScott(_) => Err(SimulationError::UnknownSetting),
            SimulationType::MainMenu(_) => Err(SimulationError::UnknownSetting),
        }
    }

    /// The presettable settings.
    pub fn get_settings(&self) -> (r: SettingsSnapshot)
        ensures
            match (r, self.settings_spec()) {
                (SettingsSnapshot::ParticleLife(a), SettingsSnapshot::ParticleLife(b)) => a@ == b@,
                (a, b) => a == b,
            },
    {
        match self {
            SimulationType::Pellets(p) => SettingsSnapshot::Pellets(p.settings),
            SimulationType::ParticleLife(p) => SettingsSnapshot::ParticleLife(p.force_matrix.duplicate()),
            SimulationType::GrayScott(_) => SettingsSnapshot::Empty,
            SimulationType::MainMenu(_) => SettingsSnapshot::Empty,
        }
    }

    /// The runtime state.
    pub fn get_state(&self) -> (r: RuntimeState)
        ensures
            r == self.common().state,
    {
        self.common_ref().state
    }

    /// Records a pointer interaction at a world point; `mouse_button_code` is
    /// 0 (primary), 1 (middle) or 2 (secondary). Settings never change.
    pub fn handle_mouse_interaction(&mut self, world_x: i64, world_y: i64, mouse_button_code: u32) -> (r:
        Result<(), SimulationError>)
        ensures
            button_of(mouse_button_code) matches Some(b) ==> r is Ok && *final(self) == old(
                self,
            ).with_common(
                SimulationCore {
                    state: RuntimeState {
                        interaction: Some(MouseInteraction { world_x, world_y, button: b }),
                        ..old(self).common().state
                    },
                    ..old(self).common()
                },
            ),
            button_of(mouse_button_code) is None ==> r == Err::<(), SimulationError>(
                SimulationError::InvalidValue,
            ) && *final(self) == *old(self),
    {
        let ghost before = *self;
        let r = self.common_mut().handle_mouse_interaction(world_x, world_y, mouse_button_code);
        proof {
            if r is Err {
                assert(before.with_common(before.common()) == before);
            }
        }
        r
    }

    /// Moves the camera by `(delta_x, delta_y)` world units.
    pub fn pan_camera(&mut self, delta_x: i64, delta_y: i64)
        requires
            old(self).wf(),
        ensures
            final(self).wf(),
            *final(self) == old(self).with_common(
                SimulationCore {
                    camera: Camera {
                        position_x: clamp_position(old(self).common().camera.position_x + delta_x) as i64,
                        position_y: clamp_position(old(self).common().camera.position_y + delta_y) as i64,
                        ..old(self).common().camera
                    },
                    ..old(self).common()
                },
            ),
    {
        self.common_mut().camera.pan(delta_x, delta_y);
    }

    /// Changes the camera zoom by the fraction `delta`.
    pub fn zoom_camera(&mut self, delta: i64)
        requires
            old(self).wf(),
        ensures
            final(self).wf(),
            *final(self) == old(self).with_common(
                SimulationCore {
                    camera: Camera {
                        zoom: zoomed(old(self).common().camera.zoom as int, delta as int) as i64,
                        ..old(self).common().camera
                    },
                    ..old(self).common()
                },
            ),
    {
        self.common_mut().camera.zoom_by(delta);
    }

    /// Changes the zoom by the fraction `delta`, keeping the world point
    /// `(cursor_x, cursor_y)` in place on screen.
    pub fn zoom_camera_to_cursor(&mut self, delta: i64, cursor_x: i64, cursor_y: i64)
        requires
            old(self).wf(),
        ensures
            final(self).wf(),
            *final(self) == old(self).with_common(final(self).common()),
            final(self).common().state == old(self).common().state,
            final(self).common().gui_visible == old(self).common().gui_visible,
            final(self).common().camera.zoom == zoomed(
                old(self).common().camera.zoom as int,
                delta as int,
            ),
            final(self).common().camera.position_x == clamp_position(
                anchored(
                    old(self).common().camera.position_x as int,
                    clamp_position(cursor_x as int),
                    old(self).common().camera.zoom as int,
                    final(self).common().camera.zoom as int,
                ),
            ),
            final(self).common().camera.position_y == clamp_position(
                anchored(
                    old(self).common().camera.position_y as int,
                    clamp_position(cursor_y as int),
                    old(self).common().camera.zoom as int,
                    final(self).common().camera.zoom as int,
                ),
            ),
            final(self).common().camera.viewport_width == old(self).common().camera.viewport_width,
            final(self).common().camera.viewport_height == old(self).common().camera.viewport_height,
    {
        self.common_mut().zoom_camera_to_cursor(delta, cursor_x, cursor_y);
    }

    /// Puts the camera back at the origin with zoom one.
    pub fn reset_camera(&mut self)
        requires
            old(self).wf(),
        ensures
            final(self).wf(),
            *final(self) == old(self).with_common(
                SimulationCore {
                    camera: Camera::new_spec(
                        old(self).common().camera.viewport_width,
                        old(self).common().camera.viewport_height,
                    ),
                    ..old(self).common()
                },
            ),
    {
        self.common_mut().camera.reset();
    }

    /// The camera.
    pub fn get_camera_state(&self) -> (r: Camera)
        ensures
            r == self.common().camera,
    {
        self.common_ref().camera
    }

    /// Replaces the settings by `settings` and keeps the runtime state.
    /// Settings of another kind, or that fail validation, change nothing.
    pub fn apply_settings(&mut self, settings: SettingsSnapshot) -> (r: Result<(), SimulationError>)
        requires
            old(self).wf(),
        ensures
            final(self).wf(),
            old(self).snapshot_kind_differs(settings) ==> r == Err::<(), SimulationError>(
                SimulationError::WrongSimulationKind,
            ) && *final(self) == *old(self),
            !old(self).snapshot_kind_differs(settings) && !old(self).snapshot_fits(settings) ==> r
                == Err::<(), SimulationError>(SimulationError::InvalidValue) && *final(self)
                == *old(self),
            old(self).snapshot_fits(settings) ==> r is Ok && *final(self) == old(self).with_settings(
                settings,
            ),
    {
        match (self, settings) {
            (SimulationType::Pellets(p), SettingsSnapshot::Pellets(s)) => {
                if s.is_valid() {
                    p.settings = s;
                    Ok(())
                } else {
                    Err(SimulationError::InvalidValue)
                }
            },
            (SimulationType::ParticleLife(p), SettingsSnapshot::ParticleLife(m)) => {
                if m.size() >= 1 && m.is_well_formed() {
                    p.force_matrix = m;
                    Ok(())
                } else {
                    Err(SimulationError::InvalidValue)
                }
            },
            (SimulationType::GrayScott(_), SettingsSnapshot::Empty) => Ok(()),
            (SimulationType::MainMenu(_), SettingsSnapshot::Empty) => Ok(()),
            _ => Err(SimulationError::WrongSimulationKind),
        }
    }

    /// Replaces the settings by a loaded preset and resets the runtime state.
    /// A preset of another kind, or that fails validation, changes nothing.
    pub fn load_preset(&mut self, preset: SettingsSnapshot) -> (r: Result<(), SimulationError>)
        requires
            old(self).wf(),
        ensures
            final(self).wf(),
            old(self).snapshot_kind_differs(preset) ==> r == Err::<(), SimulationError>(
                SimulationError::WrongSimulationKind,
            ) && *final(self) == *old(self),
            !old(self).snapshot_kind_differs(preset) && !old(self).snapshot_fits(preset) ==> r
                == Err::<(), SimulationError>(SimulationError::InvalidValue) && *final(self)
                == *old(self),
            old(self).snapshot_fits(preset) ==> r is Ok && *final(self) == old(self).with_settings(
                preset,
            ).with_common(SimulationCore { state: fresh_state(), ..old(self).common() }),
    {
        let r = self.apply_settings(preset);
        if r.is_ok() {
            self.reset_runtime_state();
        }
        r
    }

    /// Starts the runtime state afresh; settings stay.
    pub fn reset_runtime_state(&mut self)
        requires
            old(self).wf(),
        ensures
            final(self).wf(),
            *final(self) == old(self).with_common(
                SimulationCore { state: fresh_state(), ..old(self).common() },
            ),
    {
        self.common_mut().state = RuntimeState { step_count: 0, interaction: None };
    }

    /// Shows or hides the GUI; returns whether it is now visible.
    pub fn toggle_gui(&mut self) -> (r: bool)
        requires
            old(self).wf(),
        ensures
            final(self).wf(),
            r == !old(self).common().gui_visible,
            *final(self) == old(self).with_common(
                SimulationCore { gui_visible: r, ..old(self).common() },
            ),
    {
        let c = self.common_mut();
        c.gui_visible = !c.gui_visible;
        c.gui_visible
    }

    pub fn is_gui_visible(&self) -> (r: bool)
        ensures
            r == self.common().gui_visible,
    {
        self.common_ref().gui_visible
    }

    /// Draws fresh settings within each field's range; runtime state stays.
    /// Kinds without tunable settings are left as they are.
    pub fn randomize_settings(&mut self)
        requires
            old(self).wf(),
        ensures
            final(self).wf(),
            final(self).kind() == old(self).kind(),
            final(self).common() == old(self).common(),
            *old(self) matches SimulationType::Pellets(p) ==> *final(self) matches SimulationType::Pellets(q)
                && crate::pellets::randomized_from(p.settings, q.settings),
            *old(self) matches SimulationType::ParticleLife(p) ==> *final(self) matches SimulationType::ParticleLife(q)
                && q.force_matrix@.len() == p.force_matrix@.len()
                && forall|i: int, j: int|
                    0 <= i < q.force_matrix@.len() && 0 <= j < q.force_matrix@.len() ==> -crate::matrix::COEFFICIENT_UNIT
                        <= #[trigger] q.force_matrix@[i][j] <= crate::matrix::COEFFICIENT_UNIT,
            *old(self) is GrayScott || *old(self) is MainMenu ==> *final(self) == *old(self),
    {
        match self {
            SimulationType::Pellets(p) => p.settings.randomize(),
            SimulationType::ParticleLife(p) => p.force_matrix.randomize(),
            SimulationType::GrayScott(_) => {},
            SimulationType::MainMenu(_) => {},
        }
    }

    /// Applies `op` to the force matrix of a species-interaction simulation
    /// and returns the matrix flattened row after row, the content of its
    /// rebuilt device buffer. Other kinds are refused and nothing changes.
    pub fn apply_force_matrix_op(&mut self, op: crate::matrix::MatrixOp) -> (r: Result<
        Vec<i32>,
        SimulationError,
    >)
        requires
            old(self).wf(),
        ensures
            final(self).wf(),
            *old(self) matches SimulationType::ParticleLife(p) ==> *final(self) matches SimulationType::ParticleLife(q)
                && q.common == p.common
                && q.force_matrix@ == crate::matrix::applied(p.force_matrix@, op)
                && (r matches Ok(data) && data@ == crate::matrix::flattened(q.force_matrix@)),
            !(*old(self) is ParticleLife) ==> r == Err::<Vec<i32>, SimulationError>(
                SimulationError::WrongSimulationKind,
            ) && *final(self) == *old(self),
    {
        match self {
            SimulationType::ParticleLife(p) => {
                proof {
                    crate::laws::lemma_applied_is_matrix(p.force_matrix@, op);
                }
                p.force_matrix.apply(op);
                Ok(p.force_matrix.flatten())
            },
            _ => Err(SimulationError::WrongSimulationKind),
        }
    }

    /// Whether the settings pass their kind's validation and the camera is in
    /// bounds.
    pub fn is_well_formed(&self) -> (r: bool)
        ensures
            r == self.wf(),
    {
        let c = self.common_ref().camera;
        let camera_ok = -POSITION_LIMIT <= c.position_x && c.position_x <= POSITION_LIMIT
            && -POSITION_LIMIT <= c.position_y && c.position_y <= POSITION_LIMIT
            && crate::camera::MIN_ZOOM <= c.zoom && c.zoom <= crate::camera::MAX_ZOOM;
        let settings_ok = match self {
            SimulationType::ParticleLife(p) => p.force_matrix.size() >= 1
                && p.force_matrix.is_well_formed(),
            SimulationType::Pellets(p) => p.settings.is_valid(),
            SimulationType::GrayScott(_) => true,
            SimulationType::MainMenu(_) => true,
        };
        camera_ok && settings_ok
    }

    fn common_mut(&mut self) -> (r: &mut SimulationCore)
        ensures
            *r == old(self).common(),
            *final(self) == old(self).with_common(*final(r)),
    {
        match self {
            SimulationType::GrayScott(s) => &mut s.common,
            SimulationType::ParticleLife(s) => &mut s.common,
            SimulationType::Pellets(s) => &mut s.common,
            SimulationType::MainMenu(s) => &mut s.common,
        }
    }

    fn common_ref(&self) -> (r: &SimulationCore)
        ensures
            *r == self.common(),
    {
        match self {
            SimulationType::GrayScott(s) => &s.common,
            SimulationType::ParticleLife(s) => &s.common,
            SimulationType::Pellets(s) => &s.common,
            SimulationType::MainMenu(s) => &s.common,
        }
    }
}

} // verus!
