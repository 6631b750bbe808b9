//! Settings of the particle-collision simulation.
//!
//! Physical quantities are fixed-point: a stored value `v` stands for
//! `v / UNIT`. Damping factors and strengths are fractions of `UNIT`.

use crate::error::SimulationError;
use crate::random::{random_in, random_ratio, random_u32};
use crate::text::text_eq;
use vstd::prelude::*;

verus! {

/// Number of stored units in one whole quantity.
pub const UNIT: i64 = 1_000_000;

/// Largest whole number that a setting accepts as an integer value.
pub const MAX_WHOLE: i64 = 1_000_000_000_000;

/// Page colour behind the particles.
#[derive(Clone, Copy, Debug, PartialEq, Eq, Structural)]
pub enum Background {
    Black,
    White,
}

/// What the particle colour shows.
#[derive(Clone, Copy, Debug, PartialEq, Eq, Structural)]
pub enum ColoringMode {
    Density,
    Velocity,
}

/// The user-tunable parameters of the particle-collision simulation.
#[derive(Clone, Copy, Debug, PartialEq, Eq, Structural)]
pub struct Settings {
    pub particle_count: u32,
    pub particle_size: i64,
    /// Share of energy kept in a collision.
    pub collision_damping: i64,
    pub initial_velocity_max: i64,
    pub initial_velocity_min: i64,
    pub random_seed: u32,
    pub background_type: Background,
    pub gravitational_constant: i64,
    /// Share of velocity kept per step.
    pub energy_damping: i64,
    pub gravity_softening: i64,
    /// Radius of the density neighbourhood; also the spatial grid's cell size.
    pub density_radius: i64,
    pub coloring_mode: ColoringMode,
    pub long_range_gravity_strength: i64,
    pub density_damping_enabled: bool,
    /// How strongly overlapping particles are pushed apart.
    pub overlap_resolution_strength: i64,
}

/// A value handed to `Settings::update_setting`.
#[derive(Clone, Debug)]
pub enum SettingValue {
    /// A whole number.
    Integer(i64),
    /// A fixed-point number in units of `1 / UNIT`.
    Decimal(i64),
    Flag(bool),
    Text(String),
}

/// The settings by name.
#[derive(Clone, Copy, Debug, PartialEq, Eq, Structural)]
pub enum SettingName {
    ParticleCount,
    ParticleSize,
    CollisionDamping,
    InitialVelocityMax,
    InitialVelocityMin,
    RandomSeed,
    BackgroundType,
    GravitationalConstant,
    EnergyDamping,
    GravitySoftening,
    DensityRadius,
    ColoringMode,
    LongRangeGravityStrength,
    DensityDampingEnabled,
    OverlapResolutionStrength,
}

pub open spec fn default_settings() -> Settings {
    Settings {
        particle_count: 5000,
        particle_size: 12_000,
        collision_damping: 1_000_000,
        initial_velocity_max: 150_000,
        initial_velocity_min: 50_000,
        random_seed: 0,
        background_type: Background::White,
        gravitational_constant: 1,
        energy_damping: 1_000_000,
        gravity_softening: 3_000,
        density_radius: 40_000,
        coloring_mode: ColoringMode::Density,
        long_range_gravity_strength: 0,
        density_damping_enabled: true,
        overlap_resolution_strength: 20_000,
    }
}

/// `x` lies in `[0, 1]`.
pub open spec fn is_fraction(x: int) -> bool {
    0 <= x <= UNIT
}

/// The range check of a numeric setting.
pub open spec fn in_range(name: SettingName, x: int) -> bool {
    match name {
        SettingName::CollisionDamping | SettingName::EnergyDamping
        | SettingName::LongRangeGravityStrength
        | SettingName::OverlapResolutionStrength => is_fraction(x),
        SettingName::ParticleSize | SettingName::DensityRadius => 0 < x,
        _ => 0 <= x,
    }
}

/// Damping factors and strengths are fractions, sizes are positive and the
/// other quantities are not negative.
pub open spec fn valid_settings(s: Settings) -> bool {
    &&& 0 < s.particle_size
    &&& is_fraction(s.collision_damping as int)
    &&& 0 <= s.initial_velocity_max
    &&& 0 <= s.initial_velocity_min
    &&& 0 <= s.gravitational_constant
    &&& is_fraction(s.energy_damping as int)
    &&& 0 <= s.gravity_softening
    &&& 0 < s.density_radius
    &&& is_fraction(s.long_range_gravity_strength as int)
    &&& is_fraction(s.overlap_resolution_strength as int)
}

/// The setting called `name`.
pub open spec fn setting_named(name: Seq<char>) -> Option<SettingName> {
    if name == "particle_count"@ {
        Some(SettingName::ParticleCount)
    } else if name == "particle_size"@ {
        Some(SettingName::ParticleSize)
    } else if name == "collision_damping"@ {
        Some(SettingName::CollisionDamping)
    } else if name == "initial_velocity_max"@ {
        Some(SettingName::InitialVelocityMax)
    } else if name == "initial_velocity_min"@ {
        Some(SettingName::InitialVelocityMin)
    } else if name == "random_seed"@ {
        Some(SettingName::RandomSeed)
    } else if name == "background_type"@ {
        Some(SettingName::BackgroundType)
    } else if name == "gravitational_constant"@ {
        Some(SettingName::GravitationalConstant)
    } else if name == "energy_damping"@ {
        Some(SettingName::EnergyDamping)
    } else if name == "gravity_softening"@ {
        Some(SettingName::GravitySoftening)
    } else if name == "density_radius"@ {
        Some(SettingName::DensityRadius)
    } else if name == "coloring_mode"@ {
        Some(SettingName::ColoringMode)
    } else if name == "long_range_gravity_strength"@ {
        Some(SettingName::LongRangeGravityStrength)
    } else if name == "density_damping_enabled"@ {
        Some(SettingName::DensityDampingEnabled)
    } else if name == "overlap_resolution_strength"@ {
        Some(SettingName::OverlapResolutionStrength)
    } else {
        None
    }
}

/// The fixed-point number that `v` stands for, if it is a number.
pub open spec fn decimal_of(v: SettingValue) -> Option<int> {
    match v {
        SettingValue::Decimal(x) => Some(x as int),
        SettingValue::Integer(n) => if -MAX_WHOLE <= n <= MAX_WHOLE {
            Some(n * UNIT)
        } else {
            None
        },
        _ => None,
    }
}

/// The `u32` that `v` stands for, if it is a whole number of that range.
pub open spec fn count_of(v: SettingValue) -> Option<u32> {
    match v {
        SettingValue::Integer(n) => if 0 <= n <= u32::MAX {
            Some(n as u32)
        } else {
            None
        },
        _ => None,
    }
}

pub open spec fn background_of(v: SettingValue) -> Option<Background> {
    match v {
        SettingValue::Text(t) => if t@ == "black"@ {
            Some(Background::Black)
        } else if t@ == "white"@ {
            Some(Background::White)
        } else {
            None
        },
        _ => None,
    }
}

pub open spec fn coloring_of(v: SettingValue) -> Option<ColoringMode> {
    match v {
        SettingValue::Text(t) => if t@ == "density"@ {
            Some(ColoringMode::Density)
        } else if t@ == "velocity"@ {
            Some(ColoringMode::Velocity)
        } else {
            None
        },
        _ => None,
    }
}

pub open spec fn is_count_setting(name: SettingName) -> bool {
    name == SettingName::ParticleCount || name == SettingName::RandomSeed
}

pub open spec fn is_numeric_setting(name: SettingName) -> bool {
    !is_count_setting(name) && name != SettingName::BackgroundType && name
        != SettingName::ColoringMode && name != SettingName::DensityDampingEnabled
}

/// Whether setting `name` accepts `v`: of the right type and in range.
pub open spec fn accepts(name: SettingName, v: SettingValue) -> bool {
    if is_count_setting(name) {
        count_of(v) is Some
    } else if name == SettingName::BackgroundType {
        background_of(v) is Some
    } else if name == SettingName::ColoringMode {
        coloring_of(v) is Some
    } else if name == SettingName::DensityDampingEnabled {
        v is Flag
    } else {
        decimal_of(v) matches Some(x) && in_range(name, x)
    }
}

/// `s` with setting `name` set to `v`, for a value that the setting accepts.
pub open spec fn with_setting(s: Settings, name: SettingName, v: SettingValue) -> Settings {
    let x = decimal_of(v)->Some_0 as i64;
    let c = count_of(v)->Some_0;
    match name {
        SettingName::ParticleCount => Settings { particle_count: c, ..s },
        SettingName::ParticleSize => Settings { particle_size: x, ..s },
        SettingName::CollisionDamping => Settings { collision_damping: x, ..s },
        SettingName::InitialVelocityMax => Settings { initial_velocity_max: x, ..s },
        SettingName::InitialVelocityMin => Settings { initial_velocity_min: x, ..s },
        SettingName::RandomSeed => Settings { random_seed: c, ..s },
        SettingName::BackgroundType => Settings { background_type: background_of(v)->Some_0, ..s },
        SettingName::GravitationalConstant => Settings { gravitational_constant: x, ..s },
        SettingName::EnergyDamping => Settings { energy_damping: x, ..s },
        SettingName::GravitySoftening => Settings { gravity_softening: x, ..s },
        SettingName::DensityRadius => Settings { density_radius: x, ..s },
        SettingName::ColoringMode => Settings { coloring_mode: coloring_of(v)->Some_0, ..s },
        SettingName::LongRangeGravityStrength => Settings { long_range_gravity_strength: x, ..s },
        SettingName::DensityDampingEnabled => Settings {
            density_damping_enabled: v->Flag_0,
            ..s
        },
        SettingName::OverlapResolutionStrength => Settings { overlap_resolution_strength: x, ..s },
    }
}

/// The ranges that `Settings::randomize` draws from; the particle count,
/// background and colouring mode are kept.
pub open spec fn randomized_from(before: Settings, after: Settings) -> bool {
    &&& after.particle_count == before.particle_count
    &&& after.background_type == before.background_type
    &&& after.coloring_mode == before.coloring_mode
    &&& 1_000 <= after.particle_size < 5_000
    &&& 500_000 <= after.collision_damping < 950_000
    &&& 100_000 <= after.initial_velocity_max < 500_000
    &&& 50_000 <= after.initial_velocity_min < after.initial_velocity_max * 7 / 10
    &&& 3_000 <= after.gravitational_constant < 12_000
    &&& 900_000 <= after.energy_damping < 990_000
    &&& 3_000 <= after.gravity_softening < 8_000
    &&& 20_000 <= after.density_radius < 50_000
    &&& 0 <= after.long_range_gravity_strength < 1_000_000
    &&& 10_000 <= after.overlap_resolution_strength < 100_000
}

/// The setting called `name`, if there is one.
pub fn parse_setting_name(name: &str) -> (r: Option<SettingName>)
    ensures
        r == setting_named(name@),
{
    if text_eq(name, "particle_count") {
        Some(SettingName::ParticleCount)
    } else if text_eq(name, "particle_size") {
        Some(SettingName::ParticleSize)
    } else if text_eq(name, "collision_damping") {
        Some(SettingName::CollisionDamping)
    } else if text_eq(name, "initial_velocity_max") {
        Some(SettingName::InitialVelocityMax)
    } else if text_eq(name, "initial_velocity_min") {
        Some(SettingName::InitialVelocityMin)
    } else if text_eq(name, "random_seed") {
        Some(SettingName::RandomSeed)
    } else if text_eq(name, "background_type") {
        Some(SettingName::BackgroundType)
    } else if text_eq(name, "gravitational_constant") {
        Some(SettingName::GravitationalConstant)
    } else if text_eq(name, "energy_damping") {
        Some(SettingName::EnergyDamping)
    } else if text_eq(name, "gravity_softening") {
        Some(SettingName::GravitySoftening)
    } else if text_eq(name, "density_radius") {
        Some(SettingName::DensityRadius)
    } else if text_eq(name, "coloring_mode") {
        Some(SettingName::ColoringMode)
    } else if text_eq(name, "long_range_gravity_strength") {
        Some(SettingName::LongRangeGravityStrength)
    } else if text_eq(name, "density_damping_enabled") {
        Some(SettingName::DensityDampingEnabled)
    } else if text_eq(name, "overlap_resolution_strength") {
        Some(SettingName::OverlapResolutionStrength)
    } else {
        None
    }
}

fn decimal_value(v: &SettingValue) -> (r: Option<i64>)
    ensures
        r matches Some(x) ==> decimal_of(*v) == Some(x as int),
        r is None ==> decimal_of(*v) is None,
{
    match v {
        SettingValue::Decimal(x) => Some(*x),
        SettingValue::Integer(n) => {
            if -MAX_WHOLE <= *n && *n <= MAX_WHOLE {
                Some(*n * UNIT)
            } else {
                None
            }
        },
        _ => None,
    }
}

fn count_value(v: &SettingValue) -> (r: Option<u32>)
    ensures
        r == count_of(*v),
{
    match v {
        SettingValue::Integer(n) => {
            if 0 <= *n && *n <= u32::MAX as i64 {
                Some(*n as u32)
            } else {
                None
            }
        },
        _ => None,
    }
}

fn background_value(v: &SettingValue) -> (r: Option<Background>)
    ensures
        r == background_of(*v),
{
    match v {
        SettingValue::Text(t) => {
            if text_eq(t.as_str(), "black") {
                Some(Background::Black)
            } else if text_eq(t.as_str(), "white") {
                Some(Background::White)
            } else {
                None
            }
        },
        _ => None,
    }
}

fn coloring_value(v: &SettingValue) -> (r: Option<ColoringMode>)
    ensures
        r == coloring_of(*v),
{
    match v {
        SettingValue::Text(t) => {
            if text_eq(t.as_str(), "density") {
                Some(ColoringMode::Density)
            } else if text_eq(t.as_str(), "velocity") {
                Some(ColoringMode::Velocity)
            } else {
                None
            }
        },
        _ => None,
    }
}

fn fraction_ok(x: i64) -> (r: bool)
    ensures
        r == is_fraction(x as int),
{
    0 <= x && x <= UNIT
}

impl Default for Settings {
    fn default() -> (r: Settings)
        ensures
            r == default_settings(),
    {
        Settings {
            particle_count: 5000,
            particle_size: 12_000,
            collision_damping: 1_000_000,
            initial_velocity_max: 150_000,
            initial_velocity_min: 50_000,
            random_seed: 0,
            background_type: Background::White,
            gravitational_constant: 1,
            energy_damping: 1_000_000,
            gravity_softening: 3_000,
            density_radius: 40_000,
            coloring_mode: ColoringMode::Density,
            long_range_gravity_strength: 0,
            density_damping_enabled: true,
            overlap_resolution_strength: 20_000,
        }
    }
}

impl Settings {
    pub open spec fn valid(&self) -> bool {
        valid_settings(*self)
    }

    /// Whether these settings pass validation.
    pub fn is_valid(&self) -> (r: bool)
        ensures
            r == self.valid(),
    {
        0 < self.particle_size && fraction_ok(self.collision_damping) && 0
            <= self.initial_velocity_max && 0 <= self.initial_velocity_min && 0
            <= self.gravitational_constant && fraction_ok(self.energy_damping) && 0
            <= self.gravity_softening && 0 < self.density_radius && fraction_ok(
            self.long_range_gravity_strength,
        ) && fraction_ok(self.overlap_resolution_strength)
    }

    /// Sets the setting called `name` to `value`. An unknown name or a value
    /// of the wrong type or range changes nothing.
    pub fn update_setting(&mut self, name: &str, value: SettingValue) -> (r: Result<
        (),
        SimulationError,
    >)
        ensures
            setting_named(name@) is None ==> r == Err::<(), SimulationError>(
                SimulationError::UnknownSetting,
            ) && *final(self) == *old(self),
            setting_named(name@) matches Some(f) ==> if accepts(f, value) {
                r is Ok && *final(self) == with_setting(*old(self), f, value)
            } else {
                r == Err::<(), SimulationError>(SimulationError::InvalidValue) && *final(self)
                    == *old(self)
            },
    {
        let field = match parse_setting_name(name) {
            Some(f) => f,
            None => return Err(SimulationError::UnknownSetting),
        };
        match field {
            SettingName::ParticleCount => match count_value(&value) {
                Some(c) => self.particle_count = c,
                None => return Err(SimulationError::InvalidValue),
            },
            SettingName::RandomSeed => match count_value(&value) {
                Some(c) => self.random_seed = c,
                None => return Err(SimulationError::InvalidValue),
            },
            SettingName::BackgroundType => match background_value(&value) {
                Some(b) => self.background_type = b,
                None => return Err(SimulationError::InvalidValue),
            },
            SettingName::ColoringMode => match coloring_value(&value) {
                Some(c) => self.coloring_mode = c,
                None => return Err(SimulationError::InvalidValue),
            },
            SettingName::DensityDampingEnabled => match value {
                SettingValue::Flag(b) => self.density_damping_enabled = b,
                _ => return Err(SimulationError::InvalidValue),
            },
            _ => {
                let x = match decimal_value(&value) {
                    Some(x) => x,
                    None => return Err(SimulationError::InvalidValue),
                };
                let ok = match field {
                    SettingName::CollisionDamping | SettingName::EnergyDamping
                    | SettingName::LongRangeGravityStrength
                    | SettingName::OverlapResolutionStrength => fraction_ok(x),
                    SettingName::ParticleSize | SettingName::DensityRadius => 0 < x,
                    _ => 0 <= x,
                };
                if !ok {
                    return Err(SimulationError::InvalidValue);
                }
                match field {
                    SettingName::ParticleSize => self.particle_size = x,
                    SettingName::CollisionDamping => self.collision_damping = x,
                    SettingName::InitialVelocityMax => self.initial_velocity_max = x,
                    SettingName::InitialVelocityMin => self.initial_velocity_min = x,
                    SettingName::GravitationalConstant => self.gravitational_constant = x,
                    SettingName::EnergyDamping => self.energy_damping = x,
                    SettingName::GravitySoftening => self.gravity_softening = x,
                    SettingName::DensityRadius => self.density_radius = x,
                    SettingName::LongRangeGravityStrength => self.long_range_gravity_strength = x,
                    _ => self.overlap_resolution_strength = x,
                }
            },
        }
        Ok(())
    }

    /// Draws fresh values for every setting but the particle count, the
    /// background and the colouring mode.
    pub fn randomize(&mut self)
        ensures
            randomized_from(*old(self), *final(self)),
            final(self).valid(),
    {
        self.particle_size = random_in(1_000, 5_000);
        self.collision_damping = random_in(500_000, 950_000);
        self.initial_velocity_max = random_in(100_000, 500_000);
        self.initial_velocity_min = random_in(50_000, self.initial_velocity_max * 7 / 10);
        self.random_seed = random_u32();
        self.gravitational_constant = random_in(3_000, 12_000);
        self.energy_damping = random_in(900_000, 990_000);
        self.gravity_softening = random_in(3_000, 8_000);
        self.density_radius = random_in(20_000, 50_000);
        self.long_range_gravity_strength = random_in(0, 1_000_000);
        self.density_damping_enabled = random_ratio(1, 2);
        self.overlap_resolution_strength = random_in(10_000, 100_000);
    }
}

} // verus!
