//! The parts of a stage and the limits of the number format.
//!
//! Units: mass in micrograms, propellant in millionths of a unit, density in
//! grams per unit (micrograms per millionth of a unit), propellant flow in
//! millionths of a unit per second, energy in thousandths of a unit of charge,
//! power in thousandths of a unit of charge per second, thrust in millinewtons,
//! specific impulse in milliseconds, gravity in micrometres per second
//! squared, velocity in millimetres per second.

use vstd::prelude::*;

verus! {

/// The largest value of any single configured quantity.
pub const QUANTITY_LIMIT: u64 = 1_000_000_000_000_000;

/// The largest number of tanks or batteries.
pub const COUNT_LIMIT: u32 = 1_000_000;

/// The largest total mass of a stage within the limits above.
pub const MASS_BOUND: u128 = 3_000_002_000_000_000_000_000;

/// The largest product of specific impulse and standard gravity: an exhaust
/// velocity of ten to the tenth metres per second.
pub const EXHAUST_LIMIT: u128 = 10_000_000_000_000_000_000;

/// The largest total amount of propellant within the limits above.
pub const PROPELLANT_BOUND: u128 = 1_000_000_000_000_000_000_000;

/// The engine of the stage.
#[derive(Clone, Copy, Debug, PartialEq, Eq, Structural)]
pub struct EngineSpec {
    /// Mass without propellant.
    pub dry_mass: u64,
    /// Thrust.
    pub thrust: u64,
    /// Specific impulse.
    pub isp: u64,
    /// Propellant consumed per second of burn.
    pub propellant_drain: u64,
    /// Electrical energy consumed per second of burn.
    pub power_drain: u64,
}

/// One propellant tank.
#[derive(Clone, Copy, Debug, PartialEq, Eq, Structural)]
pub struct TankSpec {
    /// Mass of the empty tank.
    pub dry_mass: u64,
    /// Amount of propellant the tank holds.
    pub capacity: u64,
    /// Mass of propellant per amount.
    pub density: u64,
}

/// One battery.
#[derive(Clone, Copy, Debug, PartialEq, Eq, Structural)]
pub struct BatterySpec {
    /// Mass of the battery.
    pub mass: u64,
    /// Energy the battery holds.
    pub capacity: u64,
}

/// Why a configuration was refused.
#[derive(Clone, Copy, Debug, PartialEq, Eq, Structural)]
pub enum ConfigError {
    /// The engine has no mass, no specific impulse or no propellant flow, or
    /// one of its quantities exceeds the limit.
    Engine,
    /// The tank holds no propellant, or its propellant has no mass, or one of
    /// its quantities or the mass of its full load exceeds the limit.
    Tank,
    /// The battery holds no energy, or one of its quantities exceeds the limit.
    Battery,
    /// A gravity constant is zero or exceeds the limit.
    Gravity,
    /// Specific impulse times standard gravity exceeds its limit.
    ExhaustVelocity,
    /// The tank count is zero or exceeds the limit.
    TankCount,
    /// The added dead weight exceeds the limit.
    DeadWeight,
    /// Processing the maximum propellant would take more batteries than the
    /// limit.
    BatteryDemand,
}

/// What a refusal says to the user.
pub open spec fn description(e: ConfigError) -> Seq<char> {
    match e {
        ConfigError::Engine => "the engine needs a mass, a specific impulse and a propellant flow above zero, and no quantity above the limit"@,
        ConfigError::Tank => "the tank needs a capacity and a propellant density above zero, and no quantity above the limit"@,
        ConfigError::Battery => "the battery needs a capacity above zero, and no quantity above the limit"@,
        ConfigError::Gravity => "each gravity constant must be above zero and not above the limit"@,
        ConfigError::ExhaustVelocity => "specific impulse times standard gravity must not be above its limit"@,
        ConfigError::TankCount => "the tank count must be at least one and not above the limit"@,
        ConfigError::DeadWeight => "the added dead weight must not be above the limit"@,
        ConfigError::BatteryDemand => "the maximum propellant must not take more batteries than the limit"@,
    }
}

impl ConfigError {
    /// What the refusal says to the user.
    pub fn describe(self) -> (text: &'static str)
        ensures
            text@ == description(self),
    {
        match self {
            ConfigError::Engine => "the engine needs a mass, a specific impulse and a propellant flow above zero, and no quantity above the limit",
            ConfigError::Tank => "the tank needs a capacity and a propellant density above zero, and no quantity above the limit",
            ConfigError::Battery => "the battery needs a capacity above zero, and no quantity above the limit",
            ConfigError::Gravity => "each gravity constant must be above zero and not above the limit",
            ConfigError::ExhaustVelocity => "specific impulse times standard gravity must not be above its limit",
            ConfigError::TankCount => "the tank count must be at least one and not above the limit",
            ConfigError::DeadWeight => "the added dead weight must not be above the limit",
            ConfigError::BatteryDemand => "the maximum propellant must not take more batteries than the limit",
        }
    }
}

/// A validated set of parts with the two gravity constants.
#[derive(Clone, Copy, Debug)]
pub struct Stage {
    engine: EngineSpec,
    tank: TankSpec,
    battery: BatterySpec,
    g0: u64,
    g_local: u64,
}

/// Whether the engine can stand in a stage.
pub open spec fn engine_valid(engine: EngineSpec) -> bool {
    &&& 0 < engine.dry_mass <= QUANTITY_LIMIT
    &&& engine.thrust <= QUANTITY_LIMIT
    &&& 0 < engine.isp <= QUANTITY_LIMIT
    &&& 0 < engine.propellant_drain <= QUANTITY_LIMIT
    &&& engine.power_drain <= QUANTITY_LIMIT
}

/// Whether the tank can stand in a stage.
pub open spec fn tank_valid(tank: TankSpec) -> bool {
    &&& tank.dry_mass <= QUANTITY_LIMIT
    &&& 0 < tank.capacity <= QUANTITY_LIMIT
    &&& 0 < tank.density <= QUANTITY_LIMIT
    &&& tank.capacity * tank.density <= QUANTITY_LIMIT
}

/// Whether the battery can stand in a stage.
pub open spec fn battery_valid(battery: BatterySpec) -> bool {
    &&& battery.mass <= QUANTITY_LIMIT
    &&& 0 < battery.capacity <= QUANTITY_LIMIT
}

/// Whether a gravity constant can stand in a stage.
pub open spec fn gravity_valid(g: u64) -> bool {
    0 < g <= QUANTITY_LIMIT
}

/// The outcome of validating the parts: the first part at fault, in the order
/// engine, tank, battery, gravity, exhaust velocity.
pub open spec fn validate_parts(
    engine: EngineSpec,
    tank: TankSpec,
    battery: BatterySpec,
    g0: u64,
    g_local: u64,
) -> Option<ConfigError> {
    if !engine_valid(engine) {
        Some(ConfigError::Engine)
    } else if !tank_valid(tank) {
        Some(ConfigError::Tank)
    } else if !battery_valid(battery) {
        Some(ConfigError::Battery)
    } else if !gravity_valid(g0) || !gravity_valid(g_local) {
        Some(ConfigError::Gravity)
    } else if engine.isp * g0 > EXHAUST_LIMIT {
        Some(ConfigError::ExhaustVelocity)
    } else {
        None
    }
}

impl Stage {
    /// The engine.
    pub closed spec fn engine(&self) -> EngineSpec {
        self.engine
    }

    /// The tank.
    pub closed spec fn tank(&self) -> TankSpec {
        self.tank
    }

    /// The battery.
    pub closed spec fn battery(&self) -> BatterySpec {
        self.battery
    }

    /// Standard gravity, with which the specific impulse was measured.
    pub closed spec fn g0(&self) -> u64 {
        self.g0
    }

    /// Gravity of the reference body, for the thrust-to-weight ratio.
    pub closed spec fn g_local(&self) -> u64 {
        self.g_local
    }

    /// Every part is valid. Holds of every stage that exists at run time.
    pub open spec fn wf(&self) -> bool {
        validate_parts(self.engine(), self.tank(), self.battery(), self.g0(), self.g_local())
            is None
    }

    #[verifier::type_invariant]
    spec fn inv(&self) -> bool {
        self.wf()
    }

    /// Builds a stage, or names the first part at fault.
    pub fn new(
        engine: EngineSpec,
        tank: TankSpec,
        battery: BatterySpec,
        g0: u64,
        g_local: u64,
    ) -> (r: Result<Stage, ConfigError>)
        ensures
            match r {
                Ok(stage) => {
                    &&& validate_parts(engine, tank, battery, g0, g_local) is None
                    &&& stage.wf()
                    &&& stage.engine() == engine
                    &&& stage.tank() == tank
                    &&& stage.battery() == battery
                    &&& stage.g0() == g0
                    &&& stage.g_local() == g_local
                },
                Err(e) => validate_parts(engine, tank, battery, g0, g_local) == Some(e),
            },
    {
        if engine.dry_mass == 0 || engine.dry_mass > QUANTITY_LIMIT || engine.thrust
            > QUANTITY_LIMIT || engine.isp == 0 || engine.isp > QUANTITY_LIMIT
            || engine.propellant_drain == 0 || engine.propellant_drain > QUANTITY_LIMIT
            || engine.power_drain > QUANTITY_LIMIT {
            return Err(ConfigError::Engine);
        }
        if tank.dry_mass > QUANTITY_LIMIT || tank.capacity == 0 || tank.capacity > QUANTITY_LIMIT
            || tank.density == 0 || tank.density > QUANTITY_LIMIT {
            return Err(ConfigError::Tank);
        }
        assert(tank.capacity * tank.density <= QUANTITY_LIMIT * QUANTITY_LIMIT) by (nonlinear_arith)
            requires
                tank.capacity <= QUANTITY_LIMIT,
                tank.density <= QUANTITY_LIMIT,
        ;
        let full_load: u128 = (tank.capacity as u128) * (tank.density as u128);
        if full_load > QUANTITY_LIMIT as u128 {
            return Err(ConfigError::Tank);
        }
        if battery.mass > QUANTITY_LIMIT || battery.capacity == 0 || battery.capacity
            > QUANTITY_LIMIT {
            return Err(ConfigError::Battery);
        }
        if g0 == 0 || g0 > QUANTITY_LIMIT || g_local == 0 || g_local > QUANTITY_LIMIT {
            return Err(ConfigError::Gravity);
        }
        assert(engine.isp * g0 <= QUANTITY_LIMIT * QUANTITY_LIMIT) by (nonlinear_arith)
            requires
                engine.isp <= QUANTITY_LIMIT,
                g0 <= QUANTITY_LIMIT,
        ;
        if (engine.isp as u128) * (g0 as u128) > EXHAUST_LIMIT {
            return Err(ConfigError::ExhaustVelocity);
        }
        Ok(Stage { engine, tank, battery, g0, g_local })
    }

    /// States that the parts are valid, as they are of every stage that exists.
    pub fn validity(&self)
        ensures
            self.wf(),
    {
        proof {
            use_type_invariant(self);
        }
    }

    /// The engine.
    pub fn get_engine(&self) -> (r: EngineSpec)
        ensures
            r == self.engine(),
            self.wf(),
            engine_valid(r),
    {
        proof {
            use_type_invariant(self);
        }
        self.engine
    }

    /// The tank.
    pub fn get_tank(&self) -> (r: TankSpec)
        ensures
            r == self.tank(),
            self.wf(),
            tank_valid(r),
    {
        proof {
            use_type_invariant(self);
        }
        self.tank
    }

    /// The battery.
    pub fn get_battery(&self) -> (r: BatterySpec)
        ensures
            r == self.battery(),
            self.wf(),
            battery_valid(r),
    {
        proof {
            use_type_invariant(self);
        }
        self.battery
    }

    /// Standard gravity.
    pub fn get_g0(&self) -> (r: u64)
        ensures
            r == self.g0(),
            self.wf(),
            gravity_valid(r),
    {
        proof {
            use_type_invariant(self);
        }
        self.g0
    }

    /// Gravity of the reference body.
    pub fn get_g_local(&self) -> (r: u64)
        ensures
            r == self.g_local(),
            self.wf(),
            gravity_valid(r),
    {
        proof {
            use_type_invariant(self);
        }
        self.g_local
    }
}

} // verus!
