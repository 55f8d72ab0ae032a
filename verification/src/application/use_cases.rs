//! The decisions taken by the twin use cases between their repository
//! calls: whether a creation request is acceptable, whether a twin is due
//! for synchronization, which property a sensor reading updates and what
//! state a synchronized twin ends in.

use vstd::prelude::*;
use crate::application::properties::{names_distinct, property_map, set_property};
use crate::errors::{concat2, DomainError, StateTransitionError, ValidationError};
use crate::ids::{uuid_text, uuid_to_string};
use crate::text::{i64_to_string, signed_decimal};
use crate::json::JsonValue;
use crate::text::{chars_of, trim_chars, trimmed};

verus! {

/// A request to create a twin.
#[derive(Debug)]
pub struct CreateTwinCommand {
    pub name: String,
    pub description: Option<String>,
    pub twin_type: String,
    pub initial_properties: Vec<(String, JsonValue)>,
    pub tags: Vec<String>,
}

/// Creates twins from commands.
pub struct CreateTwinUseCase {}

/// Whether `s` holds something other than white space.
pub open spec fn has_content(s: Seq<char>) -> bool {
    trimmed(s).len() > 0
}

pub(crate) fn is_blank(s: &str) -> (b: bool)
    ensures
        b == !has_content(s@),
{
    let c = chars_of(s);
    let t = trim_chars(c.as_slice());
    t.len() == 0
}

impl CreateTwinUseCase {
    /// A new use case.
    pub fn new() -> (u: Self) {
        CreateTwinUseCase {}
    }

    /// Accepts a command whose name and type are not blank; otherwise names
    /// the first blank one.
    pub fn validate(&self, command: &CreateTwinCommand) -> (r: Result<(), String>)
        ensures
            r is Ok <==> has_content(command.name@) && has_content(command.twin_type@),
            r matches Err(m) ==> m@ == (if !has_content(command.name@) {
                "Twin name cannot be empty"@
            } else {
                "Twin type cannot be empty"@
            }),
    {
        if is_blank(command.name.as_str()) {
            return Err(String::from_str("Twin name cannot be empty"));
        }
        if is_blank(command.twin_type.as_str()) {
            return Err(String::from_str("Twin type cannot be empty"));
        }
        Ok(())
    }
}

/// The states a twin passes through while it is synchronized or
/// simulated.
#[derive(Debug, Clone, Copy, PartialEq, Eq)]
pub enum TwinStatus {
    Idle,
    Syncing,
    Simulating,
    Active,
    Error,
}

/// Whether a twin is synchronized now: always when forced or when it is in
/// error, otherwise only when its last update is a minute old or more.
pub open spec fn sync_due_now(force_sync: bool, seconds_since_update: int, status: TwinStatus) -> bool {
    force_sync || seconds_since_update >= 60 || status == TwinStatus::Error
}

/// Whether a twin is synchronized now (see `sync_due_now`).
pub fn sync_needed(force_sync: bool, seconds_since_update: i64, status: TwinStatus) -> (b: bool)
    ensures
        b == sync_due_now(force_sync, seconds_since_update as int, status),
        force_sync ==> b,
        status == TwinStatus::Error ==> b,
        seconds_since_update >= 60 ==> b,
        !force_sync && status != TwinStatus::Error && seconds_since_update < 60 ==> !b,
{
    let is_error = match status {
        TwinStatus::Error => true,
        _ => false,
    };
    force_sync || seconds_since_update >= 60 || is_error
}

/// The twin property that a reading of a sensor updates: a named property
/// for temperature, humidity and pressure sensors, one named after the
/// sensor otherwise.
pub open spec fn property_for(sensor_type: Seq<char>, sensor_name: Seq<char>) -> Seq<char> {
    if sensor_type == "temperature"@ {
        "current_temperature"@
    } else if sensor_type == "humidity"@ {
        "current_humidity"@
    } else if sensor_type == "pressure"@ {
        "current_pressure"@
    } else {
        "sensor_"@ + sensor_name
    }
}

pub(crate) fn same_text(a: &str, b: &str) -> (r: bool)
    ensures
        r == (a@ == b@),
{
    let x = String::from_str(a);
    let y = String::from_str(b);
    x.eq(&y)
}

/// The twin property that a reading of a sensor updates (see
/// `property_for`).
pub fn sensor_property_name(sensor_type: &str, sensor_name: &str) -> (s: String)
    ensures
        s@ == property_for(sensor_type@, sensor_name@),
        sensor_type@ == "temperature"@ ==> s@ == "current_temperature"@,
        sensor_type@ == "humidity"@ ==> s@ == "current_humidity"@,
        sensor_type@ == "pressure"@ ==> s@ == "current_pressure"@,
        sensor_type@ != "temperature"@ && sensor_type@ != "humidity"@ && sensor_type@ != "pressure"@ ==> s@
            == "sensor_"@ + sensor_name@,
{
    proof {
        reveal_strlit("temperature");
        reveal_strlit("humidity");
        reveal_strlit("pressure");
        assert("temperature"@ != "humidity"@) by {
            assert("temperature"@.len() != "humidity"@.len());
        }
        assert("temperature"@ != "pressure"@) by {
            assert("temperature"@.len() != "pressure"@.len());
        }
        assert("humidity"@ != "pressure"@) by {
            assert("humidity"@[0] != "pressure"@[0]);
        }
    }
    if same_text(sensor_type, "temperature") {
        String::from_str("current_temperature")
    } else if same_text(sensor_type, "humidity") {
        String::from_str("current_humidity")
    } else if same_text(sensor_type, "pressure") {
        String::from_str("current_pressure")
    } else {
        concat2("sensor_", sensor_name)
    }
}

/// The state of a twin after synchronization: in error when a reading
/// raised an alert, active when new readings came in, idle otherwise.
pub open spec fn status_after(has_alerts: bool, new_readings: nat) -> TwinStatus {
    if has_alerts {
        TwinStatus::Error
    } else if new_readings > 0 {
        TwinStatus::Active
    } else {
        TwinStatus::Idle
    }
}

/// The state of a twin after synchronization (see `status_after`).
pub fn status_after_sync(has_alerts: bool, new_readings: usize) -> (s: TwinStatus)
    ensures
        s == status_after(has_alerts, new_readings as nat),
        has_alerts <==> s == TwinStatus::Error,
        !has_alerts && new_readings > 0 <==> s == TwinStatus::Active,
        !has_alerts && new_readings == 0 <==> s == TwinStatus::Idle,
{
    if has_alerts {
        TwinStatus::Error
    } else if new_readings > 0 {
        TwinStatus::Active
    } else {
        TwinStatus::Idle
    }
}


/// The latest state of one sensor of a twin: its latest reading's value,
/// as JSON number text, when it has any reading, and whether that reading
/// raised an alert.
#[derive(Debug, Clone)]
pub struct SensorSnapshot {
    pub sensor_name: String,
    pub sensor_type: String,
    pub latest_value: Option<String>,
    pub latest_alert: bool,
}

/// What a synchronization changes: the properties set from the latest
/// readings, the latest reading of each sensor that has one (by sensor name
/// and value, in the sensors' order; these sensors' data is what the twin
/// stores), and the state the twin ends in.
#[derive(Debug)]
pub struct SyncPlan {
    pub updated_properties: Vec<(String, String)>,
    pub new_readings: Vec<(String, String)>,
    pub status: TwinStatus,
}

/// The latest reading of each sensor that has one, by sensor name and
/// value, in the sensors' order.
pub open spec fn latest_readings(s: Seq<SensorSnapshot>) -> Seq<(Seq<char>, Seq<char>)>
    decreases s.len(),
{
    if s.len() == 0 {
        Seq::empty()
    } else {
        let before = latest_readings(s.drop_last());
        match s.last().latest_value {
            Some(v) => before.push((s.last().sensor_name@, v@)),
            None => before,
        }
    }
}

/// Whether the latest reading of some sensor raised an alert.
pub open spec fn any_alert(s: Seq<SensorSnapshot>) -> bool
    decreases s.len(),
{
    if s.len() == 0 {
        false
    } else {
        any_alert(s.drop_last()) || (s.last().latest_value is Some && s.last().latest_alert)
    }
}

/// The properties set by the sensors' latest readings, taken in order, so
/// that a later sensor overrides an earlier one that sets the same property.
pub open spec fn planned_properties(s: Seq<SensorSnapshot>) -> Map<Seq<char>, Seq<char>>
    decreases s.len(),
{
    if s.len() == 0 {
        Map::empty()
    } else {
        let before = planned_properties(s.drop_last());
        match s.last().latest_value {
            Some(v) => before.insert(property_for(s.last().sensor_type@, s.last().sensor_name@), v@),
            None => before,
        }
    }
}

/// What synchronizing a twin with these sensors changes.
pub fn plan_sync(sensors: &Vec<SensorSnapshot>) -> (p: SyncPlan)
    ensures
        names_distinct(p.updated_properties@),
        property_map(p.updated_properties@) == planned_properties(sensors@),
        p.new_readings.deep_view() == latest_readings(sensors@),
        p.status == status_after(any_alert(sensors@), p.new_readings.len() as nat),
{
    let mut props: Vec<(String, String)> = Vec::new();
    let mut readings: Vec<(String, String)> = Vec::new();
    let mut alert = false;
    let mut i: usize = 0;
    assert(readings.deep_view() =~= latest_readings(sensors@.take(0)));
    while i < sensors.len()
        invariant
            i <= sensors.len(),
            readings.len() <= i,
            names_distinct(props@),
            property_map(props@) == planned_properties(sensors@.take(i as int)),
            readings.deep_view() == latest_readings(sensors@.take(i as int)),
            alert == any_alert(sensors@.take(i as int)),
        decreases sensors.len() - i,
    {
        assert(sensors@.take(i + 1).drop_last() =~= sensors@.take(i as int));
        assert(sensors@.take(i + 1).last() == sensors@[i as int]);
        let s = &sensors[i];
        match &s.latest_value {
            Some(v) => {
                let name = sensor_property_name(s.sensor_type.as_str(), s.sensor_name.as_str());
                set_property(&mut props, name, v.clone());
                let ghost before = readings.deep_view();
                readings.push((s.sensor_name.clone(), v.clone()));
                assert(readings.deep_view() =~= before.push((s.sensor_name@, v@)));
                if s.latest_alert {
                    alert = true;
                }
            },
            None => {},
        }
        i = i + 1;
    }
    assert(sensors@.take(sensors.len() as int) =~= sensors@);
    let status = status_after_sync(alert, readings.len());
    SyncPlan { updated_properties: props, new_readings: readings, status }
}


/// Whether `e` is the validation error for `field` with reason `reason`.
pub open spec fn is_invalid(e: DomainError, field: Seq<char>, reason: Seq<char>) -> bool {
    e matches DomainError::Validation(ValidationError::InvalidFormat { field: f, reason: r }) && f@ == field && r@
        == reason
}

/// Accepts simulation parameters whose duration and time step are
/// positive; otherwise refuses the first that is not, the duration first.
/// Nothing about the twin is needed for this check.
pub fn check_simulation_params(duration_hours: u32, time_step_minutes: u32) -> (r: Result<(), DomainError>)
    ensures
        duration_hours == 0 ==> (r matches Err(e) && is_invalid(
            e,
            "duration_hours"@,
            "Simulation duration must be greater than 0"@,
        )),
        duration_hours > 0 && time_step_minutes == 0 ==> (r matches Err(e) && is_invalid(
            e,
            "time_step_minutes"@,
            "Time step must be greater than 0"@,
        )),
        duration_hours > 0 && time_step_minutes > 0 ==> r is Ok,
{
    if duration_hours == 0 {
        return Err(DomainError::Validation(ValidationError::InvalidFormat {
            field: String::from_str("duration_hours"),
            reason: String::from_str("Simulation duration must be greater than 0"),
        }));
    }
    if time_step_minutes == 0 {
        return Err(DomainError::Validation(ValidationError::InvalidFormat {
            field: String::from_str("time_step_minutes"),
            reason: String::from_str("Time step must be greater than 0"),
        }));
    }
    Ok(())
}

/// Accepts a twin for simulation unless it is in error.
pub fn check_simulation_state(status: TwinStatus) -> (r: Result<(), DomainError>)
    ensures
        status == TwinStatus::Error ==> (r matches Err(
            DomainError::StateTransition(StateTransitionError::PreconditionNotMet { reason }),
        ) && reason@ == "Cannot run simulation on twin in error state"@),
        status != TwinStatus::Error ==> r is Ok,
{
    match status {
        TwinStatus::Error => Err(DomainError::StateTransition(StateTransitionError::PreconditionNotMet {
            reason: String::from_str("Cannot run simulation on twin in error state"),
        })),
        _ => Ok(()),
    }
}

/// Accepts a simulation request whose duration and time step are positive,
/// for a twin that is not in error; otherwise gives the first of these
/// refusals, in that order (`check_simulation_params`, then
/// `check_simulation_state`).
pub fn check_simulation_request(duration_hours: u32, time_step_minutes: u32, status: TwinStatus) -> (r: Result<
    (),
    DomainError,
>)
    ensures
        duration_hours == 0 ==> (r matches Err(e) && is_invalid(
            e,
            "duration_hours"@,
            "Simulation duration must be greater than 0"@,
        )),
        duration_hours > 0 && time_step_minutes == 0 ==> (r matches Err(e) && is_invalid(
            e,
            "time_step_minutes"@,
            "Time step must be greater than 0"@,
        )),
        duration_hours > 0 && time_step_minutes > 0 && status == TwinStatus::Error ==> (r matches Err(
            DomainError::StateTransition(StateTransitionError::PreconditionNotMet { reason }),
        ) && reason@ == "Cannot run simulation on twin in error state"@),
        duration_hours > 0 && time_step_minutes > 0 && status != TwinStatus::Error ==> r is Ok,
{
    match check_simulation_params(duration_hours, time_step_minutes) {
        Err(e) => Err(e),
        Ok(()) => check_simulation_state(status),
    }
}

/// The kinds of simulation.
#[derive(Debug, Clone, Copy, PartialEq, Eq)]
pub enum SimulationKind {
    HvacOptimization,
    FailurePrediction,
    EnergyConsumption,
    Generic,
}

/// The kind a simulation type names; any other text names the generic
/// simulation.
pub open spec fn kind_of(t: Seq<char>) -> SimulationKind {
    if t == "hvac_optimization"@ {
        SimulationKind::HvacOptimization
    } else if t == "failure_prediction"@ {
        SimulationKind::FailurePrediction
    } else if t == "energy_consumption"@ {
        SimulationKind::EnergyConsumption
    } else {
        SimulationKind::Generic
    }
}

/// The kind a simulation type names (see `kind_of`).
pub fn simulation_kind(t: &str) -> (k: SimulationKind)
    ensures
        k == kind_of(t@),
        t@ == "hvac_optimization"@ <==> k == SimulationKind::HvacOptimization,
        t@ == "failure_prediction"@ <==> k == SimulationKind::FailurePrediction,
        t@ == "energy_consumption"@ <==> k == SimulationKind::EnergyConsumption,
{
    proof {
        reveal_strlit("hvac_optimization");
        reveal_strlit("failure_prediction");
        reveal_strlit("energy_consumption");
        assert("hvac_optimization"@ != "failure_prediction"@) by {
            assert("hvac_optimization"@[0] != "failure_prediction"@[0]);
        }
        assert("hvac_optimization"@ != "energy_consumption"@) by {
            assert("hvac_optimization"@[0] != "energy_consumption"@[0]);
        }
        assert("failure_prediction"@ != "energy_consumption"@) by {
            assert("failure_prediction"@[0] != "energy_consumption"@[0]);
        }
    }
    if same_text(t, "hvac_optimization") {
        SimulationKind::HvacOptimization
    } else if same_text(t, "failure_prediction") {
        SimulationKind::FailurePrediction
    } else if same_text(t, "energy_consumption") {
        SimulationKind::EnergyConsumption
    } else {
        SimulationKind::Generic
    }
}

/// The identifier of a simulation of type `t` of the twin `twin`, started
/// at `secs` seconds since the Unix epoch.
pub fn simulation_id(twin: u128, t: &str, secs: i64) -> (s: String)
    ensures
        s@ == "sim_"@ + uuid_text(twin) + "_"@ + t@ + "_"@ + signed_decimal(secs as int),
{
    let mut s = String::from_str("sim_");
    s.append(uuid_to_string(twin).as_str());
    s.append("_");
    s.append(t);
    s.append("_");
    s.append(i64_to_string(secs).as_str());
    s
}

/// The number of steps of a simulation lasting `h` hours with steps of `m`
/// minutes.
pub fn simulation_steps(h: u32, m: u32) -> (n: u64)
    requires
        m > 0,
    ensures
        n == (h * 60) / (m as int),
{
    (h as u64 * 60) / (m as u64)
}

/// The state of a twin during a simulation and once it has finished.
pub fn simulation_status(finished: bool) -> (s: TwinStatus)
    ensures
        s == (if finished { TwinStatus::Active } else { TwinStatus::Simulating }),
{
    if finished {
        TwinStatus::Active
    } else {
        TwinStatus::Simulating
    }
}

/// The hour of a simulation that the step `step`, of `step_minutes`
/// minutes each, falls in.
pub fn step_hour(step: u32, step_minutes: u32) -> (h: u32)
    requires
        step * step_minutes <= u32::MAX,
    ensures
        h == step * step_minutes / 60,
{
    step * step_minutes / 60
}

/// Whether a scenario running from hour `start` to hour `end`, both
/// included, applies in hour `hour`.
pub fn scenario_applies(hour: u32, start: u32, end: u32) -> (b: bool)
    ensures
        b == (start <= hour && hour <= end),
{
    hour >= start && hour <= end
}

/// The parts of a day by how much energy is drawn.
#[derive(Debug, Clone, Copy, PartialEq, Eq)]
pub enum UsageBand {
    /// 6 to 9 and 17 to 21 o'clock.
    Peak,
    /// 10 to 16 o'clock.
    Normal,
    /// The other hours.
    OffPeak,
}

/// The part of the day that hour `h` of the day (`h < 24`) falls in.
pub open spec fn band_of(h: nat) -> UsageBand {
    if (6 <= h && h <= 9) || (17 <= h && h <= 21) {
        UsageBand::Peak
    } else if 10 <= h && h <= 16 {
        UsageBand::Normal
    } else {
        UsageBand::OffPeak
    }
}

/// The bands of the day: the morning from 6 to 9 o'clock and the evening
/// from 17 to 21 o'clock are peak hours, 10 to 16 o'clock are normal
/// hours, and the night, from 22 to 5 o'clock, is off-peak.
pub proof fn lemma_usage_bands(h: nat)
    requires
        h < 24,
    ensures
        6 <= h <= 9 ==> band_of(h) == UsageBand::Peak,
        17 <= h <= 21 ==> band_of(h) == UsageBand::Peak,
        10 <= h <= 16 ==> band_of(h) == UsageBand::Normal,
        h <= 5 || h >= 22 ==> band_of(h) == UsageBand::OffPeak,
{
}

/// The part of the day that the `hour`-th hour of a simulation falls in,
/// counting whole days from midnight.
pub fn usage_band(hour: u32) -> (b: UsageBand)
    ensures
        b == band_of((hour % 24) as nat),
        (6 <= hour % 24 <= 9 || 17 <= hour % 24 <= 21) <==> b == UsageBand::Peak,
        10 <= hour % 24 <= 16 <==> b == UsageBand::Normal,
        (hour % 24 <= 5 || hour % 24 >= 22) <==> b == UsageBand::OffPeak,
{
    let h = hour % 24;
    if (6 <= h && h <= 9) || (17 <= h && h <= 21) {
        UsageBand::Peak
    } else if 10 <= h && h <= 16 {
        UsageBand::Normal
    } else {
        UsageBand::OffPeak
    }
}

} // verus!
