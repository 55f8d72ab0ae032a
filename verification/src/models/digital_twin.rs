//! Digital twins: virtual counterparts of physical systems.

use vstd::prelude::*;
use crate::ids::{new_uuid, now_micros};

verus! {

/// Operational state of a twin.
#[derive(Debug, Clone, Copy, PartialEq, Eq, Structural)]
pub enum TwinState {
    Active,
    Idle,
    Syncing,
    Disconnected,
    Error,
    Paused,
    Archived,
}

/// What a twin represents. A custom twin's attributes are key/value pairs
/// with distinct keys.
#[derive(Debug, Clone)]
pub enum TwinType {
    Device { device_type: String, manufacturer: Option<String>, model: Option<String> },
    Process { process_type: String, domain: String },
    System { system_type: String, components: Vec<String> },
    Person { role: String, department: Option<String> },
    Environment { environment_type: String, location: Option<String> },
    Custom { category: String, attributes: Vec<(String, String)> },
}

/// Kinds of source that feed a twin.
#[derive(Debug, Clone)]
pub enum DataSourceType {
    Sensor { protocol: String, sensor_type: String },
    Database { db_type: String, read_only: bool },
    RestApi { base_url: String, auth_type: Option<String> },
    MessageQueue { queue_type: String, topic: String },
    FileSystem { path: String, file_pattern: Option<String> },
    Custom { source_id: String },
}

/// A data source of a twin (its connection settings and mapping rules are
/// kept by the application layer).
#[derive(Debug, Clone)]
pub struct DataSource {
    pub id: u128,
    pub name: String,
    pub source_type: DataSourceType,
    pub active: bool,
    pub last_connected: Option<i64>,
}

/// Data types of mapped values.
#[derive(Debug, Clone, Copy, PartialEq, Eq, Structural)]
pub enum DataType {
    String,
    Integer,
    Float,
    Boolean,
    DateTime,
    Json,
}

/// How a twin is kept in sync with its sources.
#[derive(Debug, Clone, Copy, PartialEq, Eq, Structural)]
pub enum SyncMode {
    RealTime,
    Periodic,
    OnDemand,
    EventDriven,
}

/// How conflicting updates are resolved.
#[derive(Debug, Clone, Copy, PartialEq, Eq, Structural)]
pub enum ConflictStrategy {
    LastWriteWins,
    PriorityBased,
    Manual,
    Merge,
}

/// How long twin data is kept.
#[derive(Debug, Clone)]
pub struct RetentionPolicy {
    pub raw_data_days: Option<u32>,
    pub aggregated_data_days: Option<u32>,
    pub aggregation_intervals: Vec<String>,
}

impl Default for RetentionPolicy {
    fn default() -> (p: Self)
        ensures
            p.raw_data_days == Some(30u32),
            p.aggregated_data_days == Some(365u32),
            p.aggregation_intervals@.len() == 3,
            p.aggregation_intervals@[0]@ == "1h"@,
            p.aggregation_intervals@[1]@ == "1d"@,
            p.aggregation_intervals@[2]@ == "1w"@,
    {
        let mut intervals = Vec::new();
        intervals.push(String::from_str("1h"));
        intervals.push(String::from_str("1d"));
        intervals.push(String::from_str("1w"));
        RetentionPolicy { raw_data_days: Some(30), aggregated_data_days: Some(365), aggregation_intervals: intervals }
    }
}

/// Synchronization settings of a twin.
#[derive(Debug, Clone)]
pub struct SyncConfiguration {
    pub mode: SyncMode,
    pub interval_seconds: Option<u32>,
    pub sync_on_startup: bool,
    pub conflict_strategy: ConflictStrategy,
    pub retention_policy: RetentionPolicy,
}

impl Default for SyncConfiguration {
    fn default() -> (c: Self)
        ensures
            c.mode == SyncMode::Periodic,
            c.interval_seconds == Some(300u32),
            c.sync_on_startup,
            c.conflict_strategy == ConflictStrategy::LastWriteWins,
            c.retention_policy.raw_data_days == Some(30u32),
    {
        SyncConfiguration {
            mode: SyncMode::Periodic,
            interval_seconds: Some(300),
            sync_on_startup: true,
            conflict_strategy: ConflictStrategy::LastWriteWins,
            retention_policy: RetentionPolicy::default(),
        }
    }
}

/// Kinds of visualization view.
#[derive(Debug, Clone, Copy, PartialEq, Eq, Structural)]
pub enum ViewType {
    Dashboard,
    Model3D,
    Schematic,
    Timeline,
    Analytics,
}

/// Position and size of a dashboard widget.
#[derive(Debug, Clone, Copy, PartialEq, Eq, Structural)]
pub struct WidgetLayout {
    pub x: u32,
    pub y: u32,
    pub width: u32,
    pub height: u32,
}

/// 3D model settings; the property mappings have distinct keys.
#[derive(Debug, Clone)]
pub struct Model3DConfig {
    pub model_url: String,
    pub format: String,
    pub property_mappings: Vec<(String, String)>,
}

/// Chart settings; the preferences have distinct keys.
#[derive(Debug, Clone)]
pub struct ChartConfig {
    pub default_time_range: String,
    pub chart_preferences: Vec<(String, String)>,
    pub color_scheme: String,
}

impl Default for ChartConfig {
    fn default() -> (c: Self)
        ensures
            c.default_time_range@ == "24h"@,
            c.chart_preferences@.len() == 0,
            c.color_scheme@ == "default"@,
    {
        ChartConfig {
            default_time_range: String::from_str("24h"),
            chart_preferences: Vec::new(),
            color_scheme: String::from_str("default"),
        }
    }
}

/// A digital twin (its measured properties, which hold floating-point and
/// JSON values, and its visualization settings are kept by the application
/// layer).
#[derive(Debug, Clone)]
pub struct DigitalTwin {
    pub id: u128,
    pub name: String,
    pub description: String,
    pub twin_type: TwinType,
    pub state: TwinState,
    pub agent_ids: Vec<u128>,
    pub data_sources: Vec<DataSource>,
    pub sync_config: SyncConfiguration,
    pub created_at: i64,
    pub updated_at: i64,
    pub last_sync_at: Option<i64>,
}

/// Whole seconds from `from` to `to` (microsecond instants), truncated
/// toward zero as `chrono::Duration::num_seconds` does.
pub open spec fn elapsed_seconds(from: i64, to: i64) -> int {
    let d = to - from;
    if d >= 0 { d / 1_000_000 } else { -((-d) / 1_000_000) }
}

/// Whether a twin with these settings needs a sync at instant `now`: only
/// periodic twins do, when never synced or when the whole seconds since the
/// last sync, taken as a `u32`, reach the interval.
pub open spec fn sync_due(config: SyncConfiguration, last_sync_at: Option<i64>, now: i64) -> bool {
    match config.mode {
        SyncMode::Periodic => match (config.interval_seconds, last_sync_at) {
            (Some(interval), Some(last)) => (elapsed_seconds(last, now) as u32) >= interval,
            _ => true,
        },
        _ => false,
    }
}

/// A twin synchronized at instant `t` is not due again at `t` when its
/// interval is positive; without an interval it is always due, and only
/// periodic twins are ever due.
pub proof fn lemma_fresh_sync_not_due(config: SyncConfiguration, t: i64)
    ensures
        config.interval_seconds matches Some(i) && i > 0 ==> !sync_due(config, Some(t), t),
        config.mode == SyncMode::Periodic && config.interval_seconds is None ==> sync_due(config, Some(t), t),
        config.mode != SyncMode::Periodic ==> !sync_due(config, Some(t), t),
{
    assert(elapsed_seconds(t, t) == 0);
}

impl DigitalTwin {
    /// A new idle twin with default synchronization settings.
    pub fn new(name: String, description: String, twin_type: TwinType) -> (t: Self)
        ensures
            t.name@ == name@,
            t.description@ == description@,
            t.twin_type == twin_type,
            t.state == TwinState::Idle,
            t.agent_ids@.len() == 0,
            t.data_sources@.len() == 0,
            t.sync_config.mode == SyncMode::Periodic,
            t.sync_config.interval_seconds == Some(300u32),
            t.created_at == t.updated_at,
            t.last_sync_at is None,
    {
        let now = now_micros();
        DigitalTwin {
            id: new_uuid(),
            name,
            description,
            twin_type,
            state: TwinState::Idle,
            agent_ids: Vec::new(),
            data_sources: Vec::new(),
            sync_config: SyncConfiguration::default(),
            created_at: now,
            updated_at: now,
            last_sync_at: None,
        }
    }

    /// Links an agent to the twin, once.
    pub fn add_agent(&mut self, agent_id: u128)
        ensures
            old(self).agent_ids@.contains(agent_id) ==> final(self).agent_ids@ == old(self).agent_ids@,
            !old(self).agent_ids@.contains(agent_id) ==> final(self).agent_ids@ == old(self).agent_ids@.push(agent_id),
            final(self).state == old(self).state,
            final(self).id == old(self).id,
    {
        let mut i: usize = 0;
        while i < self.agent_ids.len()
            invariant
                i <= self.agent_ids@.len(),
                forall|j: int| 0 <= j < i ==> self.agent_ids@[j] != agent_id,
            decreases self.agent_ids@.len() - i,
        {
            if self.agent_ids[i] == agent_id {
                assert(self.agent_ids@[i as int] == agent_id);
                return;
            }
            i = i + 1;
        }
        self.agent_ids.push(agent_id);
        self.updated_at = now_micros();
    }

    /// Adds a data source at the end of the list.
    pub fn add_data_source(&mut self, data_source: DataSource)
        ensures
            final(self).data_sources@ == old(self).data_sources@.push(data_source),
            final(self).agent_ids@ == old(self).agent_ids@,
            final(self).state == old(self).state,
    {
        self.data_sources.push(data_source);
        self.updated_at = now_micros();
    }

    /// Sets the twin's state.
    pub fn set_state(&mut self, state: TwinState)
        ensures
            final(self).state == state,
            final(self).agent_ids@ == old(self).agent_ids@,
            final(self).last_sync_at == old(self).last_sync_at,
    {
        self.state = state;
        self.updated_at = now_micros();
    }

    /// Records a synchronization at the current time; a syncing twin
    /// becomes active.
    pub fn mark_synchronized(&mut self)
        ensures
            final(self).last_sync_at is Some,
            old(self).state == TwinState::Syncing ==> final(self).state == TwinState::Active,
            old(self).state != TwinState::Syncing ==> final(self).state == old(self).state,
            final(self).agent_ids@ == old(self).agent_ids@,
    {
        self.last_sync_at = Some(now_micros());
        self.updated_at = now_micros();
        if self.state == TwinState::Syncing {
            self.state = TwinState::Active;
        }
    }

    /// Whether the twin needs a sync now (see `needs_sync_at`).
    pub fn needs_sync(&self) -> (b: bool)
        ensures
            self.sync_config.mode != SyncMode::Periodic ==> !b,
            self.sync_config.mode == SyncMode::Periodic && (self.sync_config.interval_seconds is None
                || self.last_sync_at is None) ==> b,
    {
        let now = now_micros();
        self.needs_sync_at(now)
    }

    /// Whether the twin needs a sync at instant `now`.
    pub fn needs_sync_at(&self, now: i64) -> (b: bool)
        ensures
            b == sync_due(self.sync_config, self.last_sync_at, now),
    {
        match self.sync_config.mode {
            SyncMode::Periodic => {
                match (self.sync_config.interval_seconds, self.last_sync_at) {
                    (Some(interval), Some(last)) => {
                        let d: i128 = (now as i128) - (last as i128);
                        let secs: i128 = if d >= 0 { d / 1_000_000 } else { -((-d) / 1_000_000) };
                        (secs as u32) >= interval
                    },
                    _ => true,
                }
            },
            _ => false,
        }
    }

    /// The active data sources, in order.
    pub fn active_data_sources(&self) -> (r: Vec<&DataSource>)
        ensures
            r@.map_values(|d: &DataSource| *d) == self.data_sources@.filter(|d: DataSource| d.active),
    {
        let mut r: Vec<&DataSource> = Vec::new();
        let mut i: usize = 0;
        while i < self.data_sources.len()
            invariant
                i <= self.data_sources@.len(),
                r@.map_values(|d: &DataSource| *d) == self.data_sources@.take(i as int).filter(|d: DataSource| d.active),
            decreases self.data_sources@.len() - i,
        {
            let ds = &self.data_sources[i];
            proof {
                reveal_with_fuel(Seq::<_>::filter, 1);
                assert(self.data_sources@.take(i + 1).drop_last() =~= self.data_sources@.take(i as int));
            }
            if ds.active {
                r.push(ds);
            }
            assert(r@.map_values(|d: &DataSource| *d) =~= self.data_sources@.take(i + 1).filter(|d: DataSource| d.active));
            i = i + 1;
        }
        assert(self.data_sources@.take(self.data_sources@.len() as int) =~= self.data_sources@);
        r
    }
}

} // verus!
