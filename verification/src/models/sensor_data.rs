//! Classifications used by sensor data (status, quality, alerts,
//! processing and measurement units) and the time-ordered log of a
//! sensor's readings.

use vstd::prelude::*;
use crate::ids::{new_uuid, now_micros};

verus! {

/// Status of a sensor.
#[derive(Debug, Clone, Copy, PartialEq, Eq, Structural)]
pub enum SensorStatus {
    Online,
    Offline,
    Warning,
    Failed,
    Maintenance,
    Initializing,
    Unknown,
}

/// Noise level of a signal.
#[derive(Debug, Clone, Copy, PartialEq, Eq, Structural)]
pub enum NoiseLevel {
    Low,
    Medium,
    High,
    Excessive,
}

/// Kinds of data-quality issue.
#[derive(Debug, Clone, Copy, PartialEq, Eq, Structural)]
pub enum QualityIssueType {
    OutOfRange,
    SignalLoss,
    Interference,
    Drift,
    Spike,
    MissingData,
    CalibrationNeeded,
}

/// Severity of a data-quality issue.
#[derive(Debug, Clone, Copy, PartialEq, Eq, Structural)]
pub enum IssueSeverity {
    Low,
    Medium,
    High,
    Critical,
}

/// A data-quality issue of a reading.
#[derive(Debug, Clone)]
pub struct QualityIssue {
    pub issue_type: QualityIssueType,
    pub severity: IssueSeverity,
    pub description: String,
    pub remediation: Option<String>,
}

/// Kinds of sensor alert.
#[derive(Debug, Clone)]
pub enum AlertType {
    ThresholdExceeded,
    RateOfChange,
    DataQuality,
    SensorFailure,
    Predictive,
    Custom(String),
}

/// Severity of a sensor alert.
#[derive(Debug, Clone, Copy, PartialEq, Eq, Structural)]
pub enum AlertSeverity {
    Info,
    Warning,
    Error,
    Critical,
}

/// How a threshold is expressed.
#[derive(Debug, Clone, Copy, PartialEq, Eq, Structural)]
pub enum ThresholdType {
    Absolute,
    Percentage,
    StandardDeviation,
    RateOfChange,
}

/// Which crossing of a threshold counts.
#[derive(Debug, Clone, Copy, PartialEq, Eq, Structural)]
pub enum ThresholdDirection {
    Above,
    Below,
    Either,
}

/// Kinds of signal filter.
#[derive(Debug, Clone)]
pub enum FilterType {
    LowPass,
    HighPass,
    BandPass,
    MovingAverage,
    MedianFilter,
    KalmanFilter,
    Custom(String),
}

/// Aggregation methods.
#[derive(Debug, Clone, Copy, PartialEq, Eq, Structural)]
pub enum AggregationMethod {
    Mean,
    Sum,
    Min,
    Max,
    Count,
    StandardDeviation,
}

/// Aggregation of readings over a window.
#[derive(Debug, Clone)]
pub struct AggregationConfig {
    pub window_size: String,
    pub method: AggregationMethod,
    pub preserve_raw: bool,
}

/// Anomaly detection algorithms.
#[derive(Debug, Clone)]
pub enum AnomalyAlgorithm {
    ZScore,
    IsolationForest,
    LSTM,
    StatisticalProcess,
    Custom(String),
}

/// Kinds of value transformation.
#[derive(Debug, Clone)]
pub enum TransformationType {
    Scale,
    Offset,
    Normalize,
    Derivative,
    Integral,
    Custom(String),
}

/// Temperature units.
#[derive(Debug, Clone, Copy, PartialEq, Eq, Structural)]
pub enum TemperatureUnit {
    Celsius,
    Fahrenheit,
    Kelvin,
}

/// Pressure units.
#[derive(Debug, Clone, Copy, PartialEq, Eq, Structural)]
pub enum PressureUnit {
    Pascal,
    Bar,
    PSI,
    ATM,
}

/// Flow units.
#[derive(Debug, Clone, Copy, PartialEq, Eq, Structural)]
pub enum FlowUnit {
    LitersPerMinute,
    GallonsPerMinute,
    CubicMetersPerHour,
}

/// Quantities an energy sensor measures.
#[derive(Debug, Clone, Copy, PartialEq, Eq, Structural)]
pub enum EnergyMeasurementType {
    Power,
    Voltage,
    Current,
    Energy,
    PowerFactor,
}

/// Light spectra a light sensor covers.
#[derive(Debug, Clone, Copy, PartialEq, Eq, Structural)]
pub enum LightSpectrum {
    Visible,
    Infrared,
    Ultraviolet,
    FullSpectrum,
}


/// One reading of a sensor: when it was taken, its value and how many
/// alerts it raised. The value is carried as `V` (the application keeps
/// measured values as floating-point numbers).
#[derive(Debug, Clone)]
pub struct TimedReading<V> {
    pub id: u128,
    pub timestamp: i64,
    pub value: V,
    pub alert_count: usize,
}

impl<V> TimedReading<V> {
    /// A reading of `value` taken now, with a fresh identifier and no
    /// alert.
    pub fn now(value: V) -> (r: Self)
        ensures
            r.value == value,
            r.alert_count == 0,
    {
        TimedReading { id: new_uuid(), timestamp: now_micros(), value, alert_count: 0 }
    }

    /// Whether the reading raised an alert.
    pub fn has_alerts(&self) -> (b: bool)
        ensures
            b == (self.alert_count > 0),
    {
        self.alert_count > 0
    }
}

/// The readings of one sensor in arrival order, with their count and the
/// times of the first and the last.
#[derive(Debug)]
pub struct SensorReadings<V> {
    readings: Vec<TimedReading<V>>,
    count: u64,
    first_reading: Option<i64>,
    last_reading: Option<i64>,
    updated_at: i64,
}

/// Whether `s` holds the readings `r` with the count and time span they
/// have.
pub open spec fn log_of<V>(r: Seq<TimedReading<V>>, count: u64, first: Option<i64>, last: Option<i64>) -> bool {
    &&& count == r.len()
    &&& first == (if r.len() == 0 { None } else { Some(r[0].timestamp) })
    &&& last == (if r.len() == 0 { None } else { Some(r.last().timestamp) })
}

/// Whether a reading was taken within `[start, end]`.
pub open spec fn taken_within<V>(r: TimedReading<V>, start: i64, end: i64) -> bool {
    start <= r.timestamp && r.timestamp <= end
}

impl<V> SensorReadings<V> {
    /// The readings, in arrival order.
    pub closed spec fn readings_view(self) -> Seq<TimedReading<V>> {
        self.readings@
    }

    /// The log keeps its count and time span in step with its readings.
    pub closed spec fn wf(self) -> bool {
        log_of(self.readings@, self.count, self.first_reading, self.last_reading)
    }

    /// The number of readings.
    pub closed spec fn count_view(self) -> u64 {
        self.count
    }

    /// The time of the first reading.
    pub closed spec fn first_view(self) -> Option<i64> {
        self.first_reading
    }

    /// The time of the last reading.
    pub closed spec fn last_view(self) -> Option<i64> {
        self.last_reading
    }

    /// An empty log.
    pub fn new() -> (s: Self)
        ensures
            s.wf(),
            s.readings_view().len() == 0,
    {
        SensorReadings {
            readings: Vec::new(),
            count: 0,
            first_reading: None,
            last_reading: None,
            updated_at: now_micros(),
        }
    }

    /// Appends a reading and brings the count and time span up to date.
    pub fn add_reading(&mut self, reading: TimedReading<V>)
        requires
            old(self).wf(),
            old(self).readings_view().len() < u64::MAX,
        ensures
            final(self).wf(),
            final(self).readings_view() == old(self).readings_view().push(reading),
    {
        let ts = reading.timestamp;
        self.readings.push(reading);
        self.updated_at = now_micros();
        self.count = self.readings.len() as u64;
        self.last_reading = Some(ts);
        if self.first_reading.is_none() {
            self.first_reading = Some(ts);
        }
        assert(self.readings@.last() == reading);
    }

    /// The readings taken within `[start, end]`, in arrival order.
    pub fn readings_in_range(&self, start: i64, end: i64) -> (r: Vec<&TimedReading<V>>)
        ensures
            r@.map_values(|x: &TimedReading<V>| *x) == self.readings_view().filter(
                |x: TimedReading<V>| taken_within(x, start, end),
            ),
    {
        let mut r: Vec<&TimedReading<V>> = Vec::new();
        let mut i: usize = 0;
        while i < self.readings.len()
            invariant
                i <= self.readings@.len(),
                r@.map_values(|x: &TimedReading<V>| *x) == self.readings@.take(i as int).filter(
                    |x: TimedReading<V>| taken_within(x, start, end),
                ),
            decreases self.readings@.len() - i,
        {
            let x = &self.readings[i];
            proof {
                reveal_with_fuel(Seq::<_>::filter, 1);
                assert(self.readings@.take(i + 1).drop_last() =~= self.readings@.take(i as int));
            }
            if x.timestamp >= start && x.timestamp <= end {
                r.push(x);
            }
            assert(r@.map_values(|x: &TimedReading<V>| *x) =~= self.readings@.take(i + 1).filter(
                |x: TimedReading<V>| taken_within(x, start, end),
            ));
            i = i + 1;
        }
        assert(self.readings@.take(self.readings@.len() as int) =~= self.readings@);
        r
    }

    /// The most recent reading, if any.
    pub fn latest_reading(&self) -> (r: Option<&TimedReading<V>>)
        ensures
            self.readings_view().len() == 0 ==> r is None,
            self.readings_view().len() > 0 ==> r == Some(&self.readings_view().last()),
    {
        if self.readings.len() == 0 {
            None
        } else {
            Some(&self.readings[self.readings.len() - 1])
        }
    }

    /// The number of readings.
    pub fn count(&self) -> (n: u64)
        ensures
            n == self.count_view(),
    {
        self.count
    }

    /// The time of the first reading, if any.
    pub fn first_reading(&self) -> (t: Option<i64>)
        ensures
            t == self.first_view(),
    {
        self.first_reading
    }

    /// The time of the last reading, if any.
    pub fn last_reading(&self) -> (t: Option<i64>)
        ensures
            t == self.last_view(),
    {
        self.last_reading
    }
}

/// A log's count and time span are those of its readings.
pub proof fn lemma_log_summary<V>(s: SensorReadings<V>)
    requires
        s.wf(),
    ensures
        log_of(s.readings_view(), s.count_view(), s.first_view(), s.last_view()),
{
}

} // verus!
