//! Receiver for the Sparsnas power-meter radio protocol: chip bring-up
//! decisions, per-frame accounting of received telemetry, and the metrics
//! store with its text exposition.

mod bringup;
mod openmetric;
mod radio;
mod receiver;
mod sparsnasmetrics;

pub use bringup::{
    radio_settings, ContactProbe, ProbeStep, RadioSetting, FRAME_LEN, MAX_CORRECTIVE_WRITES,
    PROBE_RETRY_MS, PROBE_SENTINEL, RESET_ACTIVE_MS, RESET_SETTLE_MS,
};
pub use openmetric::{push_decimal, OpenMetric, OpenMetricKind};
pub use radio::{RadioSetup, SparsnasRadioConfig, SparsnasRadioError};
pub use receiver::{DecodedReading, FrameOutcome, SequenceTracker};
pub use sparsnasmetrics::{MetricsSnapshot, MetricsUpdate, SparsnasMetrics};
