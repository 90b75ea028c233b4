//! Turns entity state-change events into time-series points: rule-based
//! filtering, enrichment from a registry snapshot, and normalisation of state
//! text into one numeric value. Every function carries a contract that is
//! proved; what is believed of `regex`, `compact_str` and `chrono` is stated
//! on the few items marked as trusted.

pub mod event;
pub mod filter;
pub mod metadata;
pub mod pipeline;
pub mod refresher;
pub mod text;
pub mod value;

pub use event::{Event, State};
pub use filter::{
    DefaultFilter, EntityFilter, IndividualEntityFilter, InvalidDefaultFilter, InvalidPattern,
    RuleConfig,
};
pub use metadata::{Area, Device, Entity, MetadataResult, MetadataTree};
pub use pipeline::{Instant, Point, Severity, Skip, Tag};
pub use refresher::{RefreshAction, RefreshEvent, RefreshState};
pub use value::{NumericForms, ParseError, Value};
