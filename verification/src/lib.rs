//! Event-driven monitor for a host's power subsystem.
//!
//! The library classifies battery and AC-adapter device snapshots, keeps the
//! most recent snapshot of each, and resolves a single authoritative charging
//! status, flagging consumers only when that status actually transitions.
//! Device enumeration and change notifications come from the surrounding
//! program, which hands each device in as a plain [`DeviceDescriptor`].

mod device;
mod parse;
mod status;
mod text;
mod tracker;

pub use device::DeviceDescriptor;
pub use device::DeviceType;
pub use device::DeviceView;
pub use device::lemma_classification_fallback;
pub use device::spec_classify;
pub use device::spec_classify_by_name;
pub use parse::all_ascii_digits;
pub use parse::digits_value;
pub use parse::parse_i32;
pub use parse::parsed_i32;
pub use parse::parsed_int;
pub use status::Status;
pub use status::adapter_status_of;
pub use status::battery_status_of;
pub use status::lemma_adapter_priority;
pub use status::lemma_battery_fallback;
pub use status::resolve;
pub use tracker::PopulationError;
pub use tracker::PowerSupply;
pub use tracker::PowerSupplyView;
pub use tracker::count_of_type;
pub use tracker::lemma_ingest_all_populates;
pub use tracker::lemma_recompute_adapter_priority;
pub use tracker::lemma_recompute_battery_fallback;
pub use tracker::lemma_recompute_idempotent;
pub use tracker::spec_ingest;
pub use tracker::spec_ingest_all;
pub use tracker::spec_populated;
pub use tracker::spec_recompute;
pub use tracker::spec_resolved;
pub use tracker::spec_two_device_population;
pub use tracker::views_of;
