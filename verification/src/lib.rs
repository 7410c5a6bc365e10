//! Status-line composition for a compositor's status bar.
//!
//! The library builds one textual status line out of independently sampled
//! fields (brightness, audio volume, battery, memory, CPU, wall clock).
//! Every field is optional: a field whose sample failed degrades to a
//! placeholder while the remaining fields are still published.

pub mod fields;
pub mod parse;
pub mod status;
pub mod sys;
pub mod text;
pub mod timer;

pub use fields::aggregate_cpu;
pub use fields::battery_text;
pub use fields::clock_text;
pub use fields::lemma_brightness_monotonic;
pub use fields::lemma_cpu_sum_bound;
pub use fields::normalize_brightness;
pub use fields::BatteryReading;
pub use fields::BatteryState;
pub use fields::ClockFields;
pub use fields::MemReading;
pub use parse::parse_u32;
pub use parse::trim;
pub use status::brightness_field_from_raw;
pub use status::compose_status;
pub use status::lemma_fields_in_declared_order;
pub use status::volume_field;
pub use status::StatusSnapshot;
pub use sys::sample_clock;
pub use sys::sample_memory;
pub use text::centi_to_string;
pub use text::deci_to_string;
pub use text::four_digits;
pub use text::two_digits;
pub use text::u64_to_string;
pub use timer::initial_delay_ms;
