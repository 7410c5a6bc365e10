//! Assembly of the status line out of the sampled fields.
//!
//! Every field is optional; a missing one renders as a placeholder while
//! the rest of the line is still produced, so one failed sample never
//! costs the whole line.

use vstd::prelude::*;
use vstd::string::StrSliceExecFns;
use vstd::string::StringExecFns;

use crate::fields::battery_text;
use crate::fields::clock_text;
use crate::fields::normalize_brightness;
use crate::fields::spec_battery_text;
use crate::fields::spec_brightness_centi;
use crate::fields::spec_clock_text;
use crate::fields::BatteryReading;
use crate::fields::ClockFields;
use crate::fields::MemReading;
use crate::parse::all_digits;
use crate::parse::parse_u32;
use crate::parse::spec_decimal_value;
use crate::parse::spec_trim;
use crate::parse::trim;
use crate::text::centi_to_string;
use crate::text::deci_to_string;
use crate::text::spec_centi;
use crate::text::spec_deci;

verus! {

/// Everything one tick sampled, each field on its own: a field whose
/// sample failed is absent and degrades to a placeholder in the line.
pub struct StatusSnapshot {
    /// Display brightness in hundredths of full, already normalized.
    pub brightness_centi: Option<u32>,
    /// Audio volume as the helper reported it, already trimmed.
    pub volume: Option<String>,
    /// The battery sample.
    pub battery: Option<BatteryReading>,
    /// The memory sample.
    pub memory: Option<MemReading>,
    /// Overall CPU load in basis points of the whole machine.
    pub cpu_bp: Option<u32>,
    /// The wall-clock sample.
    pub clock: Option<ClockFields>,
}

impl StatusSnapshot {
    /// The clock ranges the rendering relies on; every other field
    /// renders whatever it holds.
    pub open spec fn wf(self) -> bool {
        self.clock matches Some(f) ==> f.wf()
    }
}

/// The placeholder a failed field renders as.
pub open spec fn spec_placeholder() -> Seq<char> {
    seq!['?']
}

/// The brightness field: hundredths of full brightness, or the placeholder.
pub open spec fn spec_brightness_field(b: Option<u32>) -> Seq<char> {
    match b {
        Some(v) => spec_centi(v as nat),
        None => spec_placeholder(),
    }
}

/// The volume field: the helper's trimmed report, or the placeholder.
pub open spec fn spec_volume_field(v: Option<String>) -> Seq<char> {
    match v {
        Some(s) => s@,
        None => spec_placeholder(),
    }
}

/// The battery field, or the placeholder.
pub open spec fn spec_battery_field(b: Option<BatteryReading>) -> Seq<char> {
    match b {
        Some(r) => spec_battery_text(r),
        None => spec_placeholder(),
    }
}

/// The memory field: used and total mebibytes with one decimal place, or
/// the placeholder.
pub open spec fn spec_memory_field(m: Option<MemReading>) -> Seq<char> {
    match m {
        Some(r) => spec_deci(r.used_mib_deci as nat) + seq!['/'] + spec_deci(
            r.total_mib_deci as nat,
        ),
        None => spec_placeholder(),
    }
}

/// The CPU field: the machine-wide load as a fraction of one with two
/// decimal places, or the placeholder.
pub open spec fn spec_cpu_field(c: Option<u32>) -> Seq<char> {
    match c {
        Some(v) => spec_centi((v / 100) as nat),
        None => spec_placeholder(),
    }
}

/// The clock field, or the placeholder.
pub open spec fn spec_clock_field(c: Option<ClockFields>) -> Seq<char> {
    match c {
        Some(f) => spec_clock_text(f),
        None => spec_placeholder(),
    }
}

/// The whole status line: the six fields in their fixed order, joined by
/// the fixed separators, the later ones carrying the bar's color markup.
pub open spec fn spec_status_line(s: StatusSnapshot) -> Seq<char> {
    "Brightness: "@ + spec_brightness_field(s.brightness_centi) + " | "@ + spec_volume_field(
        s.volume,
    ) + " | Battery: "@ + spec_battery_field(s.battery) + " "@
        + r##"<span color="#333333">|</span>"##@ + " MEM: "@ + spec_memory_field(s.memory) + " "@
        + r##"<span color="#333333">|</span>"##@ + " CPU: "@ + spec_cpu_field(s.cpu_bp) + " "@
        + r##"<span color="#333333">|</span>"##@ + " "@ + spec_clock_field(s.clock)
}

/// The placeholder as text.
fn placeholder() -> (r: String)
    ensures
        r@ == spec_placeholder(),
{
    let r = "?".to_owned();
    proof {
        reveal_strlit("?");
        assert(r@ =~= spec_placeholder());
    }
    r
}

/// The brightness field as text.
fn brightness_field(b: &Option<u32>) -> (r: String)
    ensures
        r@ == spec_brightness_field(*b),
{
    match b {
        Some(v) => centi_to_string(*v as u64),
        None => placeholder(),
    }
}

/// The volume field as text.
fn volume_field_text(v: &Option<String>) -> (r: String)
    ensures
        r@ == spec_volume_field(*v),
{
    match v {
        Some(s) => s.clone(),
        None => placeholder(),
    }
}

/// The battery field as text.
fn battery_field(b: &Option<BatteryReading>) -> (r: String)
    ensures
        r@ == spec_battery_field(*b),
{
    match b {
        Some(reading) => battery_text(reading),
        None => placeholder(),
    }
}

/// The memory field as text.
fn memory_field(m: &Option<MemReading>) -> (r: String)
    ensures
        r@ == spec_memory_field(*m),
{
    match m {
        Some(reading) => {
            let mut r = deci_to_string(reading.used_mib_deci);
            r.append("/");
            let total = deci_to_string(reading.total_mib_deci);
            r.append(total.as_str());
            proof {
                reveal_strlit("/");
                assert(r@ =~= spec_memory_field(*m));
            }
            r
        },
        None => placeholder(),
    }
}

/// The CPU field as text.
fn cpu_field(c: &Option<u32>) -> (r: String)
    ensures
        r@ == spec_cpu_field(*c),
{
    match c {
        Some(v) => centi_to_string((*v / 100) as u64),
        None => placeholder(),
    }
}

/// The clock field as text.
fn clock_field(c: &Option<ClockFields>) -> (r: String)
    requires
        c matches Some(f) ==> f.wf(),
    ensures
        r@ == spec_clock_field(*c),
{
    match c {
        Some(f) => clock_text(f),
        None => placeholder(),
    }
}

/// Renders one snapshot as the status line, exactly as `spec_status_line`
/// lays it out: each field once, in the fixed order, a placeholder where
/// its sample failed.
pub fn compose_status(s: &StatusSnapshot) -> (r: String)
    requires
        s.wf(),
    ensures
        r@ == spec_status_line(*s),
{
    let mut r = "Brightness: ".to_owned();
    let bright = brightness_field(&s.brightness_centi);
    r.append(bright.as_str());
    r.append(" | ");
    let volume = volume_field_text(&s.volume);
    r.append(volume.as_str());
    r.append(" | Battery: ");
    let battery = battery_field(&s.battery);
    r.append(battery.as_str());
    r.append(" ");
    r.append(r##"<span color="#333333">|</span>"##);
    r.append(" MEM: ");
    let memory = memory_field(&s.memory);
    r.append(memory.as_str());
    r.append(" ");
    r.append(r##"<span color="#333333">|</span>"##);
    r.append(" CPU: ");
    let cpu = cpu_field(&s.cpu_bp);
    r.append(cpu.as_str());
    r.append(" ");
    r.append(r##"<span color="#333333">|</span>"##);
    r.append(" ");
    let clock = clock_field(&s.clock);
    r.append(clock.as_str());
    proof {
        assert(r@ =~= spec_status_line(*s));
    }
    r
}

/// Every published line carries each configured field exactly once at
/// its own slot, in the fixed declared order — brightness, volume,
/// battery, memory, CPU, clock — with the fixed separators between.
#[verifier::rlimit(100)]
pub proof fn lemma_fields_in_declared_order(s: StatusSnapshot)
    ensures
        ({
            let line = spec_status_line(s);
            let bright = spec_brightness_field(s.brightness_centi);
            let volume = spec_volume_field(s.volume);
            let battery = spec_battery_field(s.battery);
            let memory = spec_memory_field(s.memory);
            let cpu = spec_cpu_field(s.cpu_bp);
            let clock = spec_clock_field(s.clock);
            let span = r##"<span color="#333333">|</span>"##@;
            let at_bright = "Brightness: "@.len() as int;
            let at_volume = at_bright + bright.len() + " | "@.len();
            let at_battery = at_volume + volume.len() + " | Battery: "@.len();
            let at_memory = at_battery + battery.len() + " "@.len() + span.len()
                + " MEM: "@.len();
            let at_cpu = at_memory + memory.len() + " "@.len() + span.len() + " CPU: "@.len();
            let at_clock = at_cpu + cpu.len() + " "@.len() + span.len() + " "@.len();
            &&& line.subrange(at_bright, at_bright + bright.len()) == bright
            &&& line.subrange(at_volume, at_volume + volume.len()) == volume
            &&& line.subrange(at_battery, at_battery + battery.len()) == battery
            &&& line.subrange(at_memory, at_memory + memory.len()) == memory
            &&& line.subrange(at_cpu, at_cpu + cpu.len()) == cpu
            &&& line.subrange(at_clock, at_clock + clock.len()) == clock
            &&& line.len() == at_clock + clock.len()
        }),
{
    let line = spec_status_line(s);
    let bright = spec_brightness_field(s.brightness_centi);
    let volume = spec_volume_field(s.volume);
    let battery = spec_battery_field(s.battery);
    let memory = spec_memory_field(s.memory);
    let cpu = spec_cpu_field(s.cpu_bp);
    let clock = spec_clock_field(s.clock);
    let span = r##"<span color="#333333">|</span>"##@;
    let at_bright = "Brightness: "@.len() as int;
    let at_volume = at_bright + bright.len() + " | "@.len();
    let at_battery = at_volume + volume.len() + " | Battery: "@.len();
    let at_memory = at_battery + battery.len() + " "@.len() + span.len() + " MEM: "@.len();
    let at_cpu = at_memory + memory.len() + " "@.len() + span.len() + " CPU: "@.len();
    let at_clock = at_cpu + cpu.len() + " "@.len() + span.len() + " "@.len();
    assert(line.subrange(at_bright, at_bright + bright.len()) =~= bright);
    assert(line.subrange(at_volume, at_volume + volume.len()) =~= volume);
    assert(line.subrange(at_battery, at_battery + battery.len()) =~= battery);
    assert(line.subrange(at_memory, at_memory + memory.len()) =~= memory);
    assert(line.subrange(at_cpu, at_cpu + cpu.len()) =~= cpu);
    assert(line.subrange(at_clock, at_clock + clock.len()) =~= clock);
}

/// Trims the raw volume report; a tick without one degrades to nothing.
pub fn volume_field(raw: &Option<String>) -> (r: Option<String>)
    ensures
        r is Some <==> raw is Some,
        r matches Some(v) ==> (raw matches Some(w) && v@ == spec_trim(w@)),
{
    match raw {
        Some(w) => Some(trim(w.as_str()).to_owned()),
        None => None,
    }
}

/// Parses the raw backlight report and scales it against the device
/// maximum. Succeeds exactly when a report is there, trims to one to
/// nine digits, and the maximum is positive.
pub fn brightness_field_from_raw(raw: &Option<String>, max: u32) -> (r: Option<u32>)
    ensures
        r is Some <==> (max > 0 && (raw matches Some(w) && 1 <= spec_trim(w@).len() <= 9
            && all_digits(spec_trim(w@)))),
        r matches Some(v) ==> (raw matches Some(w) && v as nat == spec_brightness_centi(
            spec_decimal_value(spec_trim(w@)),
            max as nat,
        ) && v <= 100),
{
    if max == 0 {
        return None;
    }
    match raw {
        Some(w) => {
            let trimmed = trim(w.as_str());
            match parse_u32(trimmed) {
                Some(value) => Some(normalize_brightness(value, max)),
                None => None,
            }
        },
        None => None,
    }
}

} // verus!
