//! The individual fields of the status line: battery, memory, wall clock,
//! display brightness and CPU load, each as plain validated values.

use vstd::prelude::*;
use vstd::string::StringExecFns;

use crate::text::four_digits;
use crate::text::spec_dec;
use crate::text::spec_four_digits;
use crate::text::spec_two_digits;
use crate::text::two_digits;
use crate::text::u64_to_string;

verus! {

/// The charge direction a battery reports.
#[derive(Clone, Copy, PartialEq, Eq, Structural, Debug)]
pub enum BatteryState {
    Charging,
    Discharging,
    Full,
    Empty,
    Unknown,
}

/// One battery sample: charge direction, state of charge in percent, and
/// the estimated minutes to empty and to full where the device reports
/// them.
#[derive(Clone, Copy, PartialEq, Eq, Structural, Debug)]
pub struct BatteryReading {
    pub state: BatteryState,
    pub soc_percent: u8,
    pub minutes_to_empty: Option<u32>,
    pub minutes_to_full: Option<u32>,
}

/// The textual label of a charge direction.
pub open spec fn spec_state_label(s: BatteryState) -> Seq<char> {
    match s {
        BatteryState::Charging => "Charging"@,
        BatteryState::Discharging => "Discharging"@,
        BatteryState::Full => "Full"@,
        BatteryState::Empty => "Empty"@,
        BatteryState::Unknown => "Unknown"@,
    }
}

/// A minutes estimate: the number with an `m` suffix, or a placeholder
/// where the device reports none.
pub open spec fn spec_minutes_text(m: Option<u32>) -> Seq<char> {
    match m {
        Some(v) => spec_dec(v as nat) + seq!['m'],
        None => seq!['?'],
    }
}

/// The battery field: label, state of charge, then the two time estimates.
pub open spec fn spec_battery_text(b: BatteryReading) -> Seq<char> {
    spec_state_label(b.state) + seq![' '] + spec_dec(b.soc_percent as nat) + seq!['%', ' ']
        + spec_minutes_text(b.minutes_to_empty) + seq![':'] + spec_minutes_text(b.minutes_to_full)
}

impl BatteryReading {
    /// A reading never reports more than a full charge.
    pub open spec fn wf(self) -> bool {
        self.soc_percent <= 100
    }

    /// Builds a reading from a raw percentage, clamping anything above a
    /// full charge down to it.
    pub fn new(
        state: BatteryState,
        soc_raw: u32,
        minutes_to_empty: Option<u32>,
        minutes_to_full: Option<u32>,
    ) -> (r: BatteryReading)
        ensures
            r.wf(),
            r.state == state,
            r.soc_percent as nat == if soc_raw <= 100 {
                soc_raw as nat
            } else {
                100
            },
            r.minutes_to_empty == minutes_to_empty,
            r.minutes_to_full == minutes_to_full,
    {
        let soc: u8 = if soc_raw <= 100 {
            soc_raw as u8
        } else {
            100
        };
        BatteryReading { state, soc_percent: soc, minutes_to_empty, minutes_to_full }
    }
}

/// The label of a charge direction.
fn state_label(s: BatteryState) -> (r: &'static str)
    ensures
        r@ == spec_state_label(s),
{
    match s {
        BatteryState::Charging => "Charging",
        BatteryState::Discharging => "Discharging",
        BatteryState::Full => "Full",
        BatteryState::Empty => "Empty",
        BatteryState::Unknown => "Unknown",
    }
}

/// A minutes estimate as text.
fn minutes_text(m: &Option<u32>) -> (r: String)
    ensures
        r@ == spec_minutes_text(*m),
{
    match m {
        Some(v) => {
            let mut r = u64_to_string(*v as u64);
            r.append("m");
            proof {
                reveal_strlit("m");
                assert(r@ =~= spec_minutes_text(*m));
            }
            r
        },
        None => {
            let r = "?".to_owned();
            proof {
                reveal_strlit("?");
                assert(r@ =~= spec_minutes_text(*m));
            }
            r
        },
    }
}

/// The battery field as text.
pub fn battery_text(b: &BatteryReading) -> (r: String)
    ensures
        r@ == spec_battery_text(*b),
{
    let mut r = state_label(b.state).to_owned();
    r.append(" ");
    let soc = u64_to_string(b.soc_percent as u64);
    r.append(soc.as_str());
    r.append("% ");
    let tte = minutes_text(&b.minutes_to_empty);
    r.append(tte.as_str());
    r.append(":");
    let ttf = minutes_text(&b.minutes_to_full);
    r.append(ttf.as_str());
    proof {
        reveal_strlit(" ");
        reveal_strlit("% ");
        reveal_strlit(":");
        assert(r@ =~= spec_battery_text(*b));
    }
    r
}

/// One memory sample, in tenths of a mebibyte.
#[derive(Clone, Copy, PartialEq, Eq, Structural, Debug)]
pub struct MemReading {
    pub used_mib_deci: u64,
    pub total_mib_deci: u64,
}

/// Bytes converted to tenths of a mebibyte, rounded down.
pub open spec fn spec_deci_mib(bytes: nat) -> nat {
    bytes * 10 / 1048576
}

impl MemReading {
    /// A sample never shows more memory in use than the machine has.
    pub open spec fn wf(self) -> bool {
        self.used_mib_deci <= self.total_mib_deci
    }

    /// Builds a sample from byte counts, clamping used memory to the
    /// total where a counter glitch reports more.
    pub fn new(used_bytes: u64, total_bytes: u64) -> (r: MemReading)
        ensures
            r.wf(),
            r.total_mib_deci as nat == spec_deci_mib(total_bytes as nat),
            r.used_mib_deci as nat == spec_deci_mib(
                if used_bytes <= total_bytes {
                    used_bytes as nat
                } else {
                    total_bytes as nat
                },
            ),
    {
        let used_b: u64 = if used_bytes <= total_bytes {
            used_bytes
        } else {
            total_bytes
        };
        let used = ((used_b as u128) * 10 / 1048576) as u64;
        let total = ((total_bytes as u128) * 10 / 1048576) as u64;
        proof {
            lemma_deci_mib_fits(used_b as nat);
            lemma_deci_mib_fits(total_bytes as nat);
            lemma_deci_mib_ordered(used_b as nat, total_bytes as nat);
        }
        MemReading { used_mib_deci: used, total_mib_deci: total }
    }
}

/// Converted tenths of a mebibyte fit back into a machine word.
proof fn lemma_deci_mib_fits(bytes: nat)
    requires
        bytes <= u64::MAX,
    ensures
        spec_deci_mib(bytes) <= u64::MAX,
{
    vstd::arithmetic::mul::lemma_mul_inequality(10, 1048576, bytes as int);
    vstd::arithmetic::div_mod::lemma_div_is_ordered(
        10 * bytes as int,
        1048576 * bytes as int,
        1048576,
    );
    vstd::arithmetic::div_mod::lemma_div_multiples_vanish(bytes as int, 1048576);
}

/// Converting bytes to tenths of a mebibyte keeps order.
proof fn lemma_deci_mib_ordered(a: nat, b: nat)
    requires
        a <= b,
    ensures
        spec_deci_mib(a) <= spec_deci_mib(b),
{
    vstd::arithmetic::mul::lemma_mul_inequality(a as int, b as int, 10);
    vstd::arithmetic::div_mod::lemma_div_is_ordered(a as int * 10, b as int * 10, 1048576);
}

/// One wall-clock sample, already validated against the calendar ranges.
#[derive(Clone, Copy, PartialEq, Eq, Structural, Debug)]
pub struct ClockFields {
    pub year: u16,
    pub month: u8,
    pub day: u8,
    pub hour: u8,
    pub minute: u8,
    pub second: u8,
}

impl ClockFields {
    /// The ranges the clock rendering relies on.
    pub open spec fn wf(self) -> bool {
        &&& self.year <= 9999
        &&& 1 <= self.month <= 12
        &&& 1 <= self.day <= 31
        &&& self.hour <= 23
        &&& self.minute <= 59
        &&& self.second <= 59
    }

    /// Validates raw calendar values; anything out of range fails the
    /// clock field as a whole.
    pub fn from_raw(year: i32, month: u32, day: u32, hour: u32, minute: u32, second: u32) -> (r:
        Option<ClockFields>)
        ensures
            r is Some <==> (0 <= year <= 9999 && 1 <= month <= 12 && 1 <= day <= 31 && hour <= 23
                && minute <= 59 && second <= 59),
            r matches Some(f) ==> f.wf() && f.year == year && f.month == month && f.day == day
                && f.hour == hour && f.minute == minute && f.second == second,
    {
        if 0 <= year && year <= 9999 && 1 <= month && month <= 12 && 1 <= day && day <= 31 && hour
            <= 23 && minute <= 59 && second <= 59 {
            Some(
                ClockFields {
                    year: year as u16,
                    month: month as u8,
                    day: day as u8,
                    hour: hour as u8,
                    minute: minute as u8,
                    second: second as u8,
                },
            )
        } else {
            None
        }
    }
}

/// The clock field: date and time with a fixed pattern,
/// `"2024-01-01 00:00:00"` style.
pub open spec fn spec_clock_text(f: ClockFields) -> Seq<char> {
    spec_four_digits(f.year as nat) + seq!['-'] + spec_two_digits(f.month as nat) + seq!['-']
        + spec_two_digits(f.day as nat) + seq![' '] + spec_two_digits(f.hour as nat) + seq![':']
        + spec_two_digits(f.minute as nat) + seq![':'] + spec_two_digits(f.second as nat)
}

/// The clock field as text.
pub fn clock_text(f: &ClockFields) -> (r: String)
    ensures
        r@ == spec_clock_text(*f),
{
    let mut r = four_digits(f.year);
    r.append("-");
    let month = two_digits(f.month);
    r.append(month.as_str());
    r.append("-");
    let day = two_digits(f.day);
    r.append(day.as_str());
    r.append(" ");
    let hour = two_digits(f.hour);
    r.append(hour.as_str());
    r.append(":");
    let minute = two_digits(f.minute);
    r.append(minute.as_str());
    r.append(":");
    let second = two_digits(f.second);
    r.append(second.as_str());
    proof {
        reveal_strlit("-");
        reveal_strlit(" ");
        reveal_strlit(":");
        assert(r@ =~= spec_clock_text(*f));
    }
    r
}

/// A raw backlight reading scaled against the device maximum into
/// hundredths of full brightness, capped at full.
pub open spec fn spec_brightness_centi(raw: nat, max: nat) -> nat
    recommends
        max > 0,
{
    if raw * 100 / max <= 100 {
        raw * 100 / max
    } else {
        100
    }
}

/// Normalizes a raw backlight reading into hundredths of full brightness.
pub fn normalize_brightness(raw: u32, max: u32) -> (r: u32)
    requires
        max > 0,
    ensures
        r as nat == spec_brightness_centi(raw as nat, max as nat),
        r <= 100,
{
    let scaled = (raw as u64) * 100 / (max as u64);
    if scaled <= 100 {
        scaled as u32
    } else {
        100
    }
}

/// Brightness normalization is monotonic in the raw reading: a brighter
/// backlight value never renders as a smaller fraction.
pub proof fn lemma_brightness_monotonic(raw1: nat, raw2: nat, max: nat)
    requires
        max > 0,
        raw1 <= raw2,
    ensures
        spec_brightness_centi(raw1, max) <= spec_brightness_centi(raw2, max),
{
    vstd::arithmetic::mul::lemma_mul_inequality(raw1 as int, raw2 as int, 100);
    vstd::arithmetic::div_mod::lemma_div_is_ordered(
        raw1 as int * 100,
        raw2 as int * 100,
        max as int,
    );
}

/// Per-core load capped at one full core, in basis points.
pub open spec fn spec_core_clamped(x: u32) -> nat {
    if x <= 10000 {
        x as nat
    } else {
        10000
    }
}

/// The summed load of the cores, each capped at one full core.
pub open spec fn spec_cpu_sum(s: Seq<u32>) -> nat
    decreases s.len(),
{
    if s.len() == 0 {
        0
    } else {
        spec_cpu_sum(s.drop_last()) + spec_core_clamped(s.last())
    }
}

/// The aggregate load stays within the core count: at most one full core
/// per core, in basis points.
pub proof fn lemma_cpu_sum_bound(s: Seq<u32>)
    ensures
        spec_cpu_sum(s) <= 10000 * s.len(),
    decreases s.len(),
{
    if s.len() > 0 {
        lemma_cpu_sum_bound(s.drop_last());
    }
}

/// Averages per-core loads, given in basis points of one core, into an
/// overall load in basis points of the whole machine. Fails only on an
/// empty sample.
pub fn aggregate_cpu(per_core: &Vec<u32>) -> (r: Option<u32>)
    ensures
        r is Some <==> per_core@.len() > 0,
        r matches Some(v) ==> v as nat == spec_cpu_sum(per_core@) / per_core@.len() && v <= 10000,
{
    let n = per_core.len();
    if n == 0 {
        return None;
    }
    let mut sum: u128 = 0;
    let mut i: usize = 0;
    while i < n
        invariant
            0 <= i <= n,
            n == per_core@.len(),
            sum as nat == spec_cpu_sum(per_core@.take(i as int)),
            sum <= 10000 * (i as int),
        decreases n - i,
    {
        let x = per_core[i];
        let clamped: u128 = if x <= 10000 {
            x as u128
        } else {
            10000
        };
        proof {
            let pre = per_core@.take(i as int);
            let post = per_core@.take(i + 1);
            assert(post.drop_last() =~= pre);
            assert(post.last() == per_core@[i as int]);
        }
        sum = sum + clamped;
        i = i + 1;
    }
    proof {
        assert(per_core@.take(n as int) =~= per_core@);
        lemma_cpu_sum_bound(per_core@);
        vstd::arithmetic::div_mod::lemma_div_is_ordered(
            spec_cpu_sum(per_core@) as int,
            10000 * n as int,
            n as int,
        );
        vstd::arithmetic::div_mod::lemma_div_multiples_vanish(10000, n as int);
    }
    Some((sum / (n as u128)) as u32)
}

} // verus!
