//! Estimates battery percentage from the battery voltage, by walking a fixed
//! descending table of breakpoints.  Voltages are integer millivolts.

use vstd::prelude::*;

verus! {

/// Number of breakpoints in the voltage table; each step is 5% of capacity.
pub const BATTERY_TABLE_LEN: usize = 20;

/// The voltage table, in millivolts, strictly descending.  The breakpoint at
/// index `i` is the lowest voltage still worth `100 - 5*i` percent.  The
/// second-to-last entry (3700 mV) is the level below which the cell should
/// not be discharged for good battery health.
pub open spec fn spec_breakpoint(i: int) -> int {
    if i == 0 {
        4150
    } else if i == 1 {
        4110
    } else if i == 2 {
        4080
    } else if i == 3 {
        4020
    } else if i == 4 {
        3980
    } else if i == 5 {
        3950
    } else if i == 6 {
        3910
    } else if i == 7 {
        3870
    } else if i == 8 {
        3850
    } else if i == 9 {
        3840
    } else if i == 10 {
        3820
    } else if i == 11 {
        3800
    } else if i == 12 {
        3790
    } else if i == 13 {
        3770
    } else if i == 14 {
        3750
    } else if i == 15 {
        3730
    } else if i == 16 {
        3710
    } else if i == 17 {
        3700
    } else if i == 18 {
        3600
    } else {
        3200
    }
}

/// The breakpoint at index `i` of the voltage table, in millivolts.
pub fn breakpoint_millivolts(i: usize) -> (r: u32)
    requires
        i < BATTERY_TABLE_LEN,
    ensures
        r == spec_breakpoint(i as int),
{
    if i == 0 {
        4150
    } else if i == 1 {
        4110
    } else if i == 2 {
        4080
    } else if i == 3 {
        4020
    } else if i == 4 {
        3980
    } else if i == 5 {
        3950
    } else if i == 6 {
        3910
    } else if i == 7 {
        3870
    } else if i == 8 {
        3850
    } else if i == 9 {
        3840
    } else if i == 10 {
        3820
    } else if i == 11 {
        3800
    } else if i == 12 {
        3790
    } else if i == 13 {
        3770
    } else if i == 14 {
        3750
    } else if i == 15 {
        3730
    } else if i == 16 {
        3710
    } else if i == 17 {
        3700
    } else if i == 18 {
        3600
    } else {
        3200
    }
}

/// The percentage the table walk yields from index `i` on: the first
/// breakpoint at or below the voltage stops the walk at `100 - 5*i`; below
/// every remaining breakpoint the walk ends at 0.
pub open spec fn spec_percentage_from(voltage: int, i: int) -> int
    decreases BATTERY_TABLE_LEN - i,
{
    if i >= BATTERY_TABLE_LEN {
        0
    } else if voltage >= spec_breakpoint(i) {
        100 - 5 * i
    } else {
        spec_percentage_from(voltage, i + 1)
    }
}

/// The estimated battery percentage for a voltage: the full table walk.
pub open spec fn spec_percentage(voltage: int) -> int {
    spec_percentage_from(voltage, 0)
}

/// Converts the given battery voltage, in millivolts, to an estimated battery
/// percentage: a multiple of 5 in `[0, 100]`, exactly the table walk.
pub fn voltage_to_percentage(voltage_millivolts: u32) -> (r: usize)
    ensures
        r == spec_percentage(voltage_millivolts as int),
{
    let mut percentage: usize = 100;
    let mut i: usize = 0;
    while i < BATTERY_TABLE_LEN
        invariant
            i <= BATTERY_TABLE_LEN,
            percentage == 100 - 5 * i,
            spec_percentage(voltage_millivolts as int) == spec_percentage_from(
                voltage_millivolts as int,
                i as int,
            ),
        decreases BATTERY_TABLE_LEN - i,
    {
        if voltage_millivolts >= breakpoint_millivolts(i) {
            return percentage;
        }
        percentage = percentage - 5;
        i = i + 1;
    }
    percentage
}

/// The walk from index `i` never yields less than 0 nor more than the value
/// at which it could stop first, `100 - 5*i`.
proof fn lemma_percentage_from_bounds(voltage: int, i: int)
    requires
        0 <= i <= BATTERY_TABLE_LEN,
    ensures
        0 <= spec_percentage_from(voltage, i) <= 100 - 5 * i,
    decreases BATTERY_TABLE_LEN - i,
{
    if i < BATTERY_TABLE_LEN && voltage < spec_breakpoint(i) {
        lemma_percentage_from_bounds(voltage, i + 1);
    }
}

/// Law: at or above the highest breakpoint of the table the estimate is a
/// full 100 percent.
pub proof fn lemma_percentage_full(voltage: int)
    requires
        voltage >= spec_breakpoint(0),
    ensures
        spec_percentage(voltage) == 100,
{
}

proof fn lemma_percentage_from_empty(voltage: int, i: int)
    requires
        0 <= i <= BATTERY_TABLE_LEN,
        voltage < 3200,
    ensures
        spec_percentage_from(voltage, i) == 0,
    decreases BATTERY_TABLE_LEN - i,
{
    if i < BATTERY_TABLE_LEN {
        assert(voltage < spec_breakpoint(i));
        lemma_percentage_from_empty(voltage, i + 1);
    }
}

/// Law: below the lowest breakpoint of the table the estimate is 0 percent.
pub proof fn lemma_percentage_empty(voltage: int)
    requires
        voltage < spec_breakpoint(BATTERY_TABLE_LEN - 1),
    ensures
        spec_percentage(voltage) == 0,
{
    lemma_percentage_from_empty(voltage, 0);
}

proof fn lemma_percentage_from_monotone(lo: int, hi: int, i: int)
    requires
        0 <= i <= BATTERY_TABLE_LEN,
        lo <= hi,
    ensures
        spec_percentage_from(lo, i) <= spec_percentage_from(hi, i),
    decreases BATTERY_TABLE_LEN - i,
{
    if i < BATTERY_TABLE_LEN {
        if hi >= spec_breakpoint(i) {
            lemma_percentage_from_bounds(lo, i);
        } else {
            lemma_percentage_from_monotone(lo, hi, i + 1);
        }
    }
}

/// Law: the estimate is monotonically non-decreasing in the voltage.
pub proof fn lemma_percentage_monotone(lo: int, hi: int)
    requires
        lo <= hi,
    ensures
        spec_percentage(lo) <= spec_percentage(hi),
{
    lemma_percentage_from_monotone(lo, hi, 0);
}

/// Law: every estimate is a multiple of 5 between 0 and 100.
pub proof fn lemma_percentage_range(voltage: int)
    ensures
        0 <= spec_percentage(voltage) <= 100,
        spec_percentage(voltage) % 5 == 0,
{
    lemma_percentage_from_bounds(voltage, 0);
    lemma_percentage_from_step(voltage, 0);
}

/// The walk from any index yields a multiple of 5.
proof fn lemma_percentage_from_step(voltage: int, i: int)
    requires
        0 <= i <= BATTERY_TABLE_LEN,
    ensures
        spec_percentage_from(voltage, i) % 5 == 0,
    decreases BATTERY_TABLE_LEN - i,
{
    if i < BATTERY_TABLE_LEN && voltage < spec_breakpoint(i) {
        lemma_percentage_from_step(voltage, i + 1);
    }
}

} // verus!
