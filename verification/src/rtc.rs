//! Pure computations of the real-time-clock driver.
//!
//! The RTC hands its registers out in binary-coded decimal over two hardware
//! ports; reading those ports is I/O and happens outside this library. What
//! is verified here is everything the driver computes: decoding a BCD
//! register byte, interpreting the update-in-progress status, assembling the
//! date-and-time snapshot, and counting interrupt ticks with the periodic
//! heartbeat decision.

use vstd::prelude::*;

verus! {

/// Binary value of a BCD-encoded register byte: the high nibble counts tens,
/// the low nibble counts ones.
pub open spec fn spec_bcd_decode(bcd: u8) -> int {
    (bcd as int / 16) * 10 + (bcd as int % 16)
}

/// Decode a BCD-encoded RTC register byte to its binary value.
pub fn bcd_decode(bcd: u8) -> (r: u8)
    ensures
        r as int == spec_bcd_decode(bcd),
{
    proof {
        assert(bcd & 0xf == bcd % 16) by (bit_vector);
    }
    (bcd / 16) * 10 + (bcd & 0xf)
}

/// Interpret the status byte the RTC returns after the update-in-progress
/// register was selected: in progress exactly when the byte reads one.
pub fn get_update_in_progress(status: u8) -> (r: bool)
    ensures
        r == (status == 1),
{
    status == 1
}

/// One date-and-time snapshot of the RTC, fields in binary.
#[allow(non_camel_case_types)]
#[derive(Clone, Copy, PartialEq, Eq, Structural, Debug)]
pub struct time {
    pub seconds: u8,
    pub minutes: u8,
    pub hours: u8,
    pub days: u8,
    pub months: u8,
    pub years: u8,
}

/// Assemble the RTC snapshot from the raw BCD register bytes, in the order
/// the hardware registers hold them: seconds, minutes, hours, day of month,
/// month, year.
pub fn read_rtc(
    raw_seconds: u8,
    raw_minutes: u8,
    raw_hours: u8,
    raw_days: u8,
    raw_months: u8,
    raw_years: u8,
) -> (t: time)
    ensures
        t.seconds as int == spec_bcd_decode(raw_seconds),
        t.minutes as int == spec_bcd_decode(raw_minutes),
        t.hours as int == spec_bcd_decode(raw_hours),
        t.days as int == spec_bcd_decode(raw_days),
        t.months as int == spec_bcd_decode(raw_months),
        t.years as int == spec_bcd_decode(raw_years),
{
    time {
        seconds: bcd_decode(raw_seconds),
        minutes: bcd_decode(raw_minutes),
        hours: bcd_decode(raw_hours),
        days: bcd_decode(raw_days),
        months: bcd_decode(raw_months),
        years: bcd_decode(raw_years),
    }
}

/// The interrupt-tick counter, kept by the interrupt handler's caller.
#[derive(Clone, Copy, PartialEq, Eq, Structural, Debug)]
pub struct RtcTicks {
    pub count: u64,
}

/// Number of ticks between two heartbeat reports.
pub const HEARTBEAT_TICKS: u64 = 128;

/// Account for one RTC interrupt: bump the tick counter (wrapping at the
/// counter's width, as a fetch-and-add on the hardware word would) and decide
/// whether this tick completes a heartbeat period.
pub fn handle_rtc_interrupt(ticks: &mut RtcTicks) -> (heartbeat: bool)
    ensures
        old(ticks).count < u64::MAX ==> final(ticks).count == old(ticks).count + 1,
        old(ticks).count == u64::MAX ==> final(ticks).count == 0,
        heartbeat == (final(ticks).count as int % HEARTBEAT_TICKS as int == 0),
{
    if ticks.count == u64::MAX {
        ticks.count = 0;
    } else {
        ticks.count = ticks.count + 1;
    }
    ticks.count % HEARTBEAT_TICKS == 0
}

} // verus!
