//! Volume scales: the mixer's 16-bit scale and the percentage scale of the
//! pipe's protocol.
//!
//! A mixer volume `raw` stands for the percentage `raw / 65535 × 100`. That
//! number is rarely whole, so it is kept exact, as a whole part and a
//! remainder in 65535ths ([`VolumePercent`]). In the other direction a whole
//! percentage is scaled to the nearest mixer step.

use vstd::prelude::*;

verus! {

/// Largest value of the mixer's volume scale.
pub const VOLUME_MAX: u16 = 0xFFFF;

/// A percentage in exact form: `whole + rest / 65535`, with `rest < 65535`.
#[derive(Clone, Copy, Debug, PartialEq, Eq, Structural)]
pub struct VolumePercent {
    pub whole: u8,
    pub rest: u16,
}

/// The percentage that `raw` stands for, times 65535 (which makes it whole).
pub open spec fn spec_percent_scaled(raw: u16) -> int {
    raw * 100
}

/// The percentage that `raw` stands for.
pub open spec fn spec_volume_percent(raw: u16) -> VolumePercent {
    VolumePercent {
        whole: (spec_percent_scaled(raw) / 65535) as u8,
        rest: (spec_percent_scaled(raw) % 65535) as u16,
    }
}

/// The value of a percentage in exact form, times 65535.
pub open spec fn spec_scaled_value(p: VolumePercent) -> int {
    p.whole * 65535 + p.rest
}

/// The whole percentage nearest to the one that `raw` stands for.
pub open spec fn spec_nearest_percent(raw: u16) -> int {
    (spec_percent_scaled(raw) + 32767) / 65535
}

/// The mixer volume nearest to `percent` per cent of the scale (halves round
/// up), before it is cut to 16 bits.
pub open spec fn spec_scaled_percent(percent: int) -> int {
    (percent * 65535 + 50) / 100
}

/// The mixer volume that a set-volume command with operand `percent` asks
/// for: the nearest step for an operand up to 100, and the low 16 bits of that
/// number for a larger one.
pub open spec fn spec_volume_from_percent(percent: u8) -> int {
    spec_scaled_percent(percent as int) % 65536
}

/// The mixer volume that a configured initial volume of `percent` stands for:
/// the step at or below `percent` per cent of the scale, cut to 16 bits.
pub open spec fn spec_initial_volume(percent: u16) -> int {
    (percent * 65535 / 100) % 65536
}

/// The percentage that `raw` stands for, exactly.
pub fn volume_percent(raw: u16) -> (p: VolumePercent)
    ensures
        p == spec_volume_percent(raw),
        spec_scaled_value(p) == spec_percent_scaled(raw),
        p.whole <= 100,
        p.rest < 65535,
{
    let scaled: u32 = raw as u32 * 100;
    VolumePercent { whole: (scaled / 65535) as u8, rest: (scaled % 65535) as u16 }
}

/// The whole percentage nearest to the one that `raw` stands for.
pub fn nearest_percent(raw: u16) -> (percent: u8)
    ensures
        percent as int == spec_nearest_percent(raw),
        percent <= 100,
{
    ((raw as u32 * 100 + 32767) / 65535) as u8
}

/// Scales the operand of a set-volume command to the mixer's scale.
pub fn volume_from_percent(percent: u8) -> (raw: u16)
    ensures
        raw as int == spec_volume_from_percent(percent),
        percent <= 100 ==> raw as int == spec_scaled_percent(percent as int),
{
    let wide: u32 = (percent as u32 * 65535 + 50) / 100;
    (wide % 65536) as u16
}

/// Whether `percent` is a percentage: at most 100.
pub fn percent_in_range(percent: u16) -> (b: bool)
    ensures
        b == (percent <= 100),
{
    percent <= 100
}

/// Scales a configured initial volume to the mixer's scale.
pub fn initial_volume(percent: u16) -> (raw: u16)
    ensures
        raw as int == spec_initial_volume(percent),
        percent <= 100 ==> raw as int == percent * 65535 / 100,
{
    let wide: u64 = percent as u64 * 65535 / 100;
    (wide % 65536) as u16
}

/// The published percentage is the mixer volume over 65535, times 100, and
/// lies between 0 and 100.
pub proof fn lemma_percent_exact(raw: u16)
    ensures
        spec_scaled_value(spec_volume_percent(raw)) == raw * 100,
        spec_volume_percent(raw).rest < 65535,
        0 <= spec_scaled_value(spec_volume_percent(raw)) <= 100 * 65535,
        raw == 0 <==> spec_volume_percent(raw) == (VolumePercent { whole: 0, rest: 0 }),
        raw == 65535 <==> spec_volume_percent(raw) == (VolumePercent { whole: 100, rest: 0 }),
{
}

/// The published percentage grows with the mixer volume: a louder volume
/// never publishes a smaller percentage, and a different volume publishes a
/// different one.
pub proof fn lemma_percent_monotonic(quiet: u16, loud: u16)
    requires
        quiet <= loud,
    ensures
        spec_scaled_value(spec_volume_percent(quiet)) <= spec_scaled_value(
            spec_volume_percent(loud),
        ),
        spec_volume_percent(quiet).whole <= spec_volume_percent(loud).whole,
        spec_volume_percent(quiet).whole == spec_volume_percent(loud).whole ==> spec_volume_percent(
            quiet,
        ).rest <= spec_volume_percent(loud).rest,
        quiet < loud ==> spec_volume_percent(quiet) != spec_volume_percent(loud),
{
}

/// A whole percentage sent back as a command gives the mixer volume nearest
/// to that percentage: it is within half a step of `percent × 65535 / 100`,
/// and the percentage published for it is nearer to `percent` than to any
/// other whole percentage.
pub proof fn lemma_percent_round_trip(percent: u8)
    requires
        percent <= 100,
    ensures
        0 <= spec_volume_from_percent(percent) <= 65535,
        -50 < 100 * spec_volume_from_percent(percent) - percent * 65535 <= 50,
        spec_nearest_percent(spec_volume_from_percent(percent) as u16) == percent,
{
}

/// Scaling a percentage to the mixer's scale keeps the order.
pub proof fn lemma_from_percent_monotonic(low: u8, high: u8)
    requires
        low <= high <= 100,
    ensures
        spec_volume_from_percent(low) <= spec_volume_from_percent(high),
        low < high ==> spec_volume_from_percent(low) < spec_volume_from_percent(high),
{
}

} // verus!
