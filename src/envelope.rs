use vstd::prelude::*;

verus! {

/// Volume phase of one audio layer at a given instant.
#[derive(Debug, Copy, Clone, PartialEq, Eq, Structural)]
pub enum VolumeInfo {
    FadeIn,
    FadeOut,
    FullVolume,
    Silent,
}

/// The four instants of a volume window, in milliseconds from the start of
/// the exercise: fading in, full volume, fading out, and silent again.
#[derive(Debug, Copy, Clone, PartialEq, Eq, Structural)]
pub struct VolumeTimings {
    pub fade_in_start: u64,
    pub full_volume_start: u64,
    pub fade_out_start: u64,
    pub end_time: u64,
}

impl VolumeTimings {
    /// The instants never go backwards.
    pub open spec fn wf(&self) -> bool {
        self.fade_in_start <= self.full_volume_start <= self.fade_out_start <= self.end_time
    }

    /// A window that starts fading in at `fade_in_start`, takes `fade_in`
    /// to reach full volume, holds it for `full_volume_duration`, then takes
    /// `fade_out` to fall silent.
    pub fn new(fade_in_start: u64, full_volume_duration: u64, fade_in: u64, fade_out: u64) -> (r:
        VolumeTimings)
        requires
            fade_in_start + fade_in + full_volume_duration + fade_out <= u64::MAX,
        ensures
            r.fade_in_start == fade_in_start,
            r.full_volume_start == fade_in_start + fade_in,
            r.fade_out_start == fade_in_start + fade_in + full_volume_duration,
            r.end_time == fade_in_start + fade_in + full_volume_duration + fade_out,
            r.wf(),
    {
        let full_volume_start = fade_in_start + fade_in;
        let fade_out_start = full_volume_start + full_volume_duration;
        let end_time = fade_out_start + fade_out;
        VolumeTimings { fade_in_start, full_volume_start, fade_out_start, end_time }
    }
}

/// Phase of a window at `elapsed`: each phase covers the half-open span from
/// its own instant up to the next one; before and after the window is silence.
pub open spec fn phase_of(elapsed: int, t: VolumeTimings) -> VolumeInfo {
    if t.fade_in_start <= elapsed < t.full_volume_start {
        VolumeInfo::FadeIn
    } else if t.full_volume_start <= elapsed < t.fade_out_start {
        VolumeInfo::FullVolume
    } else if t.fade_out_start <= elapsed < t.end_time {
        VolumeInfo::FadeOut
    } else {
        VolumeInfo::Silent
    }
}

/// Phase of the window `timings` at `elapsed` milliseconds.
pub fn calculate_volume_info(elapsed: u64, timings: &VolumeTimings) -> (r: VolumeInfo)
    ensures
        r == phase_of(elapsed as int, *timings),
{
    if elapsed >= timings.fade_in_start && elapsed < timings.full_volume_start {
        VolumeInfo::FadeIn
    } else if elapsed >= timings.full_volume_start && elapsed < timings.fade_out_start {
        VolumeInfo::FullVolume
    } else if elapsed >= timings.fade_out_start && elapsed < timings.end_time {
        VolumeInfo::FadeOut
    } else {
        VolumeInfo::Silent
    }
}

/// At its four instants a window with non-empty fades and full-volume span
/// is fading in, at full volume, fading out and silent, in that order.
pub proof fn lemma_window_instants(t: VolumeTimings)
    requires
        t.fade_in_start < t.full_volume_start < t.fade_out_start < t.end_time,
    ensures
        phase_of(t.fade_in_start as int, t) == VolumeInfo::FadeIn,
        phase_of(t.full_volume_start as int, t) == VolumeInfo::FullVolume,
        phase_of(t.fade_out_start as int, t) == VolumeInfo::FadeOut,
        phase_of(t.end_time as int, t) == VolumeInfo::Silent,
{
}

/// A gain factor as the exact fraction `num / den`.
#[derive(Debug, Copy, Clone, PartialEq, Eq, Structural)]
pub struct Gain {
    pub num: u64,
    pub den: u64,
}

/// Whether `elapsed` lies in the span of the window that `info` names, so
/// that a fade ramp can be read off it.
pub open spec fn phase_fits(info: VolumeInfo, elapsed: int, t: VolumeTimings) -> bool {
    match info {
        VolumeInfo::FadeIn => t.fade_in_start <= elapsed < t.full_volume_start,
        VolumeInfo::FadeOut => t.fade_out_start <= elapsed < t.end_time,
        _ => true,
    }
}

/// Gain of a layer in phase `info`: a linear ramp from 0 to 1 over the fade
/// in, from 1 to 0 over the fade out, 1 at full volume and 0 when silent.
pub open spec fn gain_of(info: VolumeInfo, elapsed: int, t: VolumeTimings) -> (int, int) {
    match info {
        VolumeInfo::FadeIn => (elapsed - t.fade_in_start, t.full_volume_start - t.fade_in_start),
        VolumeInfo::FadeOut => (t.end_time - elapsed, t.end_time - t.fade_out_start),
        VolumeInfo::FullVolume => (1, 1),
        VolumeInfo::Silent => (0, 1),
    }
}

/// Gain factor for a layer in phase `info` of window `timings`.
pub fn gain_for(info: VolumeInfo, elapsed: u64, timings: &VolumeTimings) -> (r: Gain)
    requires
        phase_fits(info, elapsed as int, *timings),
    ensures
        (r.num as int, r.den as int) == gain_of(info, elapsed as int, *timings),
        0 <= r.num <= r.den,
        0 < r.den,
{
    match info {
        VolumeInfo::FadeIn => Gain {
            num: elapsed - timings.fade_in_start,
            den: timings.full_volume_start - timings.fade_in_start,
        },
        VolumeInfo::FadeOut => Gain {
            num: timings.end_time - elapsed,
            den: timings.end_time - timings.fade_out_start,
        },
        VolumeInfo::FullVolume => Gain { num: 1, den: 1 },
        VolumeInfo::Silent => Gain { num: 0, den: 1 },
    }
}

} // verus!
