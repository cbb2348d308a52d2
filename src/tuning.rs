use crate::envelope::{calculate_volume_info, phase_of, VolumeInfo, VolumeTimings};
use vstd::prelude::*;

verus! {

/// Length of every fade in, in milliseconds.
pub const FADE_IN_DURATION: u64 = 2000;

/// Length of every fade out, in milliseconds.
pub const FADE_OUT_DURATION: u64 = 2000;

/// When the root tone starts to fade in.
pub const ROOT_FADE_IN_START_TIME: u64 = 0;

/// How long the root tone holds full volume.
pub const ROOT_FULL_VOLUME_DURATION: u64 = 16000;

/// When the interval tone starts to fade in for the challenge.
pub const RELATIVE_CHALLENGE_FADE_IN_START_TIME: u64 = 2000;

/// When the interval tone starts to fade in again for the answer.
pub const RELATIVE_ANSWER_FADE_IN_START_TIME: u64 = 12000;

/// How long the interval tone holds full volume, in either window.
pub const RELATIVE_FULL_VOLUME_DURATION: u64 = 4000;

/// From when on the spoken answer is heard: one second before the answer
/// window opens and a second after the challenge window has closed, so the
/// spoken name leads the returning interval tone.
pub const PLAY_VOICE_ANSWER_START_TIME: u64 = 11000;

/// The timing of one exercise cycle, every value in milliseconds from the
/// start of the exercise.
#[derive(Debug, Copy, Clone, PartialEq, Eq, Structural)]
pub struct Tuning {
    pub fade_in_duration: u64,
    pub fade_out_duration: u64,
    pub root_fade_in_start: u64,
    pub root_full_volume_duration: u64,
    pub relative_challenge_fade_in_start: u64,
    pub relative_answer_fade_in_start: u64,
    pub relative_full_volume_duration: u64,
    pub play_voice_answer_start: u64,
}

/// Snapshot of what each audio layer does at one instant.
#[derive(Debug, Copy, Clone, PartialEq, Eq, Structural)]
pub struct ExerciseCommand {
    pub play_root: VolumeInfo,
    pub play_challenge: VolumeInfo,
    pub play_answer: VolumeInfo,
    pub play_voice_answer: bool,
}

/// The window that fades in at `start` and holds full volume for `full`.
pub open spec fn window_of(t: Tuning, start: u64, full: u64) -> VolumeTimings {
    VolumeTimings {
        fade_in_start: start,
        full_volume_start: (start + t.fade_in_duration) as u64,
        fade_out_start: (start + t.fade_in_duration + full) as u64,
        end_time: (start + t.fade_in_duration + full + t.fade_out_duration) as u64,
    }
}

/// Phase of the root tone: a repetition that does not open its block does
/// not fade in, and one that does not close it neither fades out nor falls
/// silent; the root holds full volume instead.
pub open spec fn root_phase(t: Tuning, elapsed: int, fade_in_root: bool, fade_out_root: bool) -> VolumeInfo {
    let raw = phase_of(elapsed, t.spec_root_timings());
    let p = if raw == VolumeInfo::FadeIn && !fade_in_root {
        VolumeInfo::FullVolume
    } else {
        raw
    };
    if (p == VolumeInfo::FadeOut || p == VolumeInfo::Silent) && !fade_out_root {
        VolumeInfo::FullVolume
    } else {
        p
    }
}

/// The command for instant `elapsed` of a cycle.
pub open spec fn command_of(t: Tuning, elapsed: int, fade_in_root: bool, fade_out_root: bool) -> ExerciseCommand {
    ExerciseCommand {
        play_root: root_phase(t, elapsed, fade_in_root, fade_out_root),
        play_challenge: phase_of(elapsed, t.spec_challenge_timings()),
        play_answer: phase_of(elapsed, t.spec_answer_timings()),
        play_voice_answer: elapsed >= t.play_voice_answer_start,
    }
}

impl Tuning {
    /// The ends of all three windows fit in a `u64`.
    pub open spec fn wf(&self) -> bool {
        &&& self.root_fade_in_start + self.fade_in_duration + self.root_full_volume_duration
            + self.fade_out_duration <= u64::MAX
        &&& self.relative_challenge_fade_in_start + self.fade_in_duration
            + self.relative_full_volume_duration + self.fade_out_duration <= u64::MAX
        &&& self.relative_answer_fade_in_start + self.fade_in_duration
            + self.relative_full_volume_duration + self.fade_out_duration <= u64::MAX
    }

    pub open spec fn spec_root_timings(&self) -> VolumeTimings {
        window_of(*self, self.root_fade_in_start, self.root_full_volume_duration)
    }

    pub open spec fn spec_challenge_timings(&self) -> VolumeTimings {
        window_of(*self, self.relative_challenge_fade_in_start, self.relative_full_volume_duration)
    }

    pub open spec fn spec_answer_timings(&self) -> VolumeTimings {
        window_of(*self, self.relative_answer_fade_in_start, self.relative_full_volume_duration)
    }

    pub open spec fn spec_reference() -> Tuning {
        Tuning {
            fade_in_duration: FADE_IN_DURATION,
            fade_out_duration: FADE_OUT_DURATION,
            root_fade_in_start: ROOT_FADE_IN_START_TIME,
            root_full_volume_duration: ROOT_FULL_VOLUME_DURATION,
            relative_challenge_fade_in_start: RELATIVE_CHALLENGE_FADE_IN_START_TIME,
            relative_answer_fade_in_start: RELATIVE_ANSWER_FADE_IN_START_TIME,
            relative_full_volume_duration: RELATIVE_FULL_VOLUME_DURATION,
            play_voice_answer_start: PLAY_VOICE_ANSWER_START_TIME,
        }
    }

    /// The reference timing: two-second fades, a root held for sixteen
    /// seconds, the interval from two seconds on and again from twelve.
    pub fn reference() -> (r: Tuning)
        ensures
            r == Self::spec_reference(),
            r.wf(),
    {
        Tuning {
            fade_in_duration: FADE_IN_DURATION,
            fade_out_duration: FADE_OUT_DURATION,
            root_fade_in_start: ROOT_FADE_IN_START_TIME,
            root_full_volume_duration: ROOT_FULL_VOLUME_DURATION,
            relative_challenge_fade_in_start: RELATIVE_CHALLENGE_FADE_IN_START_TIME,
            relative_answer_fade_in_start: RELATIVE_ANSWER_FADE_IN_START_TIME,
            relative_full_volume_duration: RELATIVE_FULL_VOLUME_DURATION,
            play_voice_answer_start: PLAY_VOICE_ANSWER_START_TIME,
        }
    }

    /// Whether the ends of all three windows fit in a `u64`.
    pub fn fits(&self) -> (r: bool)
        ensures
            r == self.wf(),
    {
        let root = self.root_fade_in_start.checked_add(self.fade_in_duration);
        let root = match root {
            Some(x) => x.checked_add(self.root_full_volume_duration),
            None => None,
        };
        let root = match root {
            Some(x) => x.checked_add(self.fade_out_duration),
            None => None,
        };
        let challenge = self.relative_challenge_fade_in_start.checked_add(self.fade_in_duration);
        let challenge = match challenge {
            Some(x) => x.checked_add(self.relative_full_volume_duration),
            None => None,
        };
        let challenge = match challenge {
            Some(x) => x.checked_add(self.fade_out_duration),
            None => None,
        };
        let answer = self.relative_answer_fade_in_start.checked_add(self.fade_in_duration);
        let answer = match answer {
            Some(x) => x.checked_add(self.relative_full_volume_duration),
            None => None,
        };
        let answer = match answer {
            Some(x) => x.checked_add(self.fade_out_duration),
            None => None,
        };
        root.is_some() && challenge.is_some() && answer.is_some()
    }

    /// The root tone's window.
    pub fn root_timings(&self) -> (r: VolumeTimings)
        requires
            self.wf(),
        ensures
            r == self.spec_root_timings(),
    {
        VolumeTimings::new(
            self.root_fade_in_start,
            self.root_full_volume_duration,
            self.fade_in_duration,
            self.fade_out_duration,
        )
    }

    /// The interval tone's window while the learner is challenged.
    pub fn challenge_timings(&self) -> (r: VolumeTimings)
        requires
            self.wf(),
        ensures
            r == self.spec_challenge_timings(),
    {
        VolumeTimings::new(
            self.relative_challenge_fade_in_start,
            self.relative_full_volume_duration,
            self.fade_in_duration,
            self.fade_out_duration,
        )
    }

    /// The interval tone's window while the answer is given.
    pub fn answer_timings(&self) -> (r: VolumeTimings)
        requires
            self.wf(),
        ensures
            r == self.spec_answer_timings(),
    {
        VolumeTimings::new(
            self.relative_answer_fade_in_start,
            self.relative_full_volume_duration,
            self.fade_in_duration,
            self.fade_out_duration,
        )
    }

    /// Phase of the root window at `elapsed`, before any repetition rule.
    pub fn root_volume_info(&self, elapsed: u64) -> (r: VolumeInfo)
        requires
            self.wf(),
        ensures
            r == phase_of(elapsed as int, self.spec_root_timings()),
    {
        calculate_volume_info(elapsed, &self.root_timings())
    }

    /// Phase of the challenge window at `elapsed`.
    pub fn relative_challenge_volume_info(&self, elapsed: u64) -> (r: VolumeInfo)
        requires
            self.wf(),
        ensures
            r == phase_of(elapsed as int, self.spec_challenge_timings()),
    {
        calculate_volume_info(elapsed, &self.challenge_timings())
    }

    /// Phase of the answer window at `elapsed`.
    pub fn relative_answer_volume_info(&self, elapsed: u64) -> (r: VolumeInfo)
        requires
            self.wf(),
        ensures
            r == phase_of(elapsed as int, self.spec_answer_timings()),
    {
        calculate_volume_info(elapsed, &self.answer_timings())
    }

    /// The command at `elapsed`, for a repetition that opens its block
    /// (`fade_in_root`) and/or closes it (`fade_out_root`).
    pub fn generate_command(&self, elapsed: u64, fade_in_root: bool, fade_out_root: bool) -> (r:
        ExerciseCommand)
        requires
            self.wf(),
        ensures
            r == command_of(*self, elapsed as int, fade_in_root, fade_out_root),
    {
        let mut play_root = self.root_volume_info(elapsed);
        if play_root == VolumeInfo::FadeIn && !fade_in_root {
            play_root = VolumeInfo::FullVolume;
        }
        if (play_root == VolumeInfo::FadeOut || play_root == VolumeInfo::Silent) && !fade_out_root {
            play_root = VolumeInfo::FullVolume;
        }
        let play_challenge = self.relative_challenge_volume_info(elapsed);
        let play_answer = self.relative_answer_volume_info(elapsed);
        let play_voice_answer = elapsed >= self.play_voice_answer_start;
        ExerciseCommand { play_root, play_challenge, play_answer, play_voice_answer }
    }
}

/// The root fades only where its block begins and ends: in a block of one
/// repetition it fades in and out; a repetition that does not open its block
/// never fades in, and one that does not close it never fades out nor falls
/// silent, so inside a block the root holds full volume throughout.
pub proof fn lemma_root_override(t: Tuning, repetitions: u8, current_repetition: u8, elapsed: int)
    requires
        t.wf(),
        1 <= current_repetition <= repetitions,
    ensures
        repetitions == 1 && t.fade_in_duration > 0 ==> command_of(
            t,
            t.root_fade_in_start as int,
            current_repetition == 1,
            current_repetition == repetitions,
        ).play_root == VolumeInfo::FadeIn,
        repetitions == 1 && t.fade_out_duration > 0 ==> command_of(
            t,
            t.spec_root_timings().fade_out_start as int,
            current_repetition == 1,
            current_repetition == repetitions,
        ).play_root == VolumeInfo::FadeOut,
        current_repetition != 1 ==> command_of(
            t,
            elapsed,
            false,
            current_repetition == repetitions,
        ).play_root != VolumeInfo::FadeIn,
        current_repetition != repetitions ==> command_of(
            t,
            elapsed,
            current_repetition == 1,
            false,
        ).play_root != VolumeInfo::FadeOut && command_of(
            t,
            elapsed,
            current_repetition == 1,
            false,
        ).play_root != VolumeInfo::Silent,
        1 < current_repetition < repetitions ==> command_of(t, elapsed, false, false).play_root
            == VolumeInfo::FullVolume,
{
}

} // verus!
