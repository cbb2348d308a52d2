use crate::envelope::{gain_for, gain_of, Gain, VolumeInfo};
use crate::notes::{
    absolute_of, all_notes, get_all_notes, index_of, lemma_all_notes_distinct, lemma_index_bounds,
    relative_note_to_absolute, Note,
};
use crate::tuning::{command_of, ExerciseCommand, Tuning};
use crate::voice::{read_next, VoiceStore};
use vstd::prelude::*;

verus! {

/// One exercise: a root tone and the note whose interval from it is asked.
#[derive(Debug, Copy, Clone, PartialEq, Eq, Structural)]
pub struct Exercise {
    pub root: Note,
    pub relative: Note,
}

impl Exercise {
    pub fn new(root: Note, relative: Note) -> (r: Exercise)
        ensures
            r.root == root,
            r.relative == relative,
    {
        Exercise { root, relative }
    }

    /// The interval that is sounded and announced, as a note above `One`.
    pub fn absolute(&self) -> (r: Note)
        ensures
            r == absolute_of(self.root, self.relative),
    {
        relative_note_to_absolute(self.root, self.relative)
    }

    /// Key of the voice recording that names the interval.
    pub fn voice_key(&self) -> (r: i32)
        ensures
            r == index_of(absolute_of(self.root, self.relative)) + 1,
    {
        self.absolute().to_keyboard_note()
    }
}

/// Why a session could not be set up.
#[derive(Debug, Copy, Clone, PartialEq, Eq, Structural)]
pub enum ConfigError {
    /// No allowed note, no repetition, or a timing whose windows overflow.
    InvalidConfiguration,
}

/// `s` with every occurrence of `avoid` left out, order kept.
pub open spec fn without(s: Seq<Note>, avoid: Option<Note>) -> Seq<Note>
    decreases s.len(),
{
    if s.len() == 0 {
        s
    } else {
        let rest = without(s.drop_last(), avoid);
        if avoid == Some(s.last()) {
            rest
        } else {
            rest.push(s.last())
        }
    }
}

/// `s` with later repeats of a note left out, order of first occurrence kept.
pub open spec fn dedup(s: Seq<Note>) -> Seq<Note>
    decreases s.len(),
{
    if s.len() == 0 {
        s
    } else {
        let rest = dedup(s.drop_last());
        if rest.contains(s.last()) {
            rest
        } else {
            rest.push(s.last())
        }
    }
}

proof fn lemma_drop_last_contains(s: Seq<Note>, x: Note)
    requires
        s.len() > 0,
    ensures
        s.contains(x) <==> (s.drop_last().contains(x) || s.last() == x),
{
    if s.contains(x) {
        let i = choose|i: int| 0 <= i < s.len() && s[i] == x;
        if i < s.len() - 1 {
            assert(s.drop_last()[i] == x);
        }
    }
    if s.drop_last().contains(x) {
        let i = choose|i: int| 0 <= i < s.len() - 1 && s.drop_last()[i] == x;
        assert(s[i] == x);
    }
    if s.last() == x {
        assert(s[s.len() - 1] == x);
    }
}

proof fn lemma_without_members(s: Seq<Note>, avoid: Option<Note>)
    ensures
        forall|i: int|
            0 <= i < without(s, avoid).len() ==> s.contains(#[trigger] without(s, avoid)[i])
                && avoid != Some(without(s, avoid)[i]),
    decreases s.len(),
{
    if s.len() > 0 {
        lemma_without_members(s.drop_last(), avoid);
        let rest = without(s.drop_last(), avoid);
        assert forall|i: int| 0 <= i < without(s, avoid).len() implies s.contains(
            #[trigger] without(s, avoid)[i],
        ) && avoid != Some(without(s, avoid)[i]) by {
            let x = without(s, avoid)[i];
            lemma_drop_last_contains(s, x);
            if i < rest.len() {
                assert(x == rest[i]);
            }
        }
    }
}

proof fn lemma_without_none(s: Seq<Note>)
    ensures
        without(s, None) == s,
    decreases s.len(),
{
    if s.len() > 0 {
        lemma_without_none(s.drop_last());
        assert(s.drop_last().push(s.last()) =~= s);
    }
}

proof fn lemma_without_len(s: Seq<Note>, x: Note)
    requires
        s.no_duplicates(),
    ensures
        without(s, Some(x)).len() == if s.contains(x) {
            s.len() - 1
        } else {
            s.len() as int
        },
    decreases s.len(),
{
    if s.len() > 0 {
        let d = s.drop_last();
        assert forall|i: int, j: int| 0 <= i < d.len() && 0 <= j < d.len() && i != j implies d[i]
            != d[j] by {
            assert(d[i] == s[i] && d[j] == s[j]);
        }
        lemma_without_len(d, x);
        lemma_drop_last_contains(s, x);
        if s.last() == x && d.contains(x) {
            let i = choose|i: int| 0 <= i < d.len() && d[i] == x;
            assert(s[i] == s[s.len() - 1]);
        }
    }
}

proof fn lemma_dedup(s: Seq<Note>)
    ensures
        dedup(s).no_duplicates(),
        forall|x: Note| dedup(s).contains(x) <==> s.contains(x),
    decreases s.len(),
{
    if s.len() > 0 {
        let rest = dedup(s.drop_last());
        lemma_dedup(s.drop_last());
        assert forall|x: Note| dedup(s).contains(x) <==> s.contains(x) by {
            lemma_drop_last_contains(s, x);
            if !rest.contains(s.last()) {
                lemma_drop_last_contains(rest.push(s.last()), x);
                assert(rest.push(s.last()).drop_last() =~= rest);
            }
        }
        if !rest.contains(s.last()) {
            let p = rest.push(s.last());
            assert forall|i: int, j: int| 0 <= i < p.len() && 0 <= j < p.len() && i != j implies p[i]
                != p[j] by {
                if i < rest.len() && j < rest.len() {
                    assert(p[i] == rest[i] && p[j] == rest[j]);
                } else if i < rest.len() {
                    assert(p[i] == rest[i]);
                } else if j < rest.len() {
                    assert(p[j] == rest[j]);
                }
            }
        }
    }
}

/// The notes of `notes` other than `avoid`, in order.
fn choices(notes: &Vec<Note>, avoid: Option<Note>) -> (r: Vec<Note>)
    ensures
        r@ == without(notes@, avoid),
{
    let mut r: Vec<Note> = Vec::new();
    let mut i: usize = 0;
    while i < notes.len()
        invariant
            0 <= i <= notes@.len(),
            r@ == without(notes@.take(i as int), avoid),
        decreases notes@.len() - i,
    {
        assert(notes@.take(i as int + 1).drop_last() =~= notes@.take(i as int));
        let n = notes[i];
        let keep = match avoid {
            Some(a) => a != n,
            None => true,
        };
        if keep {
            r.push(n);
        }
        i = i + 1;
    }
    assert(notes@.take(i as int) =~= notes@);
    r
}

/// Whether `x` occurs in `notes`.
fn contains_note(notes: &Vec<Note>, x: Note) -> (r: bool)
    ensures
        r == notes@.contains(x),
{
    let mut i: usize = 0;
    while i < notes.len()
        invariant
            0 <= i <= notes@.len(),
            forall|j: int| 0 <= j < i ==> notes@[j] != x,
        decreases notes@.len() - i,
    {
        if notes[i] == x {
            assert(notes@[i as int] == x);
            return true;
        }
        i = i + 1;
    }
    false
}

/// `notes` with repeats left out.
fn dedup_notes(notes: &Vec<Note>) -> (r: Vec<Note>)
    ensures
        r@ == dedup(notes@),
{
    let mut r: Vec<Note> = Vec::new();
    let mut i: usize = 0;
    while i < notes.len()
        invariant
            0 <= i <= notes@.len(),
            r@ == dedup(notes@.take(i as int)),
        decreases notes@.len() - i,
    {
        assert(notes@.take(i as int + 1).drop_last() =~= notes@.take(i as int));
        let n = notes[i];
        if !contains_note(&r, n) {
            r.push(n);
        }
        i = i + 1;
    }
    assert(notes@.take(i as int) =~= notes@);
    r
}

/// Relies on rand's `thread_rng` and `Rng::gen_range`: a number drawn below
/// `n`, which must be positive.
#[verifier::external_body]
fn random_below(n: usize) -> (r: usize)
    requires
        n > 0,
    ensures
        r < n,
{
    rand::Rng::gen_range(&mut rand::thread_rng(), 0..n)
}

/// The note at a random position of `notes` other than `avoid`.
fn random_note(notes: &Vec<Note>, avoid: Option<Note>) -> (r: Note)
    requires
        without(notes@, avoid).len() > 0,
    ensures
        exists|i: int| 0 <= i < without(notes@, avoid).len() && r == without(notes@, avoid)[i],
{
    let c = choices(notes, avoid);
    let i = random_below(c.len());
    c[i]
}

/// The state of an exercise session: the allowed notes, how many times a
/// root is repeated, the current exercise and repetition, and the timing.
pub struct ExerciseGenerator {
    notes: Vec<Note>,
    repetitions: u8,
    current_repetition: u8,
    exercise: Exercise,
    tuning: Tuning,
}

impl ExerciseGenerator {
    #[verifier::type_invariant]
    spec fn inv(&self) -> bool {
        self.valid()
    }

    /// The allowed notes, each once.
    pub closed spec fn spec_notes(&self) -> Seq<Note> {
        self.notes@
    }

    pub closed spec fn spec_repetitions(&self) -> u8 {
        self.repetitions
    }

    /// Position of the current exercise in its block, from 1.
    pub closed spec fn spec_current_repetition(&self) -> u8 {
        self.current_repetition
    }

    pub closed spec fn spec_exercise(&self) -> Exercise {
        self.exercise
    }

    pub closed spec fn spec_tuning(&self) -> Tuning {
        self.tuning
    }

    /// The current exercise is the last of its block, so the next one
    /// brings a new root.
    pub open spec fn block_ends(&self) -> bool {
        self.spec_current_repetition() == self.spec_repetitions()
    }

    /// The relative note the next exercise must differ from, if any: none
    /// when only one note is allowed.
    pub open spec fn avoided_relative(&self) -> Option<Note> {
        if self.spec_notes().len() > 1 {
            Some(self.spec_exercise().relative)
        } else {
            None
        }
    }

    /// How many relative notes the next exercise can pick from.
    pub open spec fn relative_choice_count(&self) -> int {
        if self.spec_notes().len() > 1 {
            self.spec_notes().len() - 1
        } else {
            1
        }
    }

    /// The command at `elapsed` milliseconds into the current exercise.
    pub open spec fn spec_command(&self, elapsed: int) -> ExerciseCommand {
        command_of(
            self.spec_tuning(),
            elapsed,
            self.spec_current_repetition() == 1,
            self.spec_current_repetition() == self.spec_repetitions(),
        )
    }

    /// `n` may be the relative note of the next exercise: it is an allowed
    /// note, and differs from the current one whenever two or more are allowed.
    pub open spec fn relative_may_follow(&self, n: Note) -> bool {
        &&& self.spec_notes().contains(n)
        &&& self.spec_notes().len() > 1 ==> n != self.spec_exercise().relative
    }

    /// `e` may follow the current exercise: at the end of a block it has a
    /// new root, otherwise the same one, and its relative note may follow.
    pub open spec fn may_follow(&self, e: Exercise) -> bool {
        &&& if self.block_ends() {
            e.root != self.spec_exercise().root
        } else {
            e.root == self.spec_exercise().root
        }
        &&& self.relative_may_follow(e.relative)
    }

    /// The exercise that follows the current one for the given draws: the
    /// `root_draw`-th of the other roots at the end of a block, and the
    /// `relative_draw`-th of the allowed notes, the current one left out when
    /// two or more are allowed.
    pub open spec fn following_exercise_of(&self, root_draw: int, relative_draw: int) -> Exercise {
        Exercise {
            root: if self.block_ends() {
                without(all_notes(), Some(self.spec_exercise().root))[root_draw]
            } else {
                self.spec_exercise().root
            },
            relative: without(self.spec_notes(), self.avoided_relative())[relative_draw],
        }
    }

    /// What holds of every session: at least one allowed note, each once;
    /// the current relative note is one of them; the current repetition lies
    /// between 1 and the number of repetitions; the timing fits.
    pub open spec fn valid(&self) -> bool {
        &&& self.spec_notes().len() > 0
        &&& self.spec_notes().no_duplicates()
        &&& self.spec_notes().contains(self.spec_exercise().relative)
        &&& 1 <= self.spec_current_repetition() <= self.spec_repetitions()
        &&& self.spec_tuning().wf()
    }

    /// `new` follows `old` by one advance: the configuration is kept, the
    /// exercise may follow the old one, and the repetition count goes up or,
    /// at the end of a block, starts over.
    pub open spec fn advanced(old: Self, new: Self) -> bool {
        &&& new.spec_notes() == old.spec_notes()
        &&& new.spec_repetitions() == old.spec_repetitions()
        &&& new.spec_tuning() == old.spec_tuning()
        &&& new.valid()
        &&& old.may_follow(new.spec_exercise())
        &&& new.spec_current_repetition() == if old.block_ends() {
            1
        } else {
            old.spec_current_repetition() + 1
        }
    }

    /// A session on the allowed `notes` (repeats ignored) that keeps each
    /// root for `repetitions` exercises, with the reference timing; the
    /// first exercise is drawn at random.
    pub fn new(notes: Vec<Note>, repetitions: u8) -> (r: Result<ExerciseGenerator, ConfigError>)
        ensures
            r is Err <==> notes@.len() == 0 || repetitions == 0,
            r is Err ==> r == Err::<ExerciseGenerator, ConfigError>(
                ConfigError::InvalidConfiguration,
            ),
            r is Ok ==> Self::started(r->Ok_0, notes@, repetitions, Tuning::spec_reference()),
    {
        Self::with_tuning(notes, repetitions, Tuning::reference())
    }

    /// A freshly started session on `notes` with the given configuration.
    pub open spec fn started(g: Self, notes: Seq<Note>, repetitions: u8, tuning: Tuning) -> bool {
        &&& g.spec_notes() == dedup(notes)
        &&& g.spec_repetitions() == repetitions
        &&& g.spec_current_repetition() == 1
        &&& g.spec_tuning() == tuning
        &&& notes.contains(g.spec_exercise().relative)
        &&& g.valid()
    }

    /// As `new`, with the timing `tuning`.
    pub fn with_tuning(notes: Vec<Note>, repetitions: u8, tuning: Tuning) -> (r: Result<
        ExerciseGenerator,
        ConfigError,
    >)
        ensures
            r is Err <==> notes@.len() == 0 || repetitions == 0 || !tuning.wf(),
            r is Err ==> r == Err::<ExerciseGenerator, ConfigError>(
                ConfigError::InvalidConfiguration,
            ),
            r is Ok ==> Self::started(r->Ok_0, notes@, repetitions, tuning),
    {
        if notes.len() == 0 || repetitions == 0 || !tuning.fits() {
            return Err(ConfigError::InvalidConfiguration);
        }
        let ghost input = notes@;
        let notes = dedup_notes(&notes);
        proof {
            lemma_dedup(input);
            lemma_without_none(notes@);
            lemma_all_notes_distinct();
            lemma_without_none(all_notes());
        }
        let all = get_all_notes();
        let root = random_note(&all, None);
        let relative = random_note(&notes, None);
        proof {
            lemma_without_members(notes@, None);
        }
        let g = ExerciseGenerator {
            notes,
            repetitions,
            current_repetition: 1,
            exercise: Exercise { root, relative },
            tuning,
        };
        proof {
            use_type_invariant(&g);
        }
        Ok(g)
    }
    /// The `draw`-th allowed note, the current one left out when two or more
    /// are allowed.
    fn relative_with(&self, draw: usize) -> (r: Note)
        requires
            draw < self.relative_choice_count(),
        ensures
            r == without(self.spec_notes(), self.avoided_relative())[draw as int],
            self.relative_may_follow(r),
    {
        proof {
            use_type_invariant(self);
        }
        let avoid = if self.notes.len() > 1 {
            Some(self.exercise.relative)
        } else {
            None
        };
        let relatives = choices(&self.notes, avoid);
        proof {
            if self.notes@.len() > 1 {
                lemma_without_len(self.notes@, self.exercise.relative);
            } else {
                lemma_without_none(self.notes@);
            }
            lemma_without_members(self.notes@, avoid);
        }
        relatives[draw]
    }

    /// The `draw`-th of the eleven notes other than the current root.
    fn other_root_with(&self, draw: usize) -> (r: Note)
        requires
            draw < 11,
        ensures
            r == without(all_notes(), Some(self.spec_exercise().root))[draw as int],
            r != self.spec_exercise().root,
    {
        let all = get_all_notes();
        proof {
            let x = self.exercise.root;
            lemma_all_notes_distinct();
            lemma_index_bounds(x);
            assert(all_notes()[index_of(x)] == x);
            lemma_without_len(all_notes(), x);
            lemma_without_members(all_notes(), Some(x));
        }
        let roots = choices(&all, Some(self.exercise.root));
        roots[draw]
    }

    /// The exercise that follows the current one for the given draws.
    pub fn following_exercise_with(&self, root_draw: usize, relative_draw: usize) -> (r: Exercise)
        requires
            self.block_ends() ==> root_draw < 11,
            relative_draw < self.relative_choice_count(),
        ensures
            r == self.following_exercise_of(root_draw as int, relative_draw as int),
            self.may_follow(r),
    {
        let relative = self.relative_with(relative_draw);
        let root = if self.current_repetition == self.repetitions {
            self.other_root_with(root_draw)
        } else {
            self.exercise.root
        };
        Exercise { root, relative }
    }

    /// A random draw for the relative note of the next exercise.
    fn random_relative_draw(&self) -> (r: usize)
        ensures
            r < self.relative_choice_count(),
    {
        let count = if self.notes.len() > 1 {
            self.notes.len() - 1
        } else {
            1
        };
        random_below(count)
    }

    /// An exercise on a new root drawn at random, whose relative note is
    /// drawn at random among those that may follow.
    pub fn next_exercise(&self) -> (r: Exercise)
        ensures
            r.root != self.spec_exercise().root,
            self.relative_may_follow(r.relative),
    {
        let root = self.other_root_with(random_below(11));
        let relative = self.relative_with(self.random_relative_draw());
        Exercise { root, relative }
    }

    /// An exercise on the current root, whose relative note is drawn at
    /// random among those that may follow.
    pub fn next_exercise_keeping_root(&self) -> (r: Exercise)
        ensures
            r.root == self.spec_exercise().root,
            self.relative_may_follow(r.relative),
    {
        let relative = self.relative_with(self.random_relative_draw());
        Exercise { root: self.exercise.root, relative }
    }

    /// Moves on to `next`, counting the repetition.
    fn start_next(&mut self, next: Exercise)
        requires
            old(self).may_follow(next),
        ensures
            Self::advanced(*old(self), *final(self)),
            final(self).spec_exercise() == next,
    {
        proof {
            use_type_invariant(&*self);
        }
        let repetition = if self.current_repetition == self.repetitions {
            1
        } else {
            self.current_repetition + 1
        };
        self.exercise = next;
        self.current_repetition = repetition;
        proof {
            use_type_invariant(&*self);
        }
    }

    /// Moves on to the exercise that follows for the given draws.
    pub fn advance_with(&mut self, root_draw: usize, relative_draw: usize)
        requires
            old(self).block_ends() ==> root_draw < 11,
            relative_draw < old(self).relative_choice_count(),
        ensures
            Self::advanced(*old(self), *final(self)),
            final(self).spec_exercise() == old(self).following_exercise_of(
                root_draw as int,
                relative_draw as int,
            ),
    {
        let next = self.following_exercise_with(root_draw, relative_draw);
        self.start_next(next);
    }

    /// Moves on to an exercise drawn at random among those that may follow.
    pub fn advance(&mut self)
        ensures
            Self::advanced(*old(self), *final(self)),
    {
        proof {
            use_type_invariant(&*self);
        }
        let next = if self.current_repetition == self.repetitions {
            self.next_exercise()
        } else {
            self.next_exercise_keeping_root()
        };
        self.start_next(next);
    }

    /// Advances once the root window of the current exercise is over at
    /// `elapsed` milliseconds; returns whether it did, in which case the
    /// caller restarts the exercise clock.
    pub fn generate(&mut self, elapsed: u64) -> (reset: bool)
        ensures
            reset == (elapsed >= old(self).spec_tuning().spec_root_timings().end_time),
            reset ==> Self::advanced(*old(self), *final(self)),
            !reset ==> *final(self) == *old(self),
            final(self).valid(),
    {
        proof {
            use_type_invariant(&*self);
        }
        let end = self.tuning.root_timings().end_time;
        if elapsed >= end {
            self.advance();
            true
        } else {
            false
        }
    }
    /// The command at `elapsed` milliseconds into the current exercise.
    pub fn generate_command(&self, elapsed: u64) -> (r: ExerciseCommand)
        ensures
            r == self.spec_command(elapsed as int),
    {
        proof {
            use_type_invariant(self);
        }
        self.tuning.generate_command(
            elapsed,
            self.current_repetition == 1,
            self.current_repetition == self.repetitions,
        )
    }

    /// Gain of the root tone at `elapsed`.
    pub fn root_gain(&self, elapsed: u64) -> (r: Gain)
        ensures
            (r.num as int, r.den as int) == gain_of(
                self.spec_command(elapsed as int).play_root,
                elapsed as int,
                self.spec_tuning().spec_root_timings(),
            ),
            r.num <= r.den,
            0 < r.den,
    {
        proof {
            use_type_invariant(self);
        }
        let command = self.generate_command(elapsed);
        gain_for(command.play_root, elapsed, &self.tuning.root_timings())
    }

    /// Gain of the interval tone at `elapsed`: that of the challenge window
    /// while it sounds, else that of the answer window.
    pub fn relative_gain(&self, elapsed: u64) -> (r: Gain)
        ensures
            (r.num as int, r.den as int) == if self.spec_command(elapsed as int).play_challenge
                != VolumeInfo::Silent {
                gain_of(
                    self.spec_command(elapsed as int).play_challenge,
                    elapsed as int,
                    self.spec_tuning().spec_challenge_timings(),
                )
            } else {
                gain_of(
                    self.spec_command(elapsed as int).play_answer,
                    elapsed as int,
                    self.spec_tuning().spec_answer_timings(),
                )
            },
            r.num <= r.den,
            0 < r.den,
    {
        proof {
            use_type_invariant(self);
        }
        let command = self.generate_command(elapsed);
        if command.play_challenge != VolumeInfo::Silent {
            gain_for(command.play_challenge, elapsed, &self.tuning.challenge_timings())
        } else {
            gain_for(command.play_answer, elapsed, &self.tuning.answer_timings())
        }
    }

    /// The next sample of the voice recording that names the current
    /// interval, read from `voices`.
    pub fn get_next_voice_sample(&self, voices: &mut VoiceStore) -> (r: Option<i16>)
        ensures
            (r, final(voices)@) == read_next(
                old(voices)@,
                (index_of(absolute_of(self.spec_exercise().root, self.spec_exercise().relative))
                    + 1) as i32,
            ),
    {
        voices.next_sample(self.exercise.voice_key())
    }

    /// Piano key of the root tone, in the low register.
    pub fn root_keyboard_note(&self) -> (r: i32)
        ensures
            r == index_of(self.spec_exercise().root) + 16,
    {
        self.exercise.root.to_keyboard_c1_note()
    }

    /// Piano key of the interval tone: the interval from the root, in the
    /// high register.
    pub fn relative_keyboard_note(&self) -> (r: i32)
        ensures
            r == index_of(absolute_of(self.spec_exercise().root, self.spec_exercise().relative))
                + 40,
    {
        self.exercise.absolute().to_keyboard_c5_note()
    }

    pub fn exercise(&self) -> (r: Exercise)
        ensures
            r == self.spec_exercise(),
    {
        self.exercise
    }

    pub fn current_repetition(&self) -> (r: u8)
        ensures
            r == self.spec_current_repetition(),
    {
        self.current_repetition
    }

    pub fn repetitions(&self) -> (r: u8)
        ensures
            r == self.spec_repetitions(),
    {
        self.repetitions
    }

    pub fn tuning(&self) -> (r: Tuning)
        ensures
            r == self.spec_tuning(),
    {
        self.tuning
    }
}

} // verus!
