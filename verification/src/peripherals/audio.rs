use crate::app::Sound;
use vstd::prelude::*;

verus! {

/// Number of steps in one pass through the pattern of `sound`.
pub open spec fn period(sound: Sound) -> nat {
    match sound {
        Sound::Connected => 4,
        Sound::Disconnected => 4,
        Sound::UnlockSuccess => 10,
        Sound::UnlockFail => 8,
        Sound::Alarm => 2,
    }
}

/// Pitch, in hertz, of the step at `offset` within the pattern of `sound`.
pub open spec fn frequency(sound: Sound, offset: int) -> int {
    match sound {
        Sound::Connected => 1500 - 200 * offset,
        Sound::Disconnected => 800 + 200 * offset,
        Sound::UnlockSuccess => 1010 - 100 * offset,
        Sound::UnlockFail => if offset % 2 == 0 { 880 } else { 1046 },
        Sound::Alarm => if offset % 2 == 0 { 3040 } else { 3340 },
    }
}

/// Length, in ticks, of the step at `offset` within the pattern of `sound`.
pub open spec fn duration(sound: Sound, offset: int) -> int {
    match sound {
        Sound::Connected => 5,
        Sound::Disconnected => 5,
        Sound::UnlockSuccess => 3,
        Sound::UnlockFail => if offset % 4 == 0 {
            10
        } else if offset % 4 == 1 {
            5
        } else if offset % 4 == 2 {
            10
        } else {
            15
        },
        Sound::Alarm => 10,
    }
}

/// A sound is over at `step` when its pattern has been played through and
/// is about to start again, unless it repeats. The alarm is never over.
pub open spec fn is_over(sound: Sound, step: nat, repeat: bool) -> bool {
    sound != Sound::Alarm && !repeat && step != 0 && step % period(sound) == 0
}

/// The tone `(frequency, duration)` that `sound` gives at `step`, or `None`
/// once the sound is over.
pub open spec fn tone_at(sound: Sound, step: nat, repeat: bool) -> Option<(u16, u16)> {
    if is_over(sound, step, repeat) {
        None
    } else {
        let offset = (step % period(sound)) as int;
        Some((frequency(sound, offset) as u16, duration(sound, offset) as u16))
    }
}

/// Abstract state of a tone sequencer: which sound it plays, how many tones
/// it has given so far and whether the pattern starts over at its end.
pub struct ToneSequencerState {
    pub sound: Sound,
    pub step_index: nat,
    pub repeat: bool,
}

impl ToneSequencerState {
    /// The tone that the next request yields.
    pub open spec fn tone(self) -> Option<(u16, u16)> {
        tone_at(self.sound, self.step_index, self.repeat)
    }

    /// The state after one request: one step further if a tone was given,
    /// unchanged once the sound is over.
    pub open spec fn advance(self) -> Self {
        if self.tone() is Some {
            ToneSequencerState { step_index: self.step_index + 1, ..self }
        } else {
            self
        }
    }

    /// The state after `n` requests.
    pub open spec fn after(self, n: nat) -> Self
        decreases n,
    {
        if n == 0 {
            self
        } else {
            self.after((n - 1) as nat).advance()
        }
    }
}

/// Image of a step index in `0..=period`: zero stands for step zero alone,
/// every later step for its residue, with `period` in place of zero.
spec fn folded(sound: Sound, step: nat) -> nat {
    if step <= period(sound) {
        step
    } else {
        ((step - 1) % (period(sound) as int) + 1) as nat
    }
}

/// Generates the tones of one sound, one per request.
#[derive(Clone, Copy)]
pub struct SoundGenerator {
    sound: Sound,
    pos: usize,
    repeat: bool,
    step: Ghost<nat>,
}

impl View for SoundGenerator {
    type V = ToneSequencerState;

    closed spec fn view(&self) -> ToneSequencerState {
        ToneSequencerState { sound: self.sound, step_index: self.step@, repeat: self.repeat }
    }
}

impl SoundGenerator {
    #[verifier::type_invariant]
    spec fn well_formed(self) -> bool {
        self.pos == folded(self.sound, self.step@)
    }

    /// A generator at the start of `sound`.
    pub fn new(sound: Sound, repeat: bool) -> (generator: Self)
        ensures
            generator@ == (ToneSequencerState { sound, step_index: 0, repeat }),
    {
        Self { sound, pos: 0, repeat, step: Ghost(0) }
    }

    /// Gives the next tone as `(frequency, duration)` and moves one step on,
    /// or gives `None` and stays where it is once the sound is over.
    pub fn next(&mut self) -> (tone: Option<(u16, u16)>)
        ensures
            tone == old(self)@.tone(),
            final(self)@ == old(self)@.advance(),
    {
        proof {
            use_type_invariant(&*self);
        }
        let length: usize = match self.sound {
            Sound::Connected => 4,
            Sound::Disconnected => 4,
            Sound::UnlockSuccess => 10,
            Sound::UnlockFail => 8,
            Sound::Alarm => 2,
        };
        let offset: usize = self.pos % length;
        let result: (u16, u16) = match self.sound {
            Sound::Connected => {
                if self.pos != 0 && offset == 0 && !self.repeat {
                    return None;
                }
                ((1500 - (offset * 200)) as u16, 5)
            },
            Sound::Disconnected => {
                if self.pos != 0 && offset == 0 && !self.repeat {
                    return None;
                }
                ((800 + (offset * 200)) as u16, 5)
            },
            Sound::UnlockSuccess => {
                if self.pos != 0 && offset == 0 && !self.repeat {
                    return None;
                }
                ((1010 - (offset * 100)) as u16, 3)
            },
            Sound::UnlockFail => {
                let offset_2: usize = self.pos % 2;
                let offset_4: usize = self.pos % 4;
                if self.pos != 0 && offset == 0 && !self.repeat {
                    return None;
                }
                let freq: u16 = if offset_2 == 0 { 880 } else { 1046 };
                let duration: u16 = if offset_4 == 0 {
                    10
                } else if offset_4 == 1 {
                    5
                } else if offset_4 == 2 {
                    10
                } else {
                    15
                };
                (freq, duration)
            },
            Sound::Alarm => {
                ((3040 + (offset * 300)) as u16, 10)
            },
        };
        let pos: usize = if self.pos == length { 1 } else { self.pos + 1 };
        *self = Self {
            sound: self.sound,
            pos,
            repeat: self.repeat,
            step: Ghost((self.step@ + 1) as nat),
        };
        Some(result)
    }
}

/// After `n` requests a fresh sequencer stands at step `n`, except that one
/// for a sound that ends stops at the end of its pattern.
proof fn lemma_step_after(sound: Sound, repeat: bool, n: nat)
    ensures
        ({
            let start = ToneSequencerState { sound, step_index: 0, repeat };
            let bounded = sound != Sound::Alarm && !repeat;
            start.after(n) == ToneSequencerState {
                sound,
                step_index: if bounded && n > period(sound) { period(sound) } else { n },
                repeat,
            }
        }),
    decreases n,
{
    if n > 0 {
        lemma_step_after(sound, repeat, (n - 1) as nat);
    }
}

/// A sound other than the alarm that does not repeat gives one tone for
/// each step of its pattern and none from then on: request number `n`,
/// counted from zero, is answered with a tone exactly when `n` is less than
/// the period, and that tone is the one of the pattern at `n`.
pub proof fn finite_sound_gives_one_pass(sound: Sound, n: nat)
    requires
        sound != Sound::Alarm,
    ensures
        ({
            let start = ToneSequencerState { sound, step_index: 0, repeat: false };
            &&& start.after(n).tone() is Some <==> n < period(sound)
            &&& n < period(sound) ==> start.after(n).tone() == Some(
                (frequency(sound, n as int) as u16, duration(sound, n as int) as u16),
            )
        }),
{
    lemma_step_after(sound, false, n);
}

/// The alarm gives a tone on every request, however many came before and
/// whether or not it was asked to repeat.
pub proof fn alarm_never_ends(repeat: bool, n: nat)
    ensures
        (ToneSequencerState { sound: Sound::Alarm, step_index: 0, repeat }).after(n).tone() is Some,
{
    lemma_step_after(Sound::Alarm, repeat, n);
}

/// A sound that repeats gives a tone on every request, however many came
/// before: the tone of its pattern at the request's number modulo the
/// period.
pub proof fn repeating_sound_never_ends(sound: Sound, n: nat)
    ensures
        ({
            let start = ToneSequencerState { sound, step_index: 0, repeat: true };
            let offset = (n % period(sound)) as int;
            start.after(n).tone() == Some(
                (frequency(sound, offset) as u16, duration(sound, offset) as u16),
            )
        }),
{
    lemma_step_after(sound, true, n);
}

/// Every tone has a frequency between 110 and 3340 hertz and lasts between
/// 3 and 15 ticks, so both fit the 16 bits they are handed out in.
pub proof fn tones_are_in_range(sound: Sound, step: nat, repeat: bool)
    ensures
        ({
            let offset = (step % period(sound)) as int;
            &&& 0 <= offset < period(sound)
            &&& 110 <= frequency(sound, offset) <= 3340
            &&& 3 <= duration(sound, offset) <= 15
            &&& tone_at(sound, step, repeat) matches Some((tune, length)) ==> tune == frequency(
                sound,
                offset,
            ) && length == duration(sound, offset)
        }),
{
}

/// What the caller of [`Audio::tick`] has to do with the output.
#[derive(Debug, PartialEq, Eq)]
pub enum TickAction<C> {
    /// Leave the output as it is.
    Hold,
    /// Program the output for this frequency, in hertz.
    SetFrequency(u16),
    /// The sound is over: silence the output and run the completion, if any.
    Finished(Option<C>),
}

/// Abstract state of the audio engine.
pub enum AudioView<C> {
    /// Nothing is playing.
    Idle,
    /// A sound is playing. `elapsed` counts the ticks spent on the current
    /// tone, which lasts `duration` ticks; `completion` is handed out when
    /// the sound is over.
    Playing { sequencer: ToneSequencerState, elapsed: nat, duration: nat, completion: Option<C> },
}

impl<C> AudioView<C> {
    /// The state right after a sound was started: before its first tone.
    pub open spec fn started(sound: Sound, repeat: bool, completion: Option<C>) -> Self {
        AudioView::Playing {
            sequencer: ToneSequencerState { sound, step_index: 0, repeat },
            elapsed: 0,
            duration: 0,
            completion,
        }
    }

    /// One tick: the state after it and what it asks of the output.
    ///
    /// When the current tone has lasted its time the next one is fetched;
    /// if there is one the output gets its frequency, if there is none the
    /// engine goes idle and gives the completion away. Otherwise the tick
    /// is counted and the output stays as it is.
    pub open spec fn tick(self) -> (Self, TickAction<C>) {
        match self {
            AudioView::Idle => (AudioView::Idle, TickAction::Hold),
            AudioView::Playing { sequencer, elapsed, duration, completion } => {
                if elapsed == duration {
                    match sequencer.tone() {
                        Some((tune, length)) => (
                            AudioView::Playing {
                                sequencer: sequencer.advance(),
                                elapsed: 1,
                                duration: length as nat,
                                completion,
                            },
                            TickAction::SetFrequency(tune),
                        ),
                        None => (AudioView::Idle, TickAction::Finished(completion)),
                    }
                } else {
                    (
                        AudioView::Playing { sequencer, elapsed: elapsed + 1, duration, completion },
                        TickAction::Hold,
                    )
                }
            },
        }
    }

    /// The state after `n` ticks.
    pub open spec fn after_ticks(self, n: nat) -> Self
        decreases n,
    {
        if n == 0 {
            self
        } else {
            self.after_ticks((n - 1) as nat).tick().0
        }
    }

    /// What the tick that follows `n` earlier ticks asks of the output.
    pub open spec fn action_after(self, n: nat) -> TickAction<C> {
        self.after_ticks(n).tick().1
    }
}

/// Playback state of the audio engine: the sound in progress, the ticks
/// counted on its current tone and the completion to hand out at its end.
///
/// The state is meant to be shared between the code that starts sounds and
/// the interrupt of the output timer. Each method is one read-modify-write,
/// to be called with that interrupt masked.
pub struct Audio<C> {
    sound_generator: Option<SoundGenerator>,
    pwm_counter: usize,
    finish_callback: Option<C>,
    current_duration: usize,
}

impl<C> View for Audio<C> {
    type V = AudioView<C>;

    closed spec fn view(&self) -> AudioView<C> {
        match self.sound_generator {
            None => AudioView::Idle,
            Some(generator) => AudioView::Playing {
                sequencer: generator@,
                elapsed: self.pwm_counter as nat,
                duration: self.current_duration as nat,
                completion: self.finish_callback,
            },
        }
    }
}

impl<C> Audio<C> {
    #[verifier::type_invariant]
    spec fn well_formed(self) -> bool {
        match self.sound_generator {
            None => self.pwm_counter == 0 && self.current_duration == 0
                && self.finish_callback is None,
            Some(_) => self.pwm_counter <= self.current_duration,
        }
    }

    /// An idle engine.
    pub fn new() -> (audio: Self)
        ensures
            audio@ == AudioView::<C>::Idle,
    {
        Self { sound_generator: None, pwm_counter: 0, finish_callback: None, current_duration: 0 }
    }

    /// Starts `sound` in place of whatever was playing and returns the
    /// frequency, in hertz, to program at once: that of its first tone.
    ///
    /// The completion of a sound that was still playing is dropped without
    /// being handed out.
    pub fn play_sound(
        &mut self,
        sound: Sound,
        repeat: bool,
        finish_callback: Option<C>,
    ) -> (initial: u16)
        ensures
            final(self)@ == AudioView::started(sound, repeat, finish_callback),
            initial == frequency(sound, 0),
    {
        let generator = SoundGenerator::new(sound, repeat);
        // Every sound has a first tone: asking a copy leaves the generator
        // itself at the start.
        let mut first = generator;
        let initial: u16 = match first.next() {
            Some((tune, _)) => tune,
            None => 0,
        };
        let mut fresh = Self {
            sound_generator: Some(generator),
            pwm_counter: 0,
            finish_callback,
            current_duration: 0,
        };
        core::mem::swap(self, &mut fresh);
        initial
    }

    /// Advances the engine by one period of the output timer and says what
    /// to do with the output.
    pub fn tick(&mut self) -> (action: TickAction<C>)
        ensures
            (final(self)@, action) == old(self)@.tick(),
    {
        proof {
            use_type_invariant(&*self);
        }
        match self.sound_generator {
            None => TickAction::Hold,
            Some(generator) => {
                if self.pwm_counter == self.current_duration {
                    let mut generator = generator;
                    match generator.next() {
                        Some((tune, duration)) => {
                            // The counter is reset first, so that it never
                            // exceeds the duration.
                            self.pwm_counter = 0;
                            self.current_duration = duration as usize;
                            self.sound_generator = Some(generator);
                            self.pwm_counter = 1;
                            TickAction::SetFrequency(tune)
                        },
                        None => TickAction::Finished(self.stop_sound()),
                    }
                } else {
                    self.pwm_counter = self.pwm_counter + 1;
                    TickAction::Hold
                }
            },
        }
    }

    /// Goes idle and hands out the completion that was waiting.
    fn stop_sound(&mut self) -> (completion: Option<C>)
        ensures
            final(self)@ == AudioView::<C>::Idle,
            old(self)@ matches AudioView::Playing { completion: waiting, .. } ==> completion == waiting,
            old(self)@ is Idle ==> completion is None,
    {
        proof {
            use_type_invariant(&*self);
        }
        let mut stopped = Self::new();
        core::mem::swap(self, &mut stopped);
        stopped.finish_callback
    }
}

/// Ticks that the first `steps` tones of `sound` take together.
pub open spec fn ticks_before(sound: Sound, steps: nat) -> nat
    decreases steps,
{
    if steps == 0 {
        0
    } else {
        ticks_before(sound, (steps - 1) as nat) + duration(
            sound,
            ((steps - 1) % (period(sound) as int)) as int,
        ) as nat
    }
}

/// Ticking `a` times and then `b` times is ticking `a + b` times.
proof fn lemma_ticks_add<C>(state: AudioView<C>, a: nat, b: nat)
    ensures
        state.after_ticks(a).after_ticks(b) == state.after_ticks(a + b),
    decreases b,
{
    if b > 0 {
        lemma_ticks_add(state, a, (b - 1) as nat);
    }
}

/// While a tone has time left every tick is only counted: after `n` ticks,
/// `n` no more than the time left, the counter is `n` higher, and each of
/// those ticks left the output alone.
proof fn lemma_tone_holds<C>(state: AudioView<C>, n: nat)
    requires
        state matches AudioView::Playing { elapsed, duration, .. } && elapsed + n <= duration,
    ensures
        state matches AudioView::Playing { sequencer, elapsed, duration, completion }
            && state.after_ticks(n) == (AudioView::Playing {
            sequencer,
            elapsed: elapsed + n,
            duration,
            completion,
        }),
        forall|k: nat| k < n ==> #[trigger] state.action_after(k) == TickAction::<C>::Hold,
    decreases n,
{
    if n > 0 {
        lemma_tone_holds(state, (n - 1) as nat);
    }
}

/// The first tick after a sound was started fetches its first tone: the
/// output gets the frequency of step zero, which then lasts its duration.
pub proof fn first_tick_plays_first_tone<C>(sound: Sound, repeat: bool, completion: Option<C>)
    ensures
        AudioView::started(sound, repeat, completion).tick() == (
            AudioView::Playing {
                sequencer: ToneSequencerState { sound, step_index: 1, repeat },
                elapsed: 1,
                duration: duration(sound, 0) as nat,
                completion,
            },
            TickAction::<C>::SetFrequency(frequency(sound, 0) as u16),
        ),
{
}

/// While a sound plays it keeps the completion it was started with.
proof fn lemma_completion_is_kept<C>(state: AudioView<C>, n: nat)
    requires
        state is Playing,
    ensures
        state.after_ticks(n) matches AudioView::Playing { completion, .. } ==> completion
            == state->completion,
    decreases n,
{
    if n > 0 {
        lemma_completion_is_kept(state, (n - 1) as nat);
    }
}

/// The only completion that a started sound ever hands out is its own.
/// [`Audio::play_sound`] leaves the engine as if the sound had been started
/// from idle, so the completion of a sound that it cut short is never
/// handed out.
pub proof fn only_own_completion_is_handed_out<C>(
    sound: Sound,
    repeat: bool,
    completion: Option<C>,
    n: nat,
)
    ensures
        AudioView::started(sound, repeat, completion).action_after(n) matches TickAction::Finished(
            handed_out,
        ) ==> handed_out == completion,
{
    lemma_completion_is_kept(AudioView::started(sound, repeat, completion), n);
}

/// A tone of `length` ticks keeps the output for exactly that long: the
/// tick that fetches it programs its frequency, the `length - 1` ticks that
/// follow leave the output alone, and the tick after those fetches again,
/// so it either programs the next tone or ends the sound.
pub proof fn tone_lasts_its_duration<C>(state: AudioView<C>, k: nat)
    requires
        state matches AudioView::Playing { sequencer, elapsed, duration, .. } && elapsed == duration
            && sequencer.tone() is Some,
    ensures
        ({
            let sequencer = state->sequencer;
            let (tune, length) = sequencer.tone()->0;
            &&& length >= 3
            &&& state.action_after(0) == TickAction::<C>::SetFrequency(tune)
            &&& 1 <= k < length ==> state.action_after(k) == TickAction::<C>::Hold
            &&& state.after_ticks(length as nat) == (AudioView::Playing {
                sequencer: sequencer.advance(),
                elapsed: length as nat,
                duration: length as nat,
                completion: state->completion,
            })
            &&& state.action_after(length as nat) == match sequencer.advance().tone() {
                Some((next, _)) => TickAction::<C>::SetFrequency(next),
                None => TickAction::<C>::Finished(state->completion),
            }
        }),
{
    let sequencer = state->sequencer;
    let (tune, length) = sequencer.tone()->0;
    tones_are_in_range(sequencer.sound, sequencer.step_index, sequencer.repeat);
    let fetched = state.tick().0;
    assert(state.after_ticks(1) == fetched) by {
        assert(state.after_ticks(0) == state);
    }
    lemma_tone_holds(fetched, (length - 1) as nat);
    lemma_ticks_add(state, 1, (length - 1) as nat);
    if 1 <= k < length {
        lemma_ticks_add(state, 1, (k - 1) as nat);
        assert(fetched.action_after((k - 1) as nat) == TickAction::<C>::Hold);
    }
}

/// The state in which tone number `steps` is about to be fetched: the
/// start for step zero, else the last tick of the tone before.
spec fn about_to_fetch<C>(sound: Sound, repeat: bool, completion: Option<C>, steps: nat) -> AudioView<C> {
    if steps == 0 {
        AudioView::started(sound, repeat, completion)
    } else {
        let length = duration(sound, ((steps - 1) % (period(sound) as int)) as int) as nat;
        AudioView::Playing {
            sequencer: ToneSequencerState { sound, step_index: steps, repeat },
            elapsed: length,
            duration: length,
            completion,
        }
    }
}

/// As long as the sound is not over before step `steps`, the engine is about
/// to fetch that step once the tones before it have had their ticks; until
/// then each tone was programmed on its first tick and nothing was finished.
proof fn lemma_timeline<C>(sound: Sound, repeat: bool, completion: Option<C>, steps: nat)
    requires
        sound == Sound::Alarm || repeat || steps <= period(sound),
    ensures
        ({
            let start = AudioView::started(sound, repeat, completion);
            &&& start.after_ticks(ticks_before(sound, steps)) == about_to_fetch(
                sound,
                repeat,
                completion,
                steps,
            )
            &&& forall|n: nat|
                n < ticks_before(sound, steps) ==> !(#[trigger] start.action_after(n) is Finished)
            &&& forall|j: nat|
                j < steps ==> #[trigger] start.action_after(ticks_before(sound, j))
                    == TickAction::<C>::SetFrequency(
                    frequency(sound, (j % period(sound)) as int) as u16,
                )
        }),
    decreases steps,
{
    let start = AudioView::started(sound, repeat, completion);
    if steps > 0 {
        let before = (steps - 1) as nat;
        lemma_timeline(sound, repeat, completion, before);
        let begin = ticks_before(sound, before);
        let fetching = start.after_ticks(begin);
        let length = duration(sound, (before % period(sound)) as int) as nat;
        tones_are_in_range(sound, before, repeat);
        tone_lasts_its_duration(fetching, 0);
        lemma_ticks_add(start, begin, length);
        assert(start.action_after(begin) == fetching.action_after(0)) by {
            assert(fetching.after_ticks(0) == fetching);
        }
        assert forall|n: nat| n < ticks_before(sound, steps) implies !(#[trigger] start.action_after(
            n,
        ) is Finished) by {
            if n >= begin {
                let into = (n - begin) as nat;
                tone_lasts_its_duration(fetching, into);
                lemma_ticks_add(start, begin, into);
            }
        }
    }
}

/// Tone number `step` of a sound is programmed on the tick that follows the
/// ticks of all the tones before it.
pub proof fn tone_begins_on_schedule<C>(sound: Sound, repeat: bool, completion: Option<C>, step: nat)
    requires
        sound == Sound::Alarm || repeat || step < period(sound),
    ensures
        AudioView::started(sound, repeat, completion).action_after(ticks_before(sound, step))
            == TickAction::<C>::SetFrequency(frequency(sound, (step % period(sound)) as int) as u16),
{
    lemma_timeline(sound, repeat, completion, step + 1);
}

/// An idle engine stays idle.
proof fn lemma_idle_stays<C>(n: nat)
    ensures
        AudioView::<C>::Idle.after_ticks(n) == AudioView::<C>::Idle,
    decreases n,
{
    if n > 0 {
        lemma_idle_stays::<C>((n - 1) as nat);
    }
}

/// A sound other than the alarm that does not repeat hands its completion
/// out exactly once: on the tick that follows the last tick of its last
/// tone. No earlier tick finishes, and from then on the engine is idle and
/// every tick leaves the output alone.
pub proof fn completion_is_handed_out_once<C>(sound: Sound, completion: Option<C>, n: nat)
    requires
        sound != Sound::Alarm,
    ensures
        ({
            let start = AudioView::started(sound, false, completion);
            let end = ticks_before(sound, period(sound));
            &&& n < end ==> !(start.action_after(n) is Finished)
            &&& n == end ==> start.action_after(n) == TickAction::Finished(completion)
            &&& n > end ==> start.after_ticks(n) == AudioView::<C>::Idle && start.action_after(n)
                == TickAction::<C>::Hold
        }),
{
    let start = AudioView::started(sound, false, completion);
    let end = ticks_before(sound, period(sound));
    lemma_timeline(sound, false, completion, period(sound));
    let last = start.after_ticks(end);
    assert(start.after_ticks(end + 1) == AudioView::<C>::Idle);
    if n > end {
        let rest = (n - end - 1) as nat;
        lemma_ticks_add(start, end + 1, rest);
        lemma_idle_stays::<C>(rest);
    }
}

} // verus!
