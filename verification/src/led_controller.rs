//! What the LED controller does with each animation it is asked for.
//!
//! Animations are sampled at a fixed rate; a period given in milliseconds
//! becomes a number of samples.

use vstd::prelude::*;

verus! {

/// Period of an animation in milliseconds.
pub type PeriodMs = u16;

/// How often an animation repeats.
#[derive(Debug, Clone, Copy, PartialEq, Eq, Structural)]
pub enum Repetitions {
    Infinite,
    Finite(u8),
}

/// An animation of an LED.
#[derive(Debug, Clone, Copy, PartialEq, Eq, Structural)]
pub enum LedAnimation {
    /// Full brightness.
    On,
    /// Full brightness decaying to off over the period.
    Decay(PeriodMs),
    /// A sine wave of the given period, repeated.
    Sine(PeriodMs, Repetitions),
    /// Blinks of the given period, repeated.
    Blinks(PeriodMs, Repetitions),
    /// Fast blinks that signal an alert.
    Alert,
    /// Off.
    Off,
}

/// What the controller does for an animation.
#[derive(Debug, Clone, Copy, PartialEq, Eq, Structural)]
pub enum LedAction {
    /// Stop a running animation and switch the LED on.
    On,
    /// Stop a running animation and switch the LED off.
    Off,
    /// Run a sine animation over `samples` samples, forever or once.
    StartSine { samples: u32, infinite: bool },
    /// Run a decay animation over `samples` samples.
    StartDecay { samples: u32 },
    /// The animation is not implemented: stop the running one.
    Stop,
}

/// Samples in one period of `period_ms` milliseconds.
pub open spec fn period_samples(sample_rate: u32, period_ms: u16) -> int {
    sample_rate * period_ms / 1000
}

/// The sample counts of `animation` fit in 32 bits.
pub open spec fn plan_fits(animation: LedAnimation, sample_rate: u32) -> bool {
    match animation {
        LedAnimation::Sine(p, reps) => sample_rate * p <= u32::MAX && match reps {
            Repetitions::Infinite => true,
            Repetitions::Finite(n) => period_samples(sample_rate, p) * n <= u32::MAX,
        },
        LedAnimation::Decay(p) => sample_rate * p <= u32::MAX,
        _ => true,
    }
}

/// The action for `animation` at `sample_rate` samples per second.
pub open spec fn plan_of(animation: LedAnimation, sample_rate: u32) -> LedAction {
    match animation {
        LedAnimation::On => LedAction::On,
        LedAnimation::Off => LedAction::Off,
        LedAnimation::Sine(p, Repetitions::Infinite) => LedAction::StartSine {
            samples: period_samples(sample_rate, p) as u32,
            infinite: true,
        },
        LedAnimation::Sine(p, Repetitions::Finite(n)) => LedAction::StartSine {
            samples: (period_samples(sample_rate, p) * n) as u32,
            infinite: false,
        },
        LedAnimation::Decay(p) => LedAction::StartDecay {
            samples: (period_samples(sample_rate, p) + 1) as u32,
        },
        _ => LedAction::Stop,
    }
}

/// The action for `animation` at `sample_rate` samples per second: a sine
/// runs for the period times the repetitions, or forever; a decay runs one
/// sample longer than its period.
pub fn plan_animation(animation: LedAnimation, sample_rate: u32) -> (r: LedAction)
    requires
        plan_fits(animation, sample_rate),
    ensures
        r == plan_of(animation, sample_rate),
{
    match animation {
        LedAnimation::On => LedAction::On,
        LedAnimation::Off => LedAction::Off,
        LedAnimation::Sine(period_ms, repetitions) => {
            let base_animation_period = sample_rate * period_ms as u32 / 1000;
            match repetitions {
                Repetitions::Infinite => LedAction::StartSine {
                    samples: base_animation_period,
                    infinite: true,
                },
                Repetitions::Finite(n) => LedAction::StartSine {
                    samples: base_animation_period * n as u32,
                    infinite: false,
                },
            }
        },
        LedAnimation::Decay(period_ms) => {
            let samples = (sample_rate * period_ms as u32) / 1000 + 1;
            LedAction::StartDecay { samples }
        },
        _ => LedAction::Stop,
    }
}

/// LEDs that the controller drives.
pub const LED_COUNT: usize = 3;

/// The animation that runs on an LED.
#[derive(Debug, Clone, Copy, PartialEq, Eq, Structural)]
pub enum Animator {
    Idle,
    Sine { samples: u32, infinite: bool },
    Decay { samples: u32 },
}

/// The next sample of an animator, given what its sample generator yields.
pub open spec fn next_sample_of(animator: Animator, generated: Option<u16>) -> Option<u16> {
    match animator {
        Animator::Idle => None,
        _ => generated,
    }
}

impl Animator {
    /// The next sample of the animation: an idle animator has none; a sine
    /// or decay animation gives what its sample generator yields, which is
    /// none once the animation ended.
    pub fn next_sample(&self, generated: Option<u16>) -> (r: Option<u16>)
        ensures
            r == next_sample_of(*self, generated),
    {
        match self {
            Animator::Idle => None,
            Animator::Sine { .. } => generated,
            Animator::Decay { .. } => generated,
        }
    }
}

/// What the controller asks of the LED driver.
#[derive(Debug, Clone, Copy, PartialEq, Eq, Structural)]
pub enum DriverCommand {
    /// Nothing to change.
    Keep,
    /// Switch the LED on.
    On,
    /// Switch the LED off.
    Off,
    /// Set the LED to `sample` of full brightness.
    Intensity(u16),
}

/// The animations of the LEDs.
#[derive(Debug, Clone, Copy, PartialEq, Eq)]
pub struct LedRunner {
    pub animators: [Animator; 3],
}

/// The animator that an action leaves on its LED: a sine or decay
/// animation starts; switching on or off, and an animation that is not
/// implemented, stop the running one.
pub open spec fn animator_after(action: LedAction) -> Animator {
    match action {
        LedAction::StartSine { samples, infinite } => Animator::Sine { samples, infinite },
        LedAction::StartDecay { samples } => Animator::Decay { samples },
        _ => Animator::Idle,
    }
}

/// The driver command that an action gives at once: on and off switch the
/// LED, an animation that is not implemented switches it off, a starting
/// animation leaves it to the next samples.
pub open spec fn command_for(action: LedAction) -> DriverCommand {
    match action {
        LedAction::On => DriverCommand::On,
        LedAction::Off | LedAction::Stop => DriverCommand::Off,
        _ => DriverCommand::Keep,
    }
}

/// The driver command for an LED in a tick, given its animator and the next
/// sample of its animation: an idle LED keeps its state, a sample sets the
/// intensity, and an animation that ended switches the LED off.
pub open spec fn tick_command(animator: Animator, sample: Option<u16>) -> DriverCommand {
    match animator {
        Animator::Idle => DriverCommand::Keep,
        _ => match sample {
            Some(s) => DriverCommand::Intensity(s),
            None => DriverCommand::Off,
        },
    }
}

/// The animator of an LED after a tick: an animation that ended is cleared.
pub open spec fn tick_animator(animator: Animator, sample: Option<u16>) -> Animator {
    match animator {
        Animator::Idle => Animator::Idle,
        _ => match sample {
            Some(_) => animator,
            None => Animator::Idle,
        },
    }
}

/// A sine or decay animation runs until its samples end: while a sample
/// comes, a tick sets the LED to it and the animation goes on; the first
/// tick without a sample switches the LED off and leaves it idle, sine and
/// decay alike. An idle LED gets no command.
pub proof fn lemma_tick_runs_animation_to_its_end(animator: Animator, s: u16)
    ensures
        animator != Animator::Idle ==> {
            &&& tick_command(animator, Some(s)) == DriverCommand::Intensity(s)
            &&& tick_animator(animator, Some(s)) == animator
            &&& tick_command(animator, None) == DriverCommand::Off
            &&& tick_animator(animator, None) == Animator::Idle
        },
        animator == Animator::Idle ==> {
            &&& tick_command(animator, Some(s)) == DriverCommand::Keep
            &&& tick_command(animator, None) == DriverCommand::Keep
            &&& tick_animator(animator, None) == Animator::Idle
        },
{
}

/// A requested sine or decay animation runs on its LED: the request leaves
/// a running animator there and gives no command at once, and when its
/// samples end the LED is switched off and becomes idle.
pub proof fn lemma_started_animation_ends_off(animation: LedAnimation, sample_rate: u32)
    requires
        animation matches LedAnimation::Sine(_, _) || animation matches LedAnimation::Decay(_),
    ensures
        animator_after(plan_of(animation, sample_rate)) != Animator::Idle,
        command_for(plan_of(animation, sample_rate)) == DriverCommand::Keep,
        tick_command(animator_after(plan_of(animation, sample_rate)), None) == DriverCommand::Off,
        tick_animator(animator_after(plan_of(animation, sample_rate)), None) == Animator::Idle,
{
}

/// A request to switch an LED on or off holds until the next request: it
/// switches the LED at once and leaves its animator idle, and a tick gives an
/// idle LED no command and leaves it idle, whatever sample comes.
pub proof fn lemma_switched_led_stays(animation: LedAnimation, sample_rate: u32, sample: Option<u16>)
    requires
        animation == LedAnimation::On || animation == LedAnimation::Off,
    ensures
        animation == LedAnimation::On ==> command_for(plan_of(animation, sample_rate))
            == DriverCommand::On,
        animation == LedAnimation::Off ==> command_for(plan_of(animation, sample_rate))
            == DriverCommand::Off,
        animator_after(plan_of(animation, sample_rate)) == Animator::Idle,
        tick_command(Animator::Idle, sample) == DriverCommand::Keep,
        tick_animator(Animator::Idle, sample) == Animator::Idle,
{
}

impl LedRunner {
    /// No animation runs.
    pub fn new() -> (r: Self)
        ensures
            forall|i: int| 0 <= i < LED_COUNT ==> r.animators@[i] == Animator::Idle,
    {
        LedRunner { animators: [Animator::Idle, Animator::Idle, Animator::Idle] }
    }

    /// Takes a request to run `animation` on the LED `led`: switching on or
    /// off happens at once and stops the running animation, so the LED stays
    /// at full brightness or off until the next request; a sine or decay
    /// animation replaces the running one; an animation that is not
    /// implemented stops the running one and switches the LED off.
    pub fn on_message(&mut self, led: usize, animation: LedAnimation, sample_rate: u32) -> (r:
        DriverCommand)
        requires
            led < LED_COUNT,
            plan_fits(animation, sample_rate),
        ensures
            ({
                let action = plan_of(animation, sample_rate);
                &&& r == command_for(action)
                &&& final(self).animators@ == old(self).animators@.update(
                    led as int,
                    animator_after(action),
                )
            }),
    {
        let action = plan_animation(animation, sample_rate);
        match action {
            LedAction::On => {
                self.animators[led] = Animator::Idle;
                DriverCommand::On
            },
            LedAction::Off => {
                self.animators[led] = Animator::Idle;
                DriverCommand::Off
            },
            LedAction::StartSine { samples, infinite } => {
                self.animators[led] = Animator::Sine { samples, infinite };
                DriverCommand::Keep
            },
            LedAction::StartDecay { samples } => {
                self.animators[led] = Animator::Decay { samples };
                DriverCommand::Keep
            },
            LedAction::Stop => {
                self.animators[led] = Animator::Idle;
                DriverCommand::Off
            },
        }
    }

    /// Takes the next sample of the animation on `led`: a sample sets the
    /// intensity; none means the animation ended, so the LED goes off and its
    /// animator is cleared.
    pub fn on_sample(&mut self, led: usize, sample: Option<u16>) -> (r: DriverCommand)
        requires
            led < LED_COUNT,
        ensures
            match sample {
                Some(s) => r == DriverCommand::Intensity(s) && final(self).animators@ == old(
                    self,
                ).animators@,
                None => r == DriverCommand::Off && final(self).animators@ == old(
                    self,
                ).animators@.update(led as int, Animator::Idle),
            },
    {
        match sample {
            Some(s) => DriverCommand::Intensity(s),
            None => {
                self.animators[led] = Animator::Idle;
                DriverCommand::Off
            },
        }
    }

    /// The pass over the LEDs in a tick, given the next sample of each LED's
    /// animation: one driver command per LED, in order (see
    /// [`tick_command`]); animations that ended are cleared.
    pub fn tick(&mut self, samples: [Option<u16>; 3]) -> (r: [DriverCommand; 3])
        ensures
            forall|i: int|
                0 <= i < LED_COUNT ==> r@[i] == tick_command(old(self).animators@[i], samples@[i])
                    && final(self).animators@[i] == tick_animator(
                    old(self).animators@[i],
                    samples@[i],
                ),
            final(self).animators@.len() == LED_COUNT,
    {
        let mut commands = [DriverCommand::Keep, DriverCommand::Keep, DriverCommand::Keep];
        let mut i: usize = 0;
        while i < LED_COUNT
            invariant
                i <= LED_COUNT,
                forall|j: int|
                    0 <= j < i ==> commands@[j] == tick_command(old(self).animators@[j], samples@[j])
                        && self.animators@[j] == tick_animator(old(self).animators@[j], samples@[j]),
                forall|j: int| i <= j < LED_COUNT ==> self.animators@[j] == old(self).animators@[j],
            decreases LED_COUNT - i,
        {
            let animator = self.animators[i];
            let command = match animator {
                Animator::Idle => DriverCommand::Keep,
                _ => self.on_sample(i, animator.next_sample(samples[i])),
            };
            commands[i] = command;
            i += 1;
        }
        commands
    }
}

} // verus!
