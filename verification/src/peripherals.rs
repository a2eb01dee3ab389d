use vstd::prelude::*;

/// Tone sequencer and audio engine
pub mod audio;

verus! {

/// Length of the PWM timer's on-phase, the same for every tone
pub const PWM_ON: u16 = 0xffff;

/// Values for the three counters of the PWM timer
#[derive(Clone, Copy, Debug, PartialEq, Eq)]
pub struct PwmSetting {
    pub on: u16,
    pub high: u16,
    pub low: u16,
}

/// The counter values that make the output sound at `freq`: the high phase
/// gets two thirds and the low phase one third, so that high is to low as
/// two to one whatever the tone.
pub fn pwm_setting(freq: u16) -> (setting: PwmSetting)
    ensures
        setting.on == PWM_ON,
        setting.high == (freq / 3) * 2,
        setting.low == freq / 3,
{
    PwmSetting { on: PWM_ON, high: freq / 3 * 2, low: freq / 3 }
}

} // verus!
