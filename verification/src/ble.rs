use vstd::prelude::*;

verus! {

/// Index of the value attribute of the "LED Read" characteristic
pub const SVC1_IDX_LED_READ_VAL: u16 = 5;

/// Index of the value attribute of the "LED Write" characteristic
pub const SVC1_IDX_LED_WRITE_VAL: u16 = 8;

/// Index of the value attribute of the "Temperature Read" characteristic
pub const SVC1_IDX_TEMP_READ_VAL: u16 = 11;

/// A value that a peer can read
#[derive(Clone, Copy, Debug, PartialEq, Eq)]
pub enum ReadableValue {
    LedState,
    Temperature,
}

/// Whether a write to the attribute at `handle` sets the LED. Writes to
/// any other attribute are ignored.
pub fn is_led_write(handle: u16) -> (led: bool)
    ensures
        led == (handle == SVC1_IDX_LED_WRITE_VAL),
{
    handle == SVC1_IDX_LED_WRITE_VAL
}

/// The value that a read of the attribute at `att_idx` asks for, or `None`
/// where the read is to be refused.
pub fn readable_value(att_idx: u16) -> (value: Option<ReadableValue>)
    ensures
        value == if att_idx == SVC1_IDX_LED_READ_VAL {
            Some(ReadableValue::LedState)
        } else if att_idx == SVC1_IDX_TEMP_READ_VAL {
            Some(ReadableValue::Temperature)
        } else {
            None::<ReadableValue>
        },
{
    if att_idx == SVC1_IDX_LED_READ_VAL {
        Some(ReadableValue::LedState)
    } else if att_idx == SVC1_IDX_TEMP_READ_VAL {
        Some(ReadableValue::Temperature)
    } else {
        None
    }
}

/// The LED state that a written byte asks for: off for zero, on for
/// anything else.
pub fn led_state_from_token(token: u8) -> (state: bool)
    ensures
        state == (token != 0),
{
    token != 0
}

/// The LED state as it is read: one byte, 1 for on and 0 for off.
pub fn led_state_value(state: bool) -> (value: [u8; 1])
    ensures
        value@ == seq![if state { 1u8 } else { 0u8 }],
{
    [if state { 1 } else { 0 }]
}

/// The temperature as it is read: two bytes, the high one first.
pub fn temperature_value(temp: u16) -> (value: [u8; 2])
    ensures
        value@ == seq![(temp / 256) as u8, (temp % 256) as u8],
{
    let high: u8 = ((temp >> 8) & 0xff) as u8;
    let low: u8 = (temp & 0xff) as u8;
    assert(high == temp / 256 && low == temp % 256) by (bit_vector)
        requires
            high == ((temp >> 8) & 0xff) as u8,
            low == (temp & 0xff) as u8,
    ;
    [high, low]
}

} // verus!
