use vstd::prelude::*;

verus! {

/// One classified physical press of the button.
///
/// Exactly one value is produced per physical press: `Short` for a press held
/// below the hold threshold, `Long` for one held at least that long, and
/// `Double` for two short presses in quick succession.
#[derive(Clone, Copy, Debug, PartialEq, Eq, Structural)]
pub enum PressType {
    Short,
    Long,
    Double,
}

/// The press event a byte stands for when press events travel through the
/// byte-valued event queue. Total: unknown bytes read as `Double`.
pub open spec fn decode_press_spec(v: u8) -> PressType {
    if v == 0 {
        PressType::Short
    } else if v == 1 {
        PressType::Long
    } else {
        PressType::Double
    }
}

/// Encode a press event as a byte for the event queue; decoding gives the
/// event back.
pub fn encode_press(p: PressType) -> (r: u8)
    ensures
        decode_press_spec(r) == p,
{
    match p {
        PressType::Short => 0,
        PressType::Long => 1,
        PressType::Double => 2,
    }
}

/// Decode a byte taken out of the event queue.
pub fn decode_press(v: u8) -> (r: PressType)
    ensures
        r == decode_press_spec(v),
{
    if v == 0 {
        PressType::Short
    } else if v == 1 {
        PressType::Long
    } else {
        PressType::Double
    }
}

} // verus!
