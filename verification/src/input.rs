//! User input events: the physical keys, the kinds of action on them and the sequence
//! that qualifies each event.

use vstd::prelude::*;

verus! {

/// The number of bits of an [`InputEventSequence`] that hold its counter.
pub const SOURCE_SHIFT: u32 = 30;

/// [`InputEvent`] sequence: a `u32` whose bits 31..30 hold the source and whose bits 29..0
/// hold the counter.
#[derive(Clone, Copy, Debug, PartialEq, Eq, Hash, PartialOrd, Ord, Structural)]
pub struct InputEventSequence(pub u32);

impl InputEventSequence {
    /// The source of the sequence: its top two bits.
    pub fn source(self) -> (r: u8)
        ensures
            r == self.0 / 0x4000_0000,
    {
        let x = self.0;
        let s = (x >> SOURCE_SHIFT) & (u32::MAX >> SOURCE_SHIFT);
        assert(s == x / 0x4000_0000 && s < 4) by (bit_vector)
            requires
                s == (x >> 30u32) & (0xffff_ffffu32 >> 30u32),
        ;
        s as u8
    }

    /// The counter of the sequence: its low thirty bits.
    pub fn counter(self) -> (r: u32)
        ensures
            r == self.0 % 0x4000_0000,
    {
        let x = self.0;
        let c = x & !((u32::MAX >> SOURCE_SHIFT) << SOURCE_SHIFT);
        assert(c == x % 0x4000_0000) by (bit_vector)
            requires
                c == x & !((0xffff_ffffu32 >> 30u32) << 30u32),
        ;
        c
    }
}

impl From<u32> for InputEventSequence {
    fn from(value: u32) -> (r: InputEventSequence) {
        InputEventSequence(value)
    }
}

impl vstd::std_specs::convert::FromSpecImpl<u32> for InputEventSequence {
    open spec fn obeys_from_spec() -> bool {
        true
    }

    open spec fn from_spec(value: u32) -> InputEventSequence {
        InputEventSequence(value)
    }
}

impl From<InputEventSequence> for u32 {
    fn from(value: InputEventSequence) -> (r: u32) {
        value.0
    }
}

impl vstd::std_specs::convert::FromSpecImpl<InputEventSequence> for u32 {
    open spec fn obeys_from_spec() -> bool {
        true
    }

    open spec fn from_spec(value: InputEventSequence) -> u32 {
        value.0
    }
}

/// A sequence is its source above its counter: the two parts rebuild the raw value.
pub proof fn lemma_sequence_parts(x: u32)
    ensures
        x == (x / 0x4000_0000) * 0x4000_0000 + x % 0x4000_0000,
        x / 0x4000_0000 < 4,
{
}

/// A physical key of the Flipper Zero.
#[derive(Clone, Copy, Debug, PartialEq, Eq, Hash, PartialOrd, Ord, Structural)]
pub enum InputKey {
    Up,
    Down,
    Right,
    Left,
    OK,
    Back,
}

/// The kind of action on one of the Flipper's keys (physical or logical).
#[derive(Clone, Copy, Debug, PartialEq, Eq, Hash, PartialOrd, Ord, Structural)]
pub enum InputType {
    /// Press event, emitted after debounce.
    Press,
    /// Release event, emitted after debounce.
    Release,
    /// Short event, emitted after [`InputType::Release`] done within the long-press
    /// interval.
    Short,
    /// Long event, emitted after the long-press interval, asynchronous to
    /// [`InputType::Release`].
    Long,
    /// Repeat event, emitted periodically after an [`InputType::Long`] event.
    Repeat,
}

/// An error converting the firmware's key number to an [`InputKey`].
#[derive(Clone, Copy, Debug, PartialEq, Eq, Hash, PartialOrd, Ord, Structural)]
pub enum FromSysInputKeyError {
    /// The number is the firmware's count of keys, a meta-value.
    Max,
    /// The number names no key.
    Invalid(u8),
}

/// An error converting the firmware's input type number to an [`InputType`].
#[derive(Clone, Copy, Debug, PartialEq, Eq, Hash, PartialOrd, Ord, Structural)]
pub enum FromSysInputTypeError {
    /// The number is the firmware's count of input types, a meta-value.
    Max,
    /// The number names no input type.
    Invalid(u8),
}

/// An error converting a raw input event to an [`InputEvent`].
#[derive(Clone, Copy, Debug, PartialEq, Eq, Hash, PartialOrd, Ord, Structural)]
pub enum FromSysInputEventError {
    InvalidKey(FromSysInputKeyError),
    InvalidType(FromSysInputTypeError),
}

/// The number of keys in the firmware's `InputKey` enumeration.
pub const INPUT_KEY_MAX: u8 = 6;

/// The number of kinds in the firmware's `InputType` enumeration.
pub const INPUT_TYPE_MAX: u8 = 5;

impl InputKey {
    /// The firmware's number for this key (its place in the firmware's enumeration).
    pub open spec fn raw(self) -> u8 {
        match self {
            InputKey::Up => 0,
            InputKey::Down => 1,
            InputKey::Right => 2,
            InputKey::Left => 3,
            InputKey::OK => 4,
            InputKey::Back => 5,
        }
    }

    /// The value that the firmware's number `value` names, or why it names none.
    pub open spec fn spec_from_raw(value: u8) -> Result<InputKey, FromSysInputKeyError> {
        if value == 0 {
            Ok(InputKey::Up)
        } else if value == 1 {
            Ok(InputKey::Down)
        } else if value == 2 {
            Ok(InputKey::Right)
        } else if value == 3 {
            Ok(InputKey::Left)
        } else if value == 4 {
            Ok(InputKey::OK)
        } else if value == 5 {
            Ok(InputKey::Back)
        } else if value == INPUT_KEY_MAX {
            Err(FromSysInputKeyError::Max)
        } else {
            Err(FromSysInputKeyError::Invalid(value))
        }
    }

    /// Returns the firmware's number for this key.
    pub fn to_raw(self) -> (r: u8)
        ensures
            r == self.raw(),
    {
        match self {
            InputKey::Up => 0,
            InputKey::Down => 1,
            InputKey::Right => 2,
            InputKey::Left => 3,
            InputKey::OK => 4,
            InputKey::Back => 5,
        }
    }

    /// Returns the key with the firmware's number `value`.
    pub fn from_raw(value: u8) -> (r: Result<InputKey, FromSysInputKeyError>)
        ensures
            r == InputKey::spec_from_raw(value),
    {
        match value {
            0 => Ok(InputKey::Up),
            1 => Ok(InputKey::Down),
            2 => Ok(InputKey::Right),
            3 => Ok(InputKey::Left),
            4 => Ok(InputKey::OK),
            5 => Ok(InputKey::Back),
            INPUT_KEY_MAX => Err(FromSysInputKeyError::Max),
            invalid => Err(FromSysInputKeyError::Invalid(invalid)),
        }
    }
}

impl InputType {
    /// The firmware's number for this input type (its place in the firmware's enumeration).
    pub open spec fn raw(self) -> u8 {
        match self {
            InputType::Press => 0,
            InputType::Release => 1,
            InputType::Short => 2,
            InputType::Long => 3,
            InputType::Repeat => 4,
        }
    }

    /// The value that the firmware's number `value` names, or why it names none.
    pub open spec fn spec_from_raw(value: u8) -> Result<InputType, FromSysInputTypeError> {
        if value == 0 {
            Ok(InputType::Press)
        } else if value == 1 {
            Ok(InputType::Release)
        } else if value == 2 {
            Ok(InputType::Short)
        } else if value == 3 {
            Ok(InputType::Long)
        } else if value == 4 {
            Ok(InputType::Repeat)
        } else if value == INPUT_TYPE_MAX {
            Err(FromSysInputTypeError::Max)
        } else {
            Err(FromSysInputTypeError::Invalid(value))
        }
    }

    /// Returns the firmware's number for this input type.
    pub fn to_raw(self) -> (r: u8)
        ensures
            r == self.raw(),
    {
        match self {
            InputType::Press => 0,
            InputType::Release => 1,
            InputType::Short => 2,
            InputType::Long => 3,
            InputType::Repeat => 4,
        }
    }

    /// Returns the input type with the firmware's number `value`.
    pub fn from_raw(value: u8) -> (r: Result<InputType, FromSysInputTypeError>)
        ensures
            r == InputType::spec_from_raw(value),
    {
        match value {
            0 => Ok(InputType::Press),
            1 => Ok(InputType::Release),
            2 => Ok(InputType::Short),
            3 => Ok(InputType::Long),
            4 => Ok(InputType::Repeat),
            INPUT_TYPE_MAX => Err(FromSysInputTypeError::Max),
            invalid => Err(FromSysInputTypeError::Invalid(invalid)),
        }
    }
}

/// Input event occurring on user actions.
#[derive(Clone, Copy, Debug, PartialEq, Eq, Hash, Structural)]
pub struct InputEvent {
    /// Sequence qualifying the event.
    pub sequence: InputEventSequence,
    /// Physical key causing the event.
    pub key: InputKey,
    /// The type of the event.
    pub type_: InputType,
}

impl InputEvent {
    /// Builds an event from the firmware's raw sequence, key number and type number; the
    /// key is checked first.
    pub fn from_raw(sequence: u32, key: u8, type_: u8) -> (r: Result<InputEvent, FromSysInputEventError>)
        ensures
            r == (match (InputKey::spec_from_raw(key), InputType::spec_from_raw(type_)) {
                (Err(e), _) => Err(FromSysInputEventError::InvalidKey(e)),
                (Ok(_), Err(e)) => Err(FromSysInputEventError::InvalidType(e)),
                (Ok(k), Ok(t)) => Ok(InputEvent { sequence: InputEventSequence(sequence), key: k, type_: t }),
            }),
    {
        let key = match InputKey::from_raw(key) {
            Ok(k) => k,
            Err(e) => return Err(FromSysInputEventError::InvalidKey(e)),
        };
        let type_ = match InputType::from_raw(type_) {
            Ok(t) => t,
            Err(e) => return Err(FromSysInputEventError::InvalidType(e)),
        };
        Ok(InputEvent { sequence: InputEventSequence(sequence), key, type_ })
    }

    /// The firmware's raw sequence, key number and type number of this event.
    pub fn to_raw(self) -> (r: (u32, u8, u8))
        ensures
            r == (self.sequence.0, self.key.raw(), self.type_.raw()),
    {
        (self.sequence.0, self.key.to_raw(), self.type_.to_raw())
    }
}

/// Every key and input type survives the trip to the firmware's number and back, and so
/// does every event.
pub proof fn lemma_input_round_trip(key: InputKey, ty: InputType, event: InputEvent)
    ensures
        InputKey::spec_from_raw(key.raw()) == Ok::<InputKey, FromSysInputKeyError>(key),
        InputType::spec_from_raw(ty.raw()) == Ok::<InputType, FromSysInputTypeError>(ty),
        InputKey::spec_from_raw(INPUT_KEY_MAX) == Err::<InputKey, FromSysInputKeyError>(FromSysInputKeyError::Max),
        InputType::spec_from_raw(INPUT_TYPE_MAX) == Err::<InputType, FromSysInputTypeError>(FromSysInputTypeError::Max),
{
}


/// The firmware numbers its keys up, down, right, left, OK, back from 0 to 5, with 6 its
/// count of keys; no other number names a key.
pub proof fn lemma_input_key_numbers(value: u8)
    ensures
        InputKey::spec_from_raw(0) == Ok::<InputKey, FromSysInputKeyError>(InputKey::Up),
        InputKey::spec_from_raw(1) == Ok::<InputKey, FromSysInputKeyError>(InputKey::Down),
        InputKey::spec_from_raw(2) == Ok::<InputKey, FromSysInputKeyError>(InputKey::Right),
        InputKey::spec_from_raw(3) == Ok::<InputKey, FromSysInputKeyError>(InputKey::Left),
        InputKey::spec_from_raw(4) == Ok::<InputKey, FromSysInputKeyError>(InputKey::OK),
        InputKey::spec_from_raw(5) == Ok::<InputKey, FromSysInputKeyError>(InputKey::Back),
        InputKey::spec_from_raw(6) == Err::<InputKey, FromSysInputKeyError>(FromSysInputKeyError::Max),
        value > 6 ==> InputKey::spec_from_raw(value) == Err::<InputKey, FromSysInputKeyError>(
            FromSysInputKeyError::Invalid(value),
        ),
        InputKey::Up.raw() == 0,
        InputKey::Down.raw() == 1,
        InputKey::Right.raw() == 2,
        InputKey::Left.raw() == 3,
        InputKey::OK.raw() == 4,
        InputKey::Back.raw() == 5,
{
}

/// The firmware numbers its input types press, release, short, long, repeat from 0 to 4,
/// with 5 its count of types; no other number names a type.
pub proof fn lemma_input_type_numbers(value: u8)
    ensures
        InputType::spec_from_raw(0) == Ok::<InputType, FromSysInputTypeError>(InputType::Press),
        InputType::spec_from_raw(1) == Ok::<InputType, FromSysInputTypeError>(InputType::Release),
        InputType::spec_from_raw(2) == Ok::<InputType, FromSysInputTypeError>(InputType::Short),
        InputType::spec_from_raw(3) == Ok::<InputType, FromSysInputTypeError>(InputType::Long),
        InputType::spec_from_raw(4) == Ok::<InputType, FromSysInputTypeError>(InputType::Repeat),
        InputType::spec_from_raw(5) == Err::<InputType, FromSysInputTypeError>(FromSysInputTypeError::Max),
        value > 5 ==> InputType::spec_from_raw(value) == Err::<InputType, FromSysInputTypeError>(
            FromSysInputTypeError::Invalid(value),
        ),
        InputType::Press.raw() == 0,
        InputType::Release.raw() == 1,
        InputType::Short.raw() == 2,
        InputType::Long.raw() == 3,
        InputType::Repeat.raw() == 4,
{
}

} // verus!
