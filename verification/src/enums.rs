//! The protocol's enumerations. On the wire each is a 4-byte little-endian
//! signed integer with a closed mapping plus one reserved "unrecognized"
//! variant (`NullVal`): decoding an enumeration never fails.

use vstd::prelude::*;

verus! {

/// Wire code of the `NullVal` variant of every enumeration: `i32::MIN`.
pub const ENUM_NULL_VAL: i32 = -2147483648;

#[allow(non_camel_case_types)]
#[derive(Clone, Copy, Debug, PartialEq, Eq, Structural)]
pub enum BooleanType {
    FALSE,
    TRUE,
    NullVal,
}

impl BooleanType {
    /// The variant a wire value decodes to; everything outside the
    /// enumerated set maps to `NullVal`.
    pub open spec fn spec_from_i32(v: i32) -> BooleanType {
        if v == 0 {
            BooleanType::FALSE
        } else if v == 1 {
            BooleanType::TRUE
        } else {
            BooleanType::NullVal
        }
    }

    /// The wire code of a variant.
    pub open spec fn spec_to_i32(self) -> i32 {
        match self {
            BooleanType::FALSE => 0,
            BooleanType::TRUE => 1,
            BooleanType::NullVal => ENUM_NULL_VAL,
        }
    }

    pub fn from_i32(v: i32) -> (r: BooleanType)
        ensures
            r == BooleanType::spec_from_i32(v),
    {
        if v == 0 {
            BooleanType::FALSE
        } else if v == 1 {
            BooleanType::TRUE
        } else {
            BooleanType::NullVal
        }
    }

    pub fn to_i32(self) -> (r: i32)
        ensures
            r == self.spec_to_i32(),
    {
        match self {
            BooleanType::FALSE => 0,
            BooleanType::TRUE => 1,
            BooleanType::NullVal => ENUM_NULL_VAL,
        }
    }

    /// The variant standing for a caller-supplied flag.
    pub open spec fn spec_from_bool(b: bool) -> BooleanType {
        if b {
            BooleanType::TRUE
        } else {
            BooleanType::FALSE
        }
    }

    pub fn from_bool(b: bool) -> (r: BooleanType)
        ensures
            r == BooleanType::spec_from_bool(b),
    {
        if b {
            BooleanType::TRUE
        } else {
            BooleanType::FALSE
        }
    }
}

#[allow(non_camel_case_types)]
#[derive(Clone, Copy, Debug, PartialEq, Eq, Structural)]
pub enum ControlResponseCode {
    OK,
    ERROR,
    RECORDING_UNKNOWN,
    SUBSCRIPTION_UNKNOWN,
    NullVal,
}

impl ControlResponseCode {
    pub open spec fn spec_from_i32(v: i32) -> ControlResponseCode {
        if v == 0 {
            ControlResponseCode::OK
        } else if v == 1 {
            ControlResponseCode::ERROR
        } else if v == 2 {
            ControlResponseCode::RECORDING_UNKNOWN
        } else if v == 3 {
            ControlResponseCode::SUBSCRIPTION_UNKNOWN
        } else {
            ControlResponseCode::NullVal
        }
    }

    pub open spec fn spec_to_i32(self) -> i32 {
        match self {
            ControlResponseCode::OK => 0,
            ControlResponseCode::ERROR => 1,
            ControlResponseCode::RECORDING_UNKNOWN => 2,
            ControlResponseCode::SUBSCRIPTION_UNKNOWN => 3,
            ControlResponseCode::NullVal => ENUM_NULL_VAL,
        }
    }

    pub fn from_i32(v: i32) -> (r: ControlResponseCode)
        ensures
            r == ControlResponseCode::spec_from_i32(v),
    {
        if v == 0 {
            ControlResponseCode::OK
        } else if v == 1 {
            ControlResponseCode::ERROR
        } else if v == 2 {
            ControlResponseCode::RECORDING_UNKNOWN
        } else if v == 3 {
            ControlResponseCode::SUBSCRIPTION_UNKNOWN
        } else {
            ControlResponseCode::NullVal
        }
    }

    pub fn to_i32(self) -> (r: i32)
        ensures
            r == self.spec_to_i32(),
    {
        match self {
            ControlResponseCode::OK => 0,
            ControlResponseCode::ERROR => 1,
            ControlResponseCode::RECORDING_UNKNOWN => 2,
            ControlResponseCode::SUBSCRIPTION_UNKNOWN => 3,
            ControlResponseCode::NullVal => ENUM_NULL_VAL,
        }
    }
}

#[allow(non_camel_case_types)]
#[derive(Clone, Copy, Debug, PartialEq, Eq, Structural)]
pub enum RecordingSignal {
    START,
    STOP,
    EXTEND,
    REPLICATE,
    MERGE,
    SYNC,
    DELETE,
    REPLICATE_END,
    NullVal,
}

impl RecordingSignal {
    pub open spec fn spec_from_i32(v: i32) -> RecordingSignal {
        if v == 0 {
            RecordingSignal::START
        } else if v == 1 {
            RecordingSignal::STOP
        } else if v == 2 {
            RecordingSignal::EXTEND
        } else if v == 3 {
            RecordingSignal::REPLICATE
        } else if v == 4 {
            RecordingSignal::MERGE
        } else if v == 5 {
            RecordingSignal::SYNC
        } else if v == 6 {
            RecordingSignal::DELETE
        } else if v == 7 {
            RecordingSignal::REPLICATE_END
        } else {
            RecordingSignal::NullVal
        }
    }

    pub open spec fn spec_to_i32(self) -> i32 {
        match self {
            RecordingSignal::START => 0,
            RecordingSignal::STOP => 1,
            RecordingSignal::EXTEND => 2,
            RecordingSignal::REPLICATE => 3,
            RecordingSignal::MERGE => 4,
            RecordingSignal::SYNC => 5,
            RecordingSignal::DELETE => 6,
            RecordingSignal::REPLICATE_END => 7,
            RecordingSignal::NullVal => ENUM_NULL_VAL,
        }
    }

    pub fn from_i32(v: i32) -> (r: RecordingSignal)
        ensures
            r == RecordingSignal::spec_from_i32(v),
    {
        if v == 0 {
            RecordingSignal::START
        } else if v == 1 {
            RecordingSignal::STOP
        } else if v == 2 {
            RecordingSignal::EXTEND
        } else if v == 3 {
            RecordingSignal::REPLICATE
        } else if v == 4 {
            RecordingSignal::MERGE
        } else if v == 5 {
            RecordingSignal::SYNC
        } else if v == 6 {
            RecordingSignal::DELETE
        } else if v == 7 {
            RecordingSignal::REPLICATE_END
        } else {
            RecordingSignal::NullVal
        }
    }

    pub fn to_i32(self) -> (r: i32)
        ensures
            r == self.spec_to_i32(),
    {
        match self {
            RecordingSignal::START => 0,
            RecordingSignal::STOP => 1,
            RecordingSignal::EXTEND => 2,
            RecordingSignal::REPLICATE => 3,
            RecordingSignal::MERGE => 4,
            RecordingSignal::SYNC => 5,
            RecordingSignal::DELETE => 6,
            RecordingSignal::REPLICATE_END => 7,
            RecordingSignal::NullVal => ENUM_NULL_VAL,
        }
    }
}

#[allow(non_camel_case_types)]
#[derive(Clone, Copy, Debug, PartialEq, Eq, Structural)]
pub enum RecordingState {
    INVALID,
    VALID,
    NullVal,
}

impl RecordingState {
    pub open spec fn spec_from_i32(v: i32) -> RecordingState {
        if v == 0 {
            RecordingState::INVALID
        } else if v == 1 {
            RecordingState::VALID
        } else {
            RecordingState::NullVal
        }
    }

    pub open spec fn spec_to_i32(self) -> i32 {
        match self {
            RecordingState::INVALID => 0,
            RecordingState::VALID => 1,
            RecordingState::NullVal => ENUM_NULL_VAL,
        }
    }

    pub fn from_i32(v: i32) -> (r: RecordingState)
        ensures
            r == RecordingState::spec_from_i32(v),
    {
        if v == 0 {
            RecordingState::INVALID
        } else if v == 1 {
            RecordingState::VALID
        } else {
            RecordingState::NullVal
        }
    }

    pub fn to_i32(self) -> (r: i32)
        ensures
            r == self.spec_to_i32(),
    {
        match self {
            RecordingState::INVALID => 0,
            RecordingState::VALID => 1,
            RecordingState::NullVal => ENUM_NULL_VAL,
        }
    }
}

#[allow(non_camel_case_types)]
#[derive(Clone, Copy, Debug, PartialEq, Eq, Structural)]
pub enum SourceLocation {
    LOCAL,
    REMOTE,
    NullVal,
}

impl SourceLocation {
    pub open spec fn spec_from_i32(v: i32) -> SourceLocation {
        if v == 0 {
            SourceLocation::LOCAL
        } else if v == 1 {
            SourceLocation::REMOTE
        } else {
            SourceLocation::NullVal
        }
    }

    pub open spec fn spec_to_i32(self) -> i32 {
        match self {
            SourceLocation::LOCAL => 0,
            SourceLocation::REMOTE => 1,
            SourceLocation::NullVal => ENUM_NULL_VAL,
        }
    }

    pub fn from_i32(v: i32) -> (r: SourceLocation)
        ensures
            r == SourceLocation::spec_from_i32(v),
    {
        if v == 0 {
            SourceLocation::LOCAL
        } else if v == 1 {
            SourceLocation::REMOTE
        } else {
            SourceLocation::NullVal
        }
    }

    pub fn to_i32(self) -> (r: i32)
        ensures
            r == self.spec_to_i32(),
    {
        match self {
            SourceLocation::LOCAL => 0,
            SourceLocation::REMOTE => 1,
            SourceLocation::NullVal => ENUM_NULL_VAL,
        }
    }
}

/// Decoding never fails: every `i32` outside an enumeration's set — negative,
/// out of range, or otherwise unknown — maps to the reserved unrecognized
/// variant of that enumeration.
pub proof fn lemma_enum_decode_total(v: i32)
    ensures
        !(v == 0 || v == 1) ==> BooleanType::spec_from_i32(v) is NullVal,
        !(0 <= v <= 3) ==> ControlResponseCode::spec_from_i32(v) is NullVal,
        !(0 <= v <= 7) ==> RecordingSignal::spec_from_i32(v) is NullVal,
        !(v == 0 || v == 1) ==> RecordingState::spec_from_i32(v) is NullVal,
        !(v == 0 || v == 1) ==> SourceLocation::spec_from_i32(v) is NullVal,
{
}

} // verus!
