//! Telemetry decoder: interprets a received payload as a positional-error
//! record (a scalar lateral offset and two direction flags).
//!
//! Two wire shapes exist, one per framing strategy. The raw 5-byte shape
//! treats the bytes as a coarse position histogram: they are weighted and
//! summed into the scalar error, and the first two bytes double as direction
//! flags (the ASCII `0` sentinel means a lane marker is present). The
//! structured shape carries text-encoded fields at fixed offsets inside the
//! delimited body: a signed 16-bit angle, a signed 16-bit radial offset, two
//! boolean flags, and two signed 16-bit channel values; the radial offset is
//! the scalar error. The sub-layout here is the deployment's: a sign byte and
//! five ASCII digits per number, one ASCII `0`/`1` per flag, and trailing
//! padding that the decoder ignores.
//!
//! Decoding is pure: a payload that fails to parse yields a decode fault and
//! nothing else happens.

use vstd::prelude::*;

use crate::fault::Fault;
use crate::fault::FaultStage;
use crate::frame::FrameStrategy;
use crate::frame::DELIMITED_PAYLOAD_LEN;
use crate::frame::FIXED_PAYLOAD_LEN;

verus! {

/// Byte value that marks a raw direction flag as set (ASCII `0`).
pub const FLAG_SENTINEL: u8 = 48;

/// Fixed calibration constant subtracted from the raw weighted sum.
pub const RAW_CALIBRATION_OFFSET: i32 = 15;

/// Length of one text-encoded number field: a sign byte and five digits.
pub const NUM_FIELD_LEN: usize = 6;

/// Offset of the angle field inside the structured body.
pub const ANGLE_POS: usize = 0;

/// Offset of the radial-offset field inside the structured body.
pub const OFFSET_POS: usize = 6;

/// Offset of the first direction flag inside the structured body.
pub const FLAG0_POS: usize = 12;

/// Offset of the second direction flag inside the structured body.
pub const FLAG1_POS: usize = 13;

/// Offset of the first channel field inside the structured body.
pub const CHAN0_POS: usize = 14;

/// Offset of the second channel field inside the structured body.
pub const CHAN1_POS: usize = 20;

/// Smallest scalar error any wire shape can decode to.
pub const ERROR_FLOOR: i32 = -32768;

/// Largest scalar error any wire shape can decode to.
pub const ERROR_CEIL: i32 = 32767;

/// The positional-error record one control cycle runs on.
#[derive(Clone, Copy, Debug)]
pub struct TelemetryRecord {
    /// Scalar lateral error fed to the controller.
    pub error: i32,
    /// First direction flag.
    pub flag0: bool,
    /// Second direction flag.
    pub flag1: bool,
}

/// The full structured record of the delimited wire shape.
#[derive(Clone, Copy, Debug)]
pub struct StructuredRecord {
    /// Signed angle to the path.
    pub angle: i16,
    /// Signed radial offset from the path; the scalar error of the cycle.
    pub offset: i16,
    /// First direction flag.
    pub flag0: bool,
    /// Second direction flag.
    pub flag1: bool,
    /// First auxiliary channel value.
    pub chan0: i16,
    /// Second auxiliary channel value.
    pub chan1: i16,
}

// ---------------------------------------------------------------------------
// Raw 5-byte shape
// ---------------------------------------------------------------------------

/// Weighted sum of the five histogram bytes, less the calibration offset.
pub open spec fn raw_error(p: Seq<u8>) -> int {
    5 * p[0] + 10 * p[1] + 15 * p[2] + 20 * p[3] + 25 * p[4] - RAW_CALIBRATION_OFFSET
}

/// Decode the raw 5-byte shape: any payload of exactly the fixed length
/// decodes, to the weighted-sum error and the two sentinel flags; any other
/// length is a decode fault.
pub fn decode_raw(payload: &Vec<u8>) -> (r: Result<TelemetryRecord, Fault>)
    ensures
        (r is Ok) <==> payload@.len() == FIXED_PAYLOAD_LEN as int,
        r matches Ok(t) ==> {
            &&& t.error as int == raw_error(payload@)
            &&& t.flag0 == (payload@[0] == FLAG_SENTINEL)
            &&& t.flag1 == (payload@[1] == FLAG_SENTINEL)
            &&& ERROR_FLOOR <= t.error <= ERROR_CEIL
        },
        r matches Err(f) ==> f.stage == FaultStage::Decode,
{
    if payload.len() != FIXED_PAYLOAD_LEN {
        return Err(Fault::malformed_payload());
    }
    let error: i32 = 5 * payload[0] as i32 + 10 * payload[1] as i32 + 15 * payload[2] as i32 + 20
        * payload[3] as i32 + 25 * payload[4] as i32 - RAW_CALIBRATION_OFFSET;
    Ok(
        TelemetryRecord {
            error,
            flag0: payload[0] == FLAG_SENTINEL,
            flag1: payload[1] == FLAG_SENTINEL,
        },
    )
}

// ---------------------------------------------------------------------------
// Structured text shape
// ---------------------------------------------------------------------------

/// An ASCII decimal digit.
pub open spec fn is_digit(b: u8) -> bool {
    48 <= b <= 57
}

/// The six bytes of the number field starting at `start`.
pub open spec fn field_at(p: Seq<u8>, start: int) -> Seq<u8> {
    p.subrange(start, start + NUM_FIELD_LEN as int)
}

/// Value of the five digit bytes of a number field.
pub open spec fn field_magnitude(s: Seq<u8>) -> int {
    10000 * (s[1] - 48) + 1000 * (s[2] - 48) + 100 * (s[3] - 48) + 10 * (s[4] - 48) + (s[5] - 48)
}

/// The signed value a number field encodes.
pub open spec fn field_value(s: Seq<u8>) -> int {
    if s[0] == 45 {
        -field_magnitude(s)
    } else {
        field_magnitude(s)
    }
}

/// A well-formed number field: a `+` or `-` sign byte, five ASCII digits, and
/// a value inside the signed 16-bit domain.
pub open spec fn field_ok(s: Seq<u8>) -> bool {
    &&& s.len() == NUM_FIELD_LEN as int
    &&& (s[0] == 43 || s[0] == 45)
    &&& is_digit(s[1])
    &&& is_digit(s[2])
    &&& is_digit(s[3])
    &&& is_digit(s[4])
    &&& is_digit(s[5])
    &&& i16::MIN <= field_value(s) <= i16::MAX
}

/// A well-formed flag byte: ASCII `0` or `1`.
pub open spec fn flag_ok(b: u8) -> bool {
    b == 48 || b == 49
}

/// A structured body parses exactly when it has the full delimited length,
/// its four number fields are well formed, and its two flag bytes are `0` or
/// `1`; the trailing padding may hold anything.
pub open spec fn structured_ok(p: Seq<u8>) -> bool {
    &&& p.len() == DELIMITED_PAYLOAD_LEN as int
    &&& field_ok(field_at(p, ANGLE_POS as int))
    &&& field_ok(field_at(p, OFFSET_POS as int))
    &&& flag_ok(p[FLAG0_POS as int])
    &&& flag_ok(p[FLAG1_POS as int])
    &&& field_ok(field_at(p, CHAN0_POS as int))
    &&& field_ok(field_at(p, CHAN1_POS as int))
}

/// Parse the number field starting at `start`: some value exactly when the
/// field is well formed.
fn parse_field(payload: &Vec<u8>, start: usize) -> (r: Option<i16>)
    requires
        start + NUM_FIELD_LEN <= payload@.len(),
        start + NUM_FIELD_LEN <= usize::MAX,
    ensures
        (r is Some) <==> field_ok(field_at(payload@, start as int)),
        r matches Some(v) ==> v as int == field_value(field_at(payload@, start as int)),
{
    let sign = payload[start];
    if sign != 43 && sign != 45 {
        return None;
    }
    let b1 = payload[start + 1];
    let b2 = payload[start + 2];
    let b3 = payload[start + 3];
    let b4 = payload[start + 4];
    let b5 = payload[start + 5];
    if b1 < 48 || b1 > 57 || b2 < 48 || b2 > 57 || b3 < 48 || b3 > 57 || b4 < 48 || b4 > 57 || b5
        < 48 || b5 > 57 {
        return None;
    }
    let magnitude: i32 = 10000 * (b1 - 48) as i32 + 1000 * (b2 - 48) as i32 + 100 * (b3
        - 48) as i32 + 10 * (b4 - 48) as i32 + (b5 - 48) as i32;
    let value: i32 = if sign == 45 {
        -magnitude
    } else {
        magnitude
    };
    if value < i16::MIN as i32 || value > i16::MAX as i32 {
        return None;
    }
    Some(value as i16)
}

/// Decode the structured text shape at its fixed field offsets; a malformed
/// body is a decode fault and nothing more.
pub fn decode_structured(payload: &Vec<u8>) -> (r: Result<StructuredRecord, Fault>)
    ensures
        (r is Ok) <==> structured_ok(payload@),
        r matches Ok(rec) ==> {
            &&& rec.angle as int == field_value(field_at(payload@, ANGLE_POS as int))
            &&& rec.offset as int == field_value(field_at(payload@, OFFSET_POS as int))
            &&& rec.flag0 == (payload@[FLAG0_POS as int] == 49)
            &&& rec.flag1 == (payload@[FLAG1_POS as int] == 49)
            &&& rec.chan0 as int == field_value(field_at(payload@, CHAN0_POS as int))
            &&& rec.chan1 as int == field_value(field_at(payload@, CHAN1_POS as int))
        },
        r matches Err(f) ==> f.stage == FaultStage::Decode,
{
    if payload.len() != DELIMITED_PAYLOAD_LEN {
        return Err(Fault::malformed_payload());
    }
    let angle = match parse_field(payload, ANGLE_POS) {
        Some(v) => v,
        None => { return Err(Fault::malformed_payload()); },
    };
    let offset = match parse_field(payload, OFFSET_POS) {
        Some(v) => v,
        None => { return Err(Fault::malformed_payload()); },
    };
    let f0 = payload[FLAG0_POS];
    let f1 = payload[FLAG1_POS];
    if (f0 != 48 && f0 != 49) || (f1 != 48 && f1 != 49) {
        return Err(Fault::malformed_payload());
    }
    let chan0 = match parse_field(payload, CHAN0_POS) {
        Some(v) => v,
        None => { return Err(Fault::malformed_payload()); },
    };
    let chan1 = match parse_field(payload, CHAN1_POS) {
        Some(v) => v,
        None => { return Err(Fault::malformed_payload()); },
    };
    Ok(
        StructuredRecord {
            angle,
            offset,
            flag0: f0 == 49,
            flag1: f1 == 49,
            chan0,
            chan1,
        },
    )
}

// ---------------------------------------------------------------------------
// Strategy-polymorphic decode
// ---------------------------------------------------------------------------

/// Whether a payload decodes under the given strategy.
pub open spec fn spec_decode_ok(strategy: FrameStrategy, p: Seq<u8>) -> bool {
    match strategy {
        FrameStrategy::FixedWidth => p.len() == FIXED_PAYLOAD_LEN as int,
        FrameStrategy::Delimited => structured_ok(p),
    }
}

/// The scalar error a decodable payload carries.
pub open spec fn spec_error(strategy: FrameStrategy, p: Seq<u8>) -> int {
    match strategy {
        FrameStrategy::FixedWidth => raw_error(p),
        FrameStrategy::Delimited => field_value(field_at(p, OFFSET_POS as int)),
    }
}

/// The first direction flag a decodable payload carries.
pub open spec fn spec_flag0(strategy: FrameStrategy, p: Seq<u8>) -> bool {
    match strategy {
        FrameStrategy::FixedWidth => p[0] == FLAG_SENTINEL,
        FrameStrategy::Delimited => p[FLAG0_POS as int] == 49,
    }
}

/// The second direction flag a decodable payload carries.
pub open spec fn spec_flag1(strategy: FrameStrategy, p: Seq<u8>) -> bool {
    match strategy {
        FrameStrategy::FixedWidth => p[1] == FLAG_SENTINEL,
        FrameStrategy::Delimited => p[FLAG1_POS as int] == 49,
    }
}

/// Decode a payload under the configured strategy into the unified
/// positional-error record: a payload decodes exactly when its wire shape
/// parses, the error always lies in the signed 16-bit domain, and a failure
/// is a decode fault with no other effect.
pub fn decode(strategy: FrameStrategy, payload: &Vec<u8>) -> (r: Result<TelemetryRecord, Fault>)
    ensures
        (r is Ok) <==> spec_decode_ok(strategy, payload@),
        r matches Ok(t) ==> {
            &&& t.error as int == spec_error(strategy, payload@)
            &&& t.flag0 == spec_flag0(strategy, payload@)
            &&& t.flag1 == spec_flag1(strategy, payload@)
            &&& ERROR_FLOOR <= t.error <= ERROR_CEIL
        },
        r matches Err(f) ==> f.stage == FaultStage::Decode,
{
    match strategy {
        FrameStrategy::FixedWidth => decode_raw(payload),
        FrameStrategy::Delimited => {
            match decode_structured(payload) {
                Ok(rec) => Ok(
                    TelemetryRecord {
                        error: rec.offset as i32,
                        flag0: rec.flag0,
                        flag1: rec.flag1,
                    },
                ),
                Err(f) => Err(f),
            }
        },
    }
}

} // verus!
