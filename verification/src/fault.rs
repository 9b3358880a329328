//! Fault taxonomy of the control loop. Every fault is locally recovered: it is
//! handed to the caller for rendering on the diagnostic surface and the loop
//! moves on to the next cycle; nothing here halts the vehicle.

use vstd::prelude::*;

verus! {

/// The stage of the pipeline at which a cycle went wrong.
#[derive(Clone, Copy, Debug, PartialEq, Eq, Structural)]
pub enum FaultStage {
    /// A channel byte read failed.
    Read,
    /// Frame synchronization was lost (delimited framing only).
    Frame,
    /// The payload did not parse to a valid telemetry record.
    Decode,
}

/// A tagged fault record. It exists only long enough to be rendered and never
/// carries control flow: the cycle that produced it is abandoned and the loop
/// resumes.
#[derive(Debug)]
pub struct Fault {
    /// Where in the pipeline the cycle failed.
    pub stage: FaultStage,
    /// Human-readable text for the diagnostic surface.
    pub detail: String,
}

impl Fault {
    /// A channel byte read failed.
    pub fn read_failure() -> (f: Fault)
        ensures
            f.stage == FaultStage::Read,
    {
        Fault { stage: FaultStage::Read, detail: "telemetry byte read failed".to_owned() }
    }

    /// Frame synchronization was lost: the delimited stream dried up before a
    /// sentinel byte was seen.
    pub fn sync_lost() -> (f: Fault)
        ensures
            f.stage == FaultStage::Frame,
    {
        Fault { stage: FaultStage::Frame, detail: "frame synchronization lost".to_owned() }
    }

    /// The payload did not parse to a valid telemetry record.
    pub fn malformed_payload() -> (f: Fault)
        ensures
            f.stage == FaultStage::Decode,
    {
        Fault { stage: FaultStage::Decode, detail: "telemetry payload malformed".to_owned() }
    }
}

} // verus!
