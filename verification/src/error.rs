use vstd::prelude::*;
use vstd::string::*;

verus! {

/// The ways an operation of this library can fail.
#[derive(Clone, Copy, Debug, PartialEq, Eq, Structural)]
pub enum ScheduleError {
    /// A cache directory or file could not be created, written or read.
    IoError,
    /// The request did not complete, or the server answered without success.
    NetworkError,
    /// The document is not JSON, or lacks something the schema requires.
    MalformedResponse,
    /// No race of the season is held at the circuit asked for.
    CircuitNotFound,
}

impl ScheduleError {
    /// Whether the failure comes from the machinery (disk, network, document)
    /// rather than from what the user asked for.
    pub open spec fn infrastructure(self) -> bool {
        self != ScheduleError::CircuitNotFound
    }

    /// Tells the one expected failure, an unknown circuit, from the fatal ones.
    pub fn is_infrastructure(&self) -> (r: bool)
        ensures
            r == self.infrastructure(),
    {
        match self {
            ScheduleError::CircuitNotFound => false,
            _ => true,
        }
    }

    /// The text shown to the user for this failure.
    pub open spec fn message_text(self) -> Seq<char> {
        match self {
            ScheduleError::IoError => "Cache I/O failed"@,
            ScheduleError::NetworkError => "Network request failed"@,
            ScheduleError::MalformedResponse => "Malformed response"@,
            ScheduleError::CircuitNotFound => "Circuit not found"@,
        }
    }

    /// Writes the text shown to the user for this failure.
    pub fn message(&self) -> (r: String)
        ensures
            r@ == self.message_text(),
    {
        match self {
            ScheduleError::IoError => String::from_str("Cache I/O failed"),
            ScheduleError::NetworkError => String::from_str("Network request failed"),
            ScheduleError::MalformedResponse => String::from_str("Malformed response"),
            ScheduleError::CircuitNotFound => String::from_str("Circuit not found"),
        }
    }
}

} // verus!
