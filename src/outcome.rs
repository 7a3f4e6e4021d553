use vstd::prelude::*;
use crate::input::InputError;

verus! {

/// Exit status when the utility is not installed or cannot be started.
pub const EXIT_TOOL_MISSING: i32 = 127;

/// Exit status when the utility's device list cannot be read.
pub const EXIT_BAD_DATA: i32 = 65;

/// Exit status when a typed answer cannot be used.
pub const EXIT_BAD_INPUT: i32 = 64;

/// How the probe run of the utility went.
pub enum ProbeResult {
    /// The process could not be started.
    NotStarted,
    /// The process ran to its end.
    Finished { success: bool, code: Option<i32>, stderr: String },
}

/// Why a run of the menu stops early.
#[derive(Debug)]
pub enum Failure {
    /// The utility is missing or cannot be run.
    ToolMissing,
    /// The utility ran and reported failure; its error text is relayed.
    ToolFailed { code: i32, stderr: String },
    /// The utility's device list is not well-formed device data.
    Undecodable { detail: String },
    /// A typed answer cannot be used.
    Input(InputError),
}

/// The status that relays the utility's own, or one where it has none.
pub open spec fn relayed_code(code: Option<i32>) -> i32 {
    match code {
        Some(c) => if c != 0 {
            c
        } else {
            1
        },
        None => 1,
    }
}

/// The exit status that a failure ends the run with.
pub open spec fn exit_code_of(f: Failure) -> i32 {
    match f {
        Failure::ToolMissing => EXIT_TOOL_MISSING,
        Failure::ToolFailed { code, .. } => code,
        Failure::Undecodable { .. } => EXIT_BAD_DATA,
        Failure::Input(_) => EXIT_BAD_INPUT,
    }
}

/// What the probe run means for the rest of the run.
pub open spec fn probe_verdict(p: ProbeResult) -> Result<(), Failure> {
    match p {
        ProbeResult::NotStarted => Err(Failure::ToolMissing),
        ProbeResult::Finished { success, code, stderr } => if success {
            Ok(())
        } else {
            Err(Failure::ToolFailed { code: relayed_code(code), stderr })
        },
    }
}

/// The run goes on after the probe only where the utility ran and succeeded.
pub fn check_probe(probe: ProbeResult) -> (r: Result<(), Failure>)
    ensures
        r == probe_verdict(probe),
{
    match probe {
        ProbeResult::NotStarted => Err(Failure::ToolMissing),
        ProbeResult::Finished { success, code, stderr } => {
            if success {
                Ok(())
            } else {
                let status: i32 = match code {
                    Some(c) => if c != 0 {
                        c
                    } else {
                        1
                    },
                    None => 1,
                };
                Err(Failure::ToolFailed { code: status, stderr })
            }
        },
    }
}

/// Every failure but a relayed one ends the run with a non-zero status, and
/// the failure that a probe yields, the relayed one included, does too: a
/// utility that cannot be started stops the run before anything is listed.
pub proof fn lemma_failures_exit_nonzero(f: Failure, p: ProbeResult)
    ensures
        !(f is ToolFailed) ==> exit_code_of(f) != 0,
        probe_verdict(p) matches Err(g) ==> exit_code_of(g) != 0,
        p is NotStarted ==> probe_verdict(p) == Err::<(), Failure>(Failure::ToolMissing),
{
}

/// The text shown for an unusable answer.
pub open spec fn input_message_of(e: InputError) -> Seq<char> {
    match e {
        InputError::Empty => "no number was typed"@,
        InputError::NotANumber => "the answer is not a number"@,
        InputError::TooLarge => "the number is too large"@,
        InputError::OutOfRange { .. } => "there is no device with that number"@,
        InputError::InvalidAction { .. } => "there is no action with that number"@,
    }
}

/// The text shown when a run stops early.
pub open spec fn message_of(f: Failure) -> Seq<char> {
    match f {
        Failure::ToolMissing => "blueutil is not installed or cannot be run"@,
        Failure::ToolFailed { stderr, .. } => stderr@,
        Failure::Undecodable { detail } => "blueutil returned device data that cannot be read: "@
            + detail@,
        Failure::Input(e) => input_message_of(e),
    }
}

impl InputError {
    /// Describes the error for the user.
    pub fn message(&self) -> (r: String)
        ensures
            r@ == input_message_of(*self),
    {
        match self {
            InputError::Empty => "no number was typed".to_owned(),
            InputError::NotANumber => "the answer is not a number".to_owned(),
            InputError::TooLarge => "the number is too large".to_owned(),
            InputError::OutOfRange { .. } => "there is no device with that number".to_owned(),
            InputError::InvalidAction { .. } => "there is no action with that number".to_owned(),
        }
    }
}

impl Failure {
    /// The exit status of the process.
    pub fn exit_code(&self) -> (r: i32)
        ensures
            r == exit_code_of(*self),
    {
        match self {
            Failure::ToolMissing => EXIT_TOOL_MISSING,
            Failure::ToolFailed { code, .. } => *code,
            Failure::Undecodable { .. } => EXIT_BAD_DATA,
            Failure::Input(_) => EXIT_BAD_INPUT,
        }
    }

    /// Describes the failure for the error stream.
    pub fn message(&self) -> (r: String)
        ensures
            r@ == message_of(*self),
    {
        match self {
            Failure::ToolMissing => "blueutil is not installed or cannot be run".to_owned(),
            Failure::ToolFailed { stderr, .. } => stderr.clone(),
            Failure::Undecodable { detail } => {
                let mut text = "blueutil returned device data that cannot be read: ".to_owned();
                text.append(detail.as_str());
                text
            },
            Failure::Input(e) => e.message(),
        }
    }
}

} // verus!
