//! Decision logic of an interactive menu for paired Bluetooth devices.
//!
//! The menu talks to an outside command-line utility. This library holds
//! everything that is decided between those calls: the order in which the
//! devices are listed, the lines that are printed, how a typed answer is read
//! and checked, which request follows from a chosen action, and how each
//! failure ends the run.
pub mod device;
pub mod text;
pub mod input;
pub mod action;
pub mod outcome;

pub use device::{PairedDevice, sort_devices};
pub use text::{menu_entry, menu_lines, selected_line, action_lines};
pub use input::{InputError, parse_number, read_number, select_device};
pub use action::{TOOL_NAME, Action, Operation, Request, parse_action, plan_request, request_for, probe_arguments, list_arguments};
pub use outcome::{EXIT_TOOL_MISSING, EXIT_BAD_DATA, EXIT_BAD_INPUT, ProbeResult, Failure, check_probe};
