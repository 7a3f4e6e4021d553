use vstd::prelude::*;
use crate::device::PairedDevice;
use crate::input::InputError;

verus! {

/// Name of the outside utility that controls Bluetooth.
pub const TOOL_NAME: &'static str = "blueutil";

/// What the user can do with the chosen device.
#[derive(Clone, Copy, Debug, PartialEq, Eq, Structural)]
pub enum Action {
    /// Action one: connect a disconnected device, disconnect a connected one.
    Toggle,
    /// Action zero: forget the device.
    Forget,
}

/// The change that is asked of the outside utility.
#[derive(Clone, Copy, Debug, PartialEq, Eq, Structural)]
pub enum Operation {
    Connect,
    Disconnect,
    Unpair,
}

/// One change to one device.
#[derive(Debug)]
pub struct Request {
    pub operation: Operation,
    pub address: String,
}

/// The action that a menu code names, if any.
pub open spec fn action_of(code: usize) -> Option<Action> {
    if code == 1 {
        Some(Action::Toggle)
    } else if code == 0 {
        Some(Action::Forget)
    } else {
        None
    }
}

/// The operation that an action means for a device in the given state.
pub open spec fn operation_of(connected: bool, action: Action) -> Operation {
    match action {
        Action::Toggle => if connected {
            Operation::Disconnect
        } else {
            Operation::Connect
        },
        Action::Forget => Operation::Unpair,
    }
}

/// The command-line flag of an operation.
pub open spec fn flag_of(op: Operation) -> Seq<char> {
    match op {
        Operation::Connect => "--connect"@,
        Operation::Disconnect => "--disconnect"@,
        Operation::Unpair => "--unpair"@,
    }
}

/// The line printed once an operation was carried out.
pub open spec fn confirmation_of(op: Operation) -> Seq<char> {
    match op {
        Operation::Connect => "Successfully connected."@,
        Operation::Disconnect => "Successfully disconnected."@,
        Operation::Unpair => "Successfully unpaired"@,
    }
}

/// The line printed when the utility reported that a change failed.
pub open spec fn failure_notice() -> Seq<char> {
    "Warning: the change was not confirmed by the Bluetooth utility"@
}

/// Reads an action code from the action menu.
pub fn parse_action(code: usize) -> (r: Result<Action, InputError>)
    ensures
        action_of(code) matches Some(a) ==> r == Ok::<Action, InputError>(a),
        action_of(code) is None ==> (r matches Err(InputError::InvalidAction { code: c }) && c
            == code),
{
    if code == 1 {
        Ok(Action::Toggle)
    } else if code == 0 {
        Ok(Action::Forget)
    } else {
        Err(InputError::InvalidAction { code })
    }
}

/// The request that carries out `action` on `device`.
pub fn plan_request(device: &PairedDevice, action: Action) -> (r: Request)
    ensures
        r.operation == operation_of(device.connected, action),
        r.address == device.address,
{
    let operation = match action {
        Action::Toggle => if device.connected {
            Operation::Disconnect
        } else {
            Operation::Connect
        },
        Action::Forget => Operation::Unpair,
    };
    Request { operation, address: device.address.clone() }
}

/// The request that the action code `code` asks for on `device`.
pub fn request_for(device: &PairedDevice, code: usize) -> (r: Result<Request, InputError>)
    ensures
        code == 1 && device.connected ==> (r matches Ok(q) && q.operation == Operation::Disconnect
            && q.address == device.address),
        code == 1 && !device.connected ==> (r matches Ok(q) && q.operation == Operation::Connect
            && q.address == device.address),
        code == 0 ==> (r matches Ok(q) && q.operation == Operation::Unpair && q.address
            == device.address),
        code > 1 ==> (r matches Err(InputError::InvalidAction { code: c }) && c == code),
{
    match parse_action(code) {
        Ok(action) => Ok(plan_request(device, action)),
        Err(e) => Err(e),
    }
}

/// Arguments that ask the utility whether it is installed and runs.
pub fn probe_arguments() -> (r: Vec<String>)
    ensures
        r@.len() == 1,
        r@[0]@ == "--version"@,
{
    let mut args: Vec<String> = Vec::new();
    args.push("--version".to_owned());
    args
}

/// Arguments that ask the utility for the paired devices as JSON.
pub fn list_arguments() -> (r: Vec<String>)
    ensures
        r@.len() == 3,
        r@[0]@ == "--paired"@,
        r@[1]@ == "--format"@,
        r@[2]@ == "json"@,
{
    let mut args: Vec<String> = Vec::new();
    args.push("--paired".to_owned());
    args.push("--format".to_owned());
    args.push("json".to_owned());
    args
}

impl Operation {
    /// The command-line flag that asks the utility for this operation.
    pub fn flag(&self) -> (r: String)
        ensures
            r@ == flag_of(*self),
    {
        match self {
            Operation::Connect => "--connect".to_owned(),
            Operation::Disconnect => "--disconnect".to_owned(),
            Operation::Unpair => "--unpair".to_owned(),
        }
    }

    /// What is printed once the operation was carried out, or a warning
    /// where the utility reported a failure.
    pub fn report(&self, succeeded: bool) -> (r: String)
        ensures
            succeeded ==> r@ == confirmation_of(*self),
            !succeeded ==> r@ == failure_notice(),
    {
        if !succeeded {
            return "Warning: the change was not confirmed by the Bluetooth utility".to_owned();
        }
        match self {
            Operation::Connect => "Successfully connected.".to_owned(),
            Operation::Disconnect => "Successfully disconnected.".to_owned(),
            Operation::Unpair => "Successfully unpaired".to_owned(),
        }
    }
}

impl Request {
    /// The utility's arguments for this request: the flag, then the address.
    pub fn arguments(&self) -> (r: Vec<String>)
        ensures
            r@.len() == 2,
            r@[0]@ == flag_of(self.operation),
            r@[1]@ == self.address@,
    {
        let mut args: Vec<String> = Vec::new();
        args.push(self.operation.flag());
        args.push(self.address.clone());
        args
    }
}

} // verus!
