//! Messages of the FTC Dashboard protocol that carry no numbers of their own: the opmode
//! commands and lists, and the status of the active opmode.

use vstd::prelude::*;

verus! {

/// Client -> Server packet: initialize the named opmode
#[derive(Debug, Clone, PartialEq, Eq)]
pub struct InitOpMode {
    pub op_mode_name: String,
}

/// Server -> Client packet giving us a list of opmodes
#[derive(Debug, Clone, PartialEq, Eq)]
pub struct ReceiveOpModeList {
    pub op_mode_list: Vec<String>,
}

/// The status of the active opmode, as the dashboard reports it
#[derive(Debug, Clone, Copy, PartialEq, Eq, Structural)]
pub enum OpModeStatus {
    Init,
    Running,
    Stopped,
}

impl Default for OpModeStatus {
    /// A freshly selected opmode is initializing.
    fn default() -> (s: OpModeStatus)
        ensures
            s == OpModeStatus::Init,
    {
        OpModeStatus::Init
    }
}

} // verus!
