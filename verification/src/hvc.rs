//! Command lines for, and output parsing of, the `hvc` VM-control utility.
//!
//! Only the pure halves live here: each function either computes the exact
//! argument list for one `hvc` invocation or parses what the utility printed.
//! Launching the process belongs to the caller.

use vstd::prelude::*;

use crate::powershell::spec_words;

verus! {

/// Hyper-V VM state as reported by hvc.
#[derive(Debug, Clone, Copy, PartialEq, Eq, Structural)]
pub enum VmState {
    /// The VM is powered off.
    Off,
    /// The VM is powered on.
    On,
    /// The VM is powering on.
    Starting,
    /// The VM is powering off.
    Stopping,
    /// The VM has been saved.
    Saved,
    /// The VM has been paused.
    Paused,
    /// The VM is being reset.
    Resetting,
    /// The VM is saving.
    Saving,
    /// The VM is pausing.
    Pausing,
    /// The VM is resuming.
    Resuming,
}

/// The state named by one line of hvc output, if any.
pub open spec fn spec_parse_vm_state(s: Seq<char>) -> Option<VmState> {
    if s == "off"@ {
        Some(VmState::Off)
    } else if s == "on"@ {
        Some(VmState::On)
    } else if s == "starting"@ {
        Some(VmState::Starting)
    } else if s == "stopping"@ {
        Some(VmState::Stopping)
    } else if s == "saved"@ {
        Some(VmState::Saved)
    } else if s == "paused"@ {
        Some(VmState::Paused)
    } else if s == "resetting"@ {
        Some(VmState::Resetting)
    } else if s == "saving"@ {
        Some(VmState::Saving)
    } else if s == "pausing"@ {
        Some(VmState::Pausing)
    } else if s == "resuming"@ {
        Some(VmState::Resuming)
    } else {
        None
    }
}

/// Parses the state word hvc prints; an unknown word is no state.
pub fn parse_vm_state(s: &str) -> (r: Option<VmState>)
    ensures
        r == spec_parse_vm_state(s@),
{
    let t = String::from_str(s);
    if t == String::from_str("off") {
        Some(VmState::Off)
    } else if t == String::from_str("on") {
        Some(VmState::On)
    } else if t == String::from_str("starting") {
        Some(VmState::Starting)
    } else if t == String::from_str("stopping") {
        Some(VmState::Stopping)
    } else if t == String::from_str("saved") {
        Some(VmState::Saved)
    } else if t == String::from_str("paused") {
        Some(VmState::Paused)
    } else if t == String::from_str("resetting") {
        Some(VmState::Resetting)
    } else if t == String::from_str("saving") {
        Some(VmState::Saving)
    } else if t == String::from_str("pausing") {
        Some(VmState::Pausing)
    } else if t == String::from_str("resuming") {
        Some(VmState::Resuming)
    } else {
        None
    }
}

/// The argument list of one single-verb hvc invocation against one VM.
fn hvc_args(verb: &str, vm: &str) -> (r: Vec<String>)
    ensures
        spec_words(r@) == seq![verb@, vm@],
{
    let mut r: Vec<String> = Vec::new();
    r.push(String::from_str(verb));
    r.push(String::from_str(vm));
    proof {
        assert(spec_words(r@) =~= seq![verb@, vm@]);
    }
    r
}

/// The hvc command line starting the named VM.
pub fn hvc_start(vm: &str) -> (r: Vec<String>)
    ensures
        spec_words(r@) == seq!["start"@, vm@],
{
    hvc_args("start", vm)
}

/// The hvc command line gracefully stopping the named VM.
pub fn hvc_stop(vm: &str) -> (r: Vec<String>)
    ensures
        spec_words(r@) == seq!["stop"@, vm@],
{
    hvc_args("stop", vm)
}

/// The hvc command line killing the named VM.
pub fn hvc_kill(vm: &str) -> (r: Vec<String>)
    ensures
        spec_words(r@) == seq!["kill"@, vm@],
{
    hvc_args("kill", vm)
}

/// The hvc command line gracefully restarting the named VM.
pub fn hvc_restart(vm: &str) -> (r: Vec<String>)
    ensures
        spec_words(r@) == seq!["restart"@, vm@],
{
    hvc_args("restart", vm)
}

/// The hvc command line hard-resetting the named VM.
pub fn hvc_reset(vm: &str) -> (r: Vec<String>)
    ensures
        spec_words(r@) == seq!["reset"@, vm@],
{
    hvc_args("reset", vm)
}

/// The hvc command line querying the named VM's state; its output is read
/// back with [`parse_vm_state`].
pub fn hvc_state(vm: &str) -> (r: Vec<String>)
    ensures
        spec_words(r@) == seq!["state"@, vm@],
{
    hvc_args("state", vm)
}

} // verus!
