//! Requests that act on systemd units over D-Bus: which `org.freedesktop.systemd1.Manager`
//! call each request makes, and how the manager's answers are read back.

use vstd::prelude::*;

use crate::text::chars_equal;
use crate::text::chars_of;

verus! {

/// The job mode every start, stop and restart uses: a conflicting queued job is replaced.
pub const JOB_MODE_REPLACE: &'static str = "replace";

/// A call on the systemd manager.
pub enum SystemdCall {
    GetUnit { name: String },
    StartUnit { name: String, mode: String },
    RestartUnit { name: String, mode: String },
    StopUnit { name: String, mode: String },
    EnableUnitFiles { files: Vec<String>, runtime: bool, force: bool },
    DisableUnitFiles { files: Vec<String>, runtime: bool },
}

pub open spec fn strings_view(v: Seq<String>) -> Seq<Seq<char>> {
    v.map_values(|s: String| s@)
}

fn clone_strings(v: &Vec<String>) -> (res: Vec<String>)
    ensures
        strings_view(res@) == strings_view(v@),
{
    let mut res: Vec<String> = Vec::new();
    let n = v.len();
    for i in 0..n
        invariant
            n == v@.len(),
            strings_view(res@) == strings_view(v@.take(i as int)),
    {
        res.push(v[i].clone());
        assert(strings_view(v@.take(i + 1)) =~= strings_view(v@.take(i as int)).push(v@[i as int]@));
        assert(strings_view(res@) =~= strings_view(v@.take(i as int)).push(v@[i as int]@));
    }
    assert(v@.take(n as int) =~= v@);
    res
}

/// `pi.dbus.org.freedesktop.systemd1.Manager.GetUnit`
#[derive(Clone, Debug)]
pub struct SystemdManagerGetUnitRequest {
    pub name: String,
}

/// `pi.dbus.org.freedesktop.systemd1.Manager.StartUnit`
#[derive(Clone, Debug)]
pub struct SystemdManagerStartUnitRequest {
    pub name: String,
}

/// `pi.dbus.org.freedesktop.systemd1.Manager.RestartUnit`
#[derive(Clone, Debug)]
pub struct SystemdManagerRestartUnitRequest {
    pub name: String,
}

/// `pi.dbus.org.freedesktop.systemd1.Manager.StopUnit`
#[derive(Clone, Debug)]
pub struct SystemdManagerStopUnitRequest {
    pub name: String,
}

/// `pi.dbus.org.freedesktop.systemd1.Manager.ReloadUnit`
#[derive(Clone, Debug)]
pub struct SystemdManagerReloadUnitRequest {
    pub name: String,
}

/// `pi.dbus.org.freedesktop.systemd1.Manager.EnableUnit`
#[derive(Clone, Debug)]
pub struct SystemdManagerEnableUnitRequest {
    pub files: Vec<String>,
}

/// The changes that enabling unit files made: `(type, file, destination)`.
#[derive(Clone, Debug)]
pub struct SystemdManagerEnableUnitReply {
    pub request: SystemdManagerEnableUnitRequest,
    pub changes: Vec<(String, String, String)>,
}

/// `pi.dbus.org.freedesktop.systemd1.Manager.DisableUnit`
#[derive(Clone, Debug)]
pub struct SystemdManagerDisableUnitRequest {
    pub files: Vec<String>,
}

/// The changes that disabling unit files made: `(type, file, destination)`.
#[derive(Clone, Debug)]
pub struct SystemdManagerDisableUnitReply {
    pub request: SystemdManagerDisableUnitRequest,
    pub changes: Vec<(String, String, String)>,
}

impl SystemdManagerGetUnitRequest {
    /// Looks the unit up by name.
    pub fn call(&self) -> (c: SystemdCall)
        ensures
            c matches SystemdCall::GetUnit { name } && name@ == self.name@,
    {
        SystemdCall::GetUnit { name: self.name.clone() }
    }
}

impl SystemdManagerStartUnitRequest {
    /// Starts the unit, replacing a conflicting queued job.
    pub fn call(&self) -> (c: SystemdCall)
        ensures
            c matches SystemdCall::StartUnit { name, mode } && name@ == self.name@ && mode@
                == JOB_MODE_REPLACE@,
    {
        SystemdCall::StartUnit { name: self.name.clone(), mode: JOB_MODE_REPLACE.to_owned() }
    }
}

impl SystemdManagerRestartUnitRequest {
    /// Restarts the unit, replacing a conflicting queued job.
    pub fn call(&self) -> (c: SystemdCall)
        ensures
            c matches SystemdCall::RestartUnit { name, mode } && name@ == self.name@ && mode@
                == JOB_MODE_REPLACE@,
    {
        SystemdCall::RestartUnit { name: self.name.clone(), mode: JOB_MODE_REPLACE.to_owned() }
    }
}

impl SystemdManagerStopUnitRequest {
    /// Stops the unit, replacing a conflicting queued job.
    pub fn call(&self) -> (c: SystemdCall)
        ensures
            c matches SystemdCall::StopUnit { name, mode } && name@ == self.name@ && mode@
                == JOB_MODE_REPLACE@,
    {
        SystemdCall::StopUnit { name: self.name.clone(), mode: JOB_MODE_REPLACE.to_owned() }
    }
}

impl SystemdManagerReloadUnitRequest {
    /// A reload is carried out as a restart of the unit (systemd refuses the
    /// reload job type for the units this serves), replacing a conflicting job.
    pub fn call(&self) -> (c: SystemdCall)
        ensures
            c matches SystemdCall::RestartUnit { name, mode } && name@ == self.name@ && mode@
                == JOB_MODE_REPLACE@,
    {
        SystemdCall::RestartUnit { name: self.name.clone(), mode: JOB_MODE_REPLACE.to_owned() }
    }
}

impl SystemdManagerEnableUnitRequest {
    /// Enables the unit files persistently, without forcing.
    pub fn call(&self) -> (c: SystemdCall)
        ensures
            c matches SystemdCall::EnableUnitFiles { files, runtime, force } && strings_view(
                files@,
            ) == strings_view(self.files@) && !runtime && !force,
    {
        SystemdCall::EnableUnitFiles { files: clone_strings(&self.files), runtime: false, force: false }
    }

    /// The reply holding this request and the changes the manager reported.
    pub fn reply(self, changes: Vec<(String, String, String)>) -> (r: SystemdManagerEnableUnitReply)
        ensures
            r.request.files == self.files,
            r.changes == changes,
    {
        SystemdManagerEnableUnitReply { request: self, changes }
    }
}

impl SystemdManagerDisableUnitRequest {
    /// Disables the unit files persistently.
    pub fn call(&self) -> (c: SystemdCall)
        ensures
            c matches SystemdCall::DisableUnitFiles { files, runtime } && strings_view(files@)
                == strings_view(self.files@) && !runtime,
    {
        SystemdCall::DisableUnitFiles { files: clone_strings(&self.files), runtime: false }
    }

    /// The reply holding this request and the changes the manager reported.
    pub fn reply(self, changes: Vec<(String, String, String)>) -> (r: SystemdManagerDisableUnitReply)
        ensures
            r.request.files == self.files,
            r.changes == changes,
    {
        SystemdManagerDisableUnitReply { request: self, changes }
    }
}

/// The state of a unit file, as `GetUnitFileState` reports it.
#[derive(Clone, Copy, Debug, PartialEq, Eq, Structural)]
pub enum SystemdUnitFileState {
    Enabled,
    EnabledMinusRuntime,
    Linked,
    LinkedMinusRuntime,
    Masked,
    MaskedMinusRuntime,
    Static,
    Disabled,
    Invalid,
}

/// The name systemd gives a unit file state.
pub open spec fn unit_file_state_name(s: SystemdUnitFileState) -> Seq<char> {
    match s {
        SystemdUnitFileState::Enabled => "enabled"@,
        SystemdUnitFileState::EnabledMinusRuntime => "enabled-runtime"@,
        SystemdUnitFileState::Linked => "linked"@,
        SystemdUnitFileState::LinkedMinusRuntime => "linked-runtime"@,
        SystemdUnitFileState::Masked => "masked"@,
        SystemdUnitFileState::MaskedMinusRuntime => "masked-runtime"@,
        SystemdUnitFileState::Static => "static"@,
        SystemdUnitFileState::Disabled => "disabled"@,
        SystemdUnitFileState::Invalid => "invalid"@,
    }
}

pub open spec fn is_unit_file_state_name(s: Seq<char>) -> bool {
    exists|st: SystemdUnitFileState| unit_file_state_name(st) == s
}

/// Reads the unit file state that the manager reported; only the nine states
/// above are read (another name stops the handler).
pub fn parse_unit_file_state(state: &str) -> (res: SystemdUnitFileState)
    requires
        is_unit_file_state_name(state@),
    ensures
        unit_file_state_name(res) == state@,
{
    let cs = chars_of(state);
    if chars_equal(&cs, "enabled") {
        SystemdUnitFileState::Enabled
    } else if chars_equal(&cs, "enabled-runtime") {
        SystemdUnitFileState::EnabledMinusRuntime
    } else if chars_equal(&cs, "linked") {
        SystemdUnitFileState::Linked
    } else if chars_equal(&cs, "linked-runtime") {
        SystemdUnitFileState::LinkedMinusRuntime
    } else if chars_equal(&cs, "masked") {
        SystemdUnitFileState::Masked
    } else if chars_equal(&cs, "masked-runtime") {
        SystemdUnitFileState::MaskedMinusRuntime
    } else if chars_equal(&cs, "static") {
        SystemdUnitFileState::Static
    } else if chars_equal(&cs, "disabled") {
        SystemdUnitFileState::Disabled
    } else {
        assert(state@ == "invalid"@) by {
            let st = choose|st: SystemdUnitFileState| unit_file_state_name(st) == state@;
            assert(unit_file_state_name(st) == state@);
        }
        SystemdUnitFileState::Invalid
    }
}

/// The kind of change a unit file operation made.
#[derive(Clone, Copy, Debug, PartialEq, Eq, Structural)]
pub enum SystemdUnitChangeState {
    Symlink,
    Unlink,
}

/// One change a unit file operation made.
#[derive(Clone, Debug)]
pub struct SystemdUnitChange {
    pub change: SystemdUnitChangeState,
    pub file: String,
    pub destination: String,
}

/// The manager's change type is one the handler reads: `symlink` or `unlink`.
pub open spec fn is_change_type(t: Seq<char>) -> bool {
    t == "symlink"@ || t == "unlink"@
}

/// Reads the changes the manager reported, as `(type, file, destination)`. Both
/// `symlink` and `unlink` changes are reported as `Symlink`; other types stop the
/// handler and are outside the contract.
pub fn unit_changes(changes: &Vec<(String, String, String)>) -> (res: Vec<SystemdUnitChange>)
    requires
        forall|i: int| 0 <= i < changes@.len() ==> is_change_type(#[trigger] changes@[i].0@),
    ensures
        res@.len() == changes@.len(),
        forall|i: int|
            0 <= i < res@.len() ==> {
                &&& (#[trigger] res@[i]).change == SystemdUnitChangeState::Symlink
                &&& res@[i].file@ == changes@[i].1@
                &&& res@[i].destination@ == changes@[i].2@
            },
{
    let mut res: Vec<SystemdUnitChange> = Vec::new();
    let n = changes.len();
    for i in 0..n
        invariant
            n == changes@.len(),
            res@.len() == i,
            forall|k: int|
                0 <= k < i ==> {
                    &&& (#[trigger] res@[k]).change == SystemdUnitChangeState::Symlink
                    &&& res@[k].file@ == changes@[k].1@
                    &&& res@[k].destination@ == changes@[k].2@
                },
    {
        let (_, file, destination) = &changes[i];
        res.push(
            SystemdUnitChange {
                change: SystemdUnitChangeState::Symlink,
                file: file.clone(),
                destination: destination.clone(),
            },
        );
    }
    res
}

} // verus!
