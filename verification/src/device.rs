use vstd::prelude::*;
use vstd::string::*;
use crate::errors::DeviceError;
use crate::text::str_eq;

verus! {

/// How to reach and log into a device.
pub struct DeviceConfig {
    pub arch: String,
    pub ip_address: String,
    pub username: String,
    pub password: String,
}

impl DeviceConfig {
    /// A copy equal to `self` in every field.
    pub fn duplicate(&self) -> (r: Self)
        ensures
            r == *self,
    {
        DeviceConfig {
            arch: self.arch.clone(),
            ip_address: self.ip_address.clone(),
            username: self.username.clone(),
            password: self.password.clone(),
        }
    }
}

/// A network-attached target machine. The live remote-shell handle it owns
/// at run time is managed outside the verified core; here a device is its
/// identity and how to reach it.
pub struct Device {
    pub name: String,
    pub config: DeviceConfig,
}

impl Device {
    pub fn new(name: String, arch: String, ip: String, username: String, password: String) -> (r:
        Self)
        ensures
            r.name == name,
            r.config.arch == arch,
            r.config.ip_address == ip,
            r.config.username == username,
            r.config.password == password,
    {
        Device { name, config: DeviceConfig { arch, ip_address: ip, username, password } }
    }

    /// A copy equal to `self` in every field.
    pub fn duplicate(&self) -> (r: Self)
        ensures
            r == *self,
    {
        Device { name: self.name.clone(), config: self.config.duplicate() }
    }
}

// ---------------------------------------------------------------------------
// Remote command outcomes and session decisions
// ---------------------------------------------------------------------------

/// What running one remote command came to: either the channel worked and
/// the command finished with an exit status and its captured output, or the
/// transport itself failed (connect, handshake, authentication, or channel
/// loss).
pub enum CmdOutcome {
    Completed { exit_status: i32, stdout: String, stderr: String },
    Transport { detail: String },
}

/// A command counts as having succeeded only when the channel worked and
/// the remote exit status was zero.
pub open spec fn cmd_succeeded(o: CmdOutcome) -> bool {
    o matches CmdOutcome::Completed { exit_status, .. } && exit_status == 0
}

/// Whether the liveness probe (a trivial remote command) shows the cached
/// session usable.
pub fn session_is_live(probe: &CmdOutcome) -> (r: bool)
    ensures
        r == cmd_succeeded(*probe),
{
    match probe {
        CmdOutcome::Completed { exit_status, .. } => *exit_status == 0,
        CmdOutcome::Transport { .. } => false,
    }
}

/// What to do with a device's cached session.
#[derive(Debug, Clone, Copy, PartialEq, Eq, Structural)]
pub enum SessionPlan {
    Reuse,
    Recreate,
}

/// A cached session is reused exactly when it exists and its liveness probe
/// succeeded; otherwise it is torn down and created afresh.
pub fn plan_session(has_session: bool, probe_ok: bool) -> (r: SessionPlan)
    ensures
        (r == SessionPlan::Reuse) <==> (has_session && probe_ok),
{
    if has_session && probe_ok {
        SessionPlan::Reuse
    } else {
        SessionPlan::Recreate
    }
}

/// Whether `r` reports exactly what `outcome` describes for the command
/// `cmd`: a zero exit hands the captured output back, a non-zero exit
/// becomes a remote-command error carrying command, status and stderr, a
/// transport failure is surfaced as such.
pub open spec fn outcome_result(
    r: Result<String, DeviceError>,
    cmd: Seq<char>,
    outcome: CmdOutcome,
) -> bool {
    match outcome {
        CmdOutcome::Completed { exit_status, stdout, stderr } => {
            if exit_status == 0 {
                r matches Ok(out) && out@ == stdout@
            } else {
                r matches Err(DeviceError::SshError { command, exit_status: e, stderr: s })
                    && command@ == cmd && e == exit_status && s@ == stderr@
            }
        },
        CmdOutcome::Transport { detail } => {
            r matches Err(DeviceError::Ssh2Error(d)) && d@ == detail@
        },
    }
}

/// Classifies what one remote command execution came to, as the session
/// manager reports it: success hands the captured output back, a non-zero
/// exit status is its own failure kind, distinct from a transport failure,
/// and neither is swallowed.
pub fn command_result(cmd: String, outcome: CmdOutcome) -> (r: Result<String, DeviceError>)
    ensures
        outcome_result(r, cmd@, outcome),
{
    match outcome {
        CmdOutcome::Completed { exit_status, stdout, stderr } => {
            if exit_status == 0 {
                Ok(stdout)
            } else {
                Err(DeviceError::SshError { command: cmd, exit_status, stderr })
            }
        },
        CmdOutcome::Transport { detail } => Err(DeviceError::Ssh2Error(detail)),
    }
}

// ---------------------------------------------------------------------------
// Device registry
// ---------------------------------------------------------------------------

pub open spec fn registry_contains(s: Seq<Device>, name: Seq<char>) -> bool {
    exists|i: int| 0 <= i < s.len() && s[i].name@ == name
}

pub open spec fn registry_index(s: Seq<Device>, name: Seq<char>) -> int {
    choose|i: int| 0 <= i < s.len() && s[i].name@ == name
}

pub open spec fn registry_unique(s: Seq<Device>) -> bool {
    forall|i: int, j: int|
        0 <= i < s.len() && 0 <= j < s.len() && i != j ==> s[i].name@ != s[j].name@
}

/// An index holding `name` is the one `registry_index` denotes.
pub proof fn lemma_registry_index(s: Seq<Device>, name: Seq<char>, i: int)
    requires
        registry_unique(s),
        0 <= i < s.len(),
        s[i].name@ == name,
    ensures
        registry_contains(s, name),
        registry_index(s, name) == i,
{
    assert(registry_contains(s, name));
    let j = registry_index(s, name);
    assert(0 <= j < s.len() && s[j].name@ == name);
}

/// The in-memory table of known devices, keyed by unique device name.
pub struct DeviceRegistry {
    pub(crate) devices: Vec<Device>,
}

impl View for DeviceRegistry {
    type V = Seq<Device>;

    closed spec fn view(&self) -> Seq<Device> {
        self.devices@
    }
}

impl DeviceRegistry {
    pub closed spec fn wf(&self) -> bool {
        registry_unique(self@)
    }

    /// What `wf` guarantees of the table, for callers that hold only
    /// `wf()`: the device names are unique.
    pub proof fn lemma_wf_implies_unique(&self)
        requires
            self.wf(),
        ensures
            registry_unique(self@),
    {
    }

    /// An empty registry; entries are loaded from the external configuration
    /// source (or added explicitly) through `add_device`.
    pub fn new() -> (r: Self)
        ensures
            r.wf(),
            r@.len() == 0,
    {
        DeviceRegistry { devices: Vec::new() }
    }

    fn find_device(&self, name: &str) -> (r: Option<usize>)
        ensures
            match r {
                Some(i) => i < self@.len() && self@[i as int].name@ == name@,
                None => !registry_contains(self@, name@),
            },
    {
        let n = self.devices.len();
        let mut i: usize = 0;
        while i < n
            invariant
                n == self@.len(),
                i <= n,
                forall|k: int| 0 <= k < i ==> self@[k].name@ != name@,
            decreases n - i,
        {
            if str_eq(self.devices[i].name.as_str(), name) {
                return Some(i);
            }
            i += 1;
        }
        None
    }

    /// Inserts `device` under its name, replacing any entry of that name.
    pub fn add_device(&mut self, device: Device)
        requires
            old(self).wf(),
        ensures
            final(self).wf(),
            registry_contains(old(self)@, device.name@) ==> final(self)@ == old(self)@.update(
                registry_index(old(self)@, device.name@),
                device,
            ),
            !registry_contains(old(self)@, device.name@) ==> final(self)@ == old(self)@.push(
                device,
            ),
    {
        match self.find_device(device.name.as_str()) {
            Some(i) => {
                proof {
                    lemma_registry_index(old(self)@, device.name@, i as int);
                }
                self.devices[i] = device;
                assert(registry_unique(self@));
            },
            None => {
                self.devices.push(device);
                assert(registry_unique(self@));
            },
        }
    }

    /// The device registered under `device_name`, or a not-found error.
    pub fn get_device(&self, device_name: &str) -> (r: Result<&Device, DeviceError>)
        requires
            self.wf(),
        ensures
            registry_contains(self@, device_name@) ==> (r matches Ok(d) && *d == self@[
                registry_index(self@, device_name@)
            ]),
            !registry_contains(self@, device_name@) ==> (r matches Err(
                DeviceError::DeviceNotFound(n),
            ) && n@ == device_name@),
    {
        match self.find_device(device_name) {
            Some(i) => {
                proof {
                    lemma_registry_index(self@, device_name@, i as int);
                }
                Ok(&self.devices[i])
            },
            None => Err(DeviceError::DeviceNotFound(String::from_str(device_name))),
        }
    }
}

} // verus!
