use vstd::prelude::*;
use vstd::string::*;
use crate::device::{
    cmd_succeeded, registry_contains, registry_index, registry_unique, CmdOutcome, Device,
    DeviceRegistry, command_result,
};
use crate::deploy::{is_build_action, DeployAction, DeploySession, DeployStep};
use crate::errors::{DeviceError, ServiceError, ServiceManagerError};
use crate::text::{concat2, str_eq};

verus! {

/// The lifecycle states a service moves through.
#[derive(Debug, Clone, Copy, PartialEq, Eq, Structural)]
pub enum ServiceStatus {
    Created,
    Deployed,
    Running,
    Stopped,
}

impl ServiceStatus {
    /// The stringified state name, as the HTTP surface reports it.
    pub open spec fn spec_name(self) -> Seq<char> {
        match self {
            ServiceStatus::Created => "Created"@,
            ServiceStatus::Deployed => "Deployed"@,
            ServiceStatus::Running => "Running"@,
            ServiceStatus::Stopped => "Stopped"@,
        }
    }

    pub fn status_name(&self) -> (r: String)
        ensures
            r@ == self.spec_name(),
    {
        match self {
            ServiceStatus::Created => String::from_str("Created"),
            ServiceStatus::Deployed => String::from_str("Deployed"),
            ServiceStatus::Running => String::from_str("Running"),
            ServiceStatus::Stopped => String::from_str("Stopped"),
        }
    }
}

/// A named unit of deployable software bound to one device. The device entry
/// is a copy of the registry's record for it.
pub struct Service {
    pub name: String,
    pub status: ServiceStatus,
    pub enabled: bool,
    pub device: Device,
}

// ---------------------------------------------------------------------------
// The table of services, as a sequence with unique names
// ---------------------------------------------------------------------------

pub open spec fn unique_names(s: Seq<Service>) -> bool {
    forall|i: int, j: int|
        0 <= i < s.len() && 0 <= j < s.len() && i != j ==> s[i].name@ != s[j].name@
}

pub open spec fn contains_name(s: Seq<Service>, name: Seq<char>) -> bool {
    exists|i: int| 0 <= i < s.len() && s[i].name@ == name
}

pub open spec fn name_index(s: Seq<Service>, name: Seq<char>) -> int {
    choose|i: int| 0 <= i < s.len() && s[i].name@ == name
}

/// An index holding `name` is the one `name_index` denotes.
pub proof fn lemma_name_index(s: Seq<Service>, name: Seq<char>, i: int)
    requires
        unique_names(s),
        0 <= i < s.len(),
        s[i].name@ == name,
    ensures
        contains_name(s, name),
        name_index(s, name) == i,
{
    assert(contains_name(s, name));
    let j = name_index(s, name);
    assert(0 <= j < s.len() && s[j].name@ == name);
}

pub open spec fn with_status(svc: Service, st: ServiceStatus) -> Service {
    Service { status: st, ..svc }
}

pub open spec fn with_enabled(svc: Service, e: bool) -> Service {
    Service { enabled: e, ..svc }
}

/// The table after recording status `st` for the service called `name`.
pub open spec fn set_status_spec(s: Seq<Service>, name: Seq<char>, st: ServiceStatus) -> Seq<
    Service,
> {
    s.update(name_index(s, name), with_status(s[name_index(s, name)], st))
}

/// The table after recording autostart flag `e` for the service called `name`.
pub open spec fn set_enabled_spec(s: Seq<Service>, name: Seq<char>, e: bool) -> Seq<Service> {
    s.update(name_index(s, name), with_enabled(s[name_index(s, name)], e))
}

/// The table after removing the service called `name`.
pub open spec fn remove_spec(s: Seq<Service>, name: Seq<char>) -> Seq<Service> {
    s.remove(name_index(s, name))
}

// ---------------------------------------------------------------------------
// Error shapes, stated over views
// ---------------------------------------------------------------------------

pub open spec fn is_not_found_err<T>(r: Result<T, ServiceManagerError>, name: Seq<char>) -> bool {
    r matches Err(ServiceManagerError::ServiceError(ServiceError::ServiceNotFound(n))) && n@
        == name
}

pub open spec fn is_already_exists_err<T>(r: Result<T, ServiceManagerError>, name: Seq<char>) -> bool {
    r matches Err(ServiceManagerError::ServiceError(ServiceError::ServiceAlreadyExists(n))) && n@
        == name
}

pub open spec fn is_device_not_found_err<T>(r: Result<T, ServiceManagerError>, name: Seq<char>) -> bool {
    r matches Err(ServiceManagerError::DeviceError(DeviceError::DeviceNotFound(n))) && n@ == name
}

pub open spec fn is_status_err<T>(r: Result<T, ServiceManagerError>, msg: Seq<char>) -> bool {
    r matches Err(ServiceManagerError::ServiceError(ServiceError::ServiceStatusError(m))) && m@
        == msg
}

/// Whether `r` wraps exactly the device-level failure that `outcome`
/// describes for the remote command `cmd`.
pub open spec fn is_command_err<T>(
    r: Result<T, ServiceManagerError>,
    cmd: Seq<char>,
    outcome: CmdOutcome,
) -> bool {
    match outcome {
        CmdOutcome::Completed { exit_status, stderr, .. } => {
            exit_status != 0 && (r matches Err(
                ServiceManagerError::DeviceError(
                    DeviceError::SshError { command, exit_status: e, stderr: s },
                ),
            ) && command@ == cmd && e == exit_status && s@ == stderr@)
        },
        CmdOutcome::Transport { detail } => {
            r matches Err(ServiceManagerError::DeviceError(DeviceError::Ssh2Error(d))) && d@
                == detail@
        },
    }
}

// ---------------------------------------------------------------------------
// The remote commands the orchestrator issues
// ---------------------------------------------------------------------------

pub open spec fn start_cmd_spec(name: Seq<char>) -> Seq<char> {
    "sudo systemctl start "@ + name
}

pub open spec fn stop_cmd_spec(name: Seq<char>) -> Seq<char> {
    "sudo systemctl stop "@ + name
}

pub open spec fn enable_cmd_spec(name: Seq<char>) -> Seq<char> {
    "sudo systemctl enable "@ + name
}

pub open spec fn disable_cmd_spec(name: Seq<char>) -> Seq<char> {
    "sudo systemctl disable "@ + name
}

/// The bus topic namespace of one service, keyed by its name; a successful
/// start hands it back so the bus client is (re)subscribed to it.
pub open spec fn service_topic_spec(name: Seq<char>) -> Seq<char> {
    name
}

// ---------------------------------------------------------------------------
// The orchestrator
// ---------------------------------------------------------------------------

/// Owns the table of known services and their state machines. Every remote
/// effect is reported back to it as a `CmdOutcome` (or, for a deployment, as
/// the pipeline's overall result); it alone decides how the table changes.
pub struct ServiceManager {
    pub(crate) services: Vec<Service>,
    pub(crate) devices: DeviceRegistry,
}

impl View for ServiceManager {
    type V = Seq<Service>;

    closed spec fn view(&self) -> Seq<Service> {
        self.services@
    }
}

impl ServiceManager {
    pub closed spec fn devices_view(&self) -> Seq<Device> {
        self.devices@
    }

    pub closed spec fn wf(&self) -> bool {
        unique_names(self@) && self.devices.wf()
    }

    /// What `wf` guarantees of the two tables, for callers that hold only
    /// `wf()`: service names and device names are unique. This is what the
    /// public table laws ask for.
    pub proof fn lemma_wf_implies_unique(&self)
        requires
            self.wf(),
        ensures
            unique_names(self@),
            registry_unique(self.devices_view()),
    {
        self.devices.lemma_wf_implies_unique();
    }

    /// A manager with no services yet, over the given device registry.
    pub fn new(devices: DeviceRegistry) -> (r: Self)
        requires
            devices.wf(),
        ensures
            r.wf(),
            r@.len() == 0,
            r.devices_view() == devices@,
    {
        ServiceManager { services: Vec::new(), devices }
    }

    pub(crate) fn find_service(&self, name: &str) -> (r: Option<usize>)
        ensures
            match r {
                Some(i) => i < self@.len() && self@[i as int].name@ == name@,
                None => !contains_name(self@, name@),
            },
    {
        let n = self.services.len();
        let mut i: usize = 0;
        while i < n
            invariant
                n == self@.len(),
                i <= n,
                forall|k: int| 0 <= k < i ==> self@[k].name@ != name@,
            decreases n - i,
        {
            if str_eq(self.services[i].name.as_str(), name) {
                return Some(i);
            }
            i += 1;
        }
        None
    }

    /// Registers a new service in state Created, bound to the named device.
    /// Rejected when the name is taken or the device is unknown; the table
    /// is unchanged on any failure.
    pub fn create_service(&mut self, service_name: String, device_name: String) -> (r: Result<
        (),
        ServiceManagerError,
    >)
        requires
            old(self).wf(),
        ensures
            final(self).wf(),
            final(self).devices_view() == old(self).devices_view(),
            contains_name(old(self)@, service_name@) ==> final(self)@ == old(self)@
                && is_already_exists_err(r, service_name@),
            !contains_name(old(self)@, service_name@) && !registry_contains(
                old(self).devices_view(),
                device_name@,
            ) ==> final(self)@ == old(self)@ && is_device_not_found_err(r, device_name@),
            !contains_name(old(self)@, service_name@) && registry_contains(
                old(self).devices_view(),
                device_name@,
            ) ==> r is Ok && final(self)@ == old(self)@.push(
                Service {
                    name: service_name,
                    status: ServiceStatus::Created,
                    enabled: false,
                    device: old(self).devices_view()[registry_index(
                        old(self).devices_view(),
                        device_name@,
                    )],
                },
            ),
    {
        if let Some(_) = self.find_service(service_name.as_str()) {
            return Err(
                ServiceManagerError::ServiceError(ServiceError::ServiceAlreadyExists(service_name)),
            );
        }
        let device = match self.devices.get_device(device_name.as_str()) {
            Ok(d) => d.duplicate(),
            Err(e) => {
                return Err(ServiceManagerError::DeviceError(e));
            },
        };
        let service = Service {
            name: service_name,
            status: ServiceStatus::Created,
            enabled: false,
            device,
        };
        self.services.push(service);
        Ok(())
    }

    /// Every known service, in table order.
    pub fn get_services(&self) -> (r: &Vec<Service>)
        ensures
            r@ == self@,
    {
        &self.services
    }

    /// Drops the named service from the table; a name not present is left
    /// as-is. No remote teardown is attempted.
    pub fn remove_service(&mut self, service_name: &str)
        requires
            old(self).wf(),
        ensures
            final(self).wf(),
            final(self).devices_view() == old(self).devices_view(),
            contains_name(old(self)@, service_name@) ==> final(self)@ == remove_spec(
                old(self)@,
                service_name@,
            ),
            !contains_name(old(self)@, service_name@) ==> final(self)@ == old(self)@,
            !contains_name(final(self)@, service_name@),
    {
        match self.find_service(service_name) {
            Some(i) => {
                proof {
                    lemma_name_index(old(self)@, service_name@, i as int);
                }
                self.services.remove(i);
                proof {
                    assert forall|k: int| 0 <= k < self@.len() implies self@[k].name@
                        != service_name@ by {
                        if k < i {
                            assert(self@[k] == old(self)@[k]);
                        } else {
                            assert(self@[k] == old(self)@[k + 1]);
                        }
                    }
                }
            },
            None => {},
        }
    }

    /// The remote command a start would issue, after the same checks as
    /// `start_service`: the service must exist and must not already be
    /// Running.
    pub fn start_plan(&self, service_name: &str) -> (r: Result<String, ServiceManagerError>)
        requires
            self.wf(),
        ensures
            !contains_name(self@, service_name@) ==> is_not_found_err(r, service_name@),
            contains_name(self@, service_name@) && self@[name_index(self@, service_name@)].status
                == ServiceStatus::Running ==> is_status_err(r, "Service is already running"@),
            contains_name(self@, service_name@) && self@[name_index(self@, service_name@)].status
                != ServiceStatus::Running ==> (r matches Ok(cmd) && cmd@ == start_cmd_spec(
                service_name@,
            )),
    {
        match self.find_service(service_name) {
            None => Err(
                ServiceManagerError::ServiceError(
                    ServiceError::ServiceNotFound(String::from_str(service_name)),
                ),
            ),
            Some(i) => {
                proof {
                    lemma_name_index(self@, service_name@, i as int);
                }
                if self.services[i].status == ServiceStatus::Running {
                    Err(
                        ServiceManagerError::ServiceError(
                            ServiceError::ServiceStatusError(
                                String::from_str("Service is already running"),
                            ),
                        ),
                    )
                } else {
                    Ok(concat2("sudo systemctl start ", service_name))
                }
            },
        }
    }

    /// The remote command a stop would issue, after the same checks as
    /// `stop_service`: the service must exist and must not already be
    /// Stopped.
    pub fn stop_plan(&self, service_name: &str) -> (r: Result<String, ServiceManagerError>)
        requires
            self.wf(),
        ensures
            !contains_name(self@, service_name@) ==> is_not_found_err(r, service_name@),
            contains_name(self@, service_name@) && self@[name_index(self@, service_name@)].status
                == ServiceStatus::Stopped ==> is_status_err(r, "Service is already stopped"@),
            contains_name(self@, service_name@) && self@[name_index(self@, service_name@)].status
                != ServiceStatus::Stopped ==> (r matches Ok(cmd) && cmd@ == stop_cmd_spec(
                service_name@,
            )),
    {
        match self.find_service(service_name) {
            None => Err(
                ServiceManagerError::ServiceError(
                    ServiceError::ServiceNotFound(String::from_str(service_name)),
                ),
            ),
            Some(i) => {
                proof {
                    lemma_name_index(self@, service_name@, i as int);
                }
                if self.services[i].status == ServiceStatus::Stopped {
                    Err(
                        ServiceManagerError::ServiceError(
                            ServiceError::ServiceStatusError(
                                String::from_str("Service is already stopped"),
                            ),
                        ),
                    )
                } else {
                    Ok(concat2("sudo systemctl stop ", service_name))
                }
            },
        }
    }

    /// The remote command an enable would issue, after the existence check
    /// of `enable_service`.
    pub fn enable_plan(&self, service_name: &str) -> (r: Result<String, ServiceManagerError>)
        requires
            self.wf(),
        ensures
            !contains_name(self@, service_name@) ==> is_not_found_err(r, service_name@),
            contains_name(self@, service_name@) ==> (r matches Ok(cmd) && cmd@ == enable_cmd_spec(
                service_name@,
            )),
    {
        match self.find_service(service_name) {
            None => Err(
                ServiceManagerError::ServiceError(
                    ServiceError::ServiceNotFound(String::from_str(service_name)),
                ),
            ),
            Some(i) => {
                proof {
                    lemma_name_index(self@, service_name@, i as int);
                }
                Ok(concat2("sudo systemctl enable ", service_name))
            },
        }
    }

    /// The remote command a disable would issue, after the existence check
    /// of `disable_service`.
    pub fn disable_plan(&self, service_name: &str) -> (r: Result<String, ServiceManagerError>)
        requires
            self.wf(),
        ensures
            !contains_name(self@, service_name@) ==> is_not_found_err(r, service_name@),
            contains_name(self@, service_name@) ==> (r matches Ok(cmd) && cmd@ == disable_cmd_spec(
                service_name@,
            )),
    {
        match self.find_service(service_name) {
            None => Err(
                ServiceManagerError::ServiceError(
                    ServiceError::ServiceNotFound(String::from_str(service_name)),
                ),
            ),
            Some(i) => {
                proof {
                    lemma_name_index(self@, service_name@, i as int);
                }
                Ok(concat2("sudo systemctl disable ", service_name))
            },
        }
    }

    /// Records the outcome of the remote start command. Not-found and
    /// already-Running are rejected with the table unchanged; a successful
    /// command moves the service to Running and hands back the bus topic
    /// namespace to (re)subscribe the bus client to; a failed command
    /// changes nothing and surfaces the failure.
    pub fn start_service(&mut self, service_name: &str, outcome: CmdOutcome) -> (r: Result<
        String,
        ServiceManagerError,
    >)
        requires
            old(self).wf(),
        ensures
            final(self).wf(),
            final(self).devices_view() == old(self).devices_view(),
            !contains_name(old(self)@, service_name@) ==> final(self)@ == old(self)@
                && is_not_found_err(r, service_name@),
            contains_name(old(self)@, service_name@) && old(self)@[name_index(
                old(self)@,
                service_name@,
            )].status == ServiceStatus::Running ==> final(self)@ == old(self)@ && is_status_err(
                r,
                "Service is already running"@,
            ),
            contains_name(old(self)@, service_name@) && old(self)@[name_index(
                old(self)@,
                service_name@,
            )].status != ServiceStatus::Running && cmd_succeeded(outcome) ==> (r matches Ok(
                topic,
            ) && topic@ == service_topic_spec(service_name@)) && final(self)@ == set_status_spec(
                old(self)@,
                service_name@,
                ServiceStatus::Running,
            ),
            contains_name(old(self)@, service_name@) && old(self)@[name_index(
                old(self)@,
                service_name@,
            )].status != ServiceStatus::Running && !cmd_succeeded(outcome) ==> final(self)@ == old(self)@ && is_command_err(r, start_cmd_spec(service_name@), outcome),
    {
        match self.find_service(service_name) {
            None => Err(
                ServiceManagerError::ServiceError(
                    ServiceError::ServiceNotFound(String::from_str(service_name)),
                ),
            ),
            Some(i) => {
                proof {
                    lemma_name_index(old(self)@, service_name@, i as int);
                }
                if self.services[i].status == ServiceStatus::Running {
                    return Err(
                        ServiceManagerError::ServiceError(
                            ServiceError::ServiceStatusError(
                                String::from_str("Service is already running"),
                            ),
                        ),
                    );
                }
                let cmd = concat2("sudo systemctl start ", service_name);
                match command_result(cmd, outcome) {
                    Ok(_) => {
                        self.services[i].status = ServiceStatus::Running;
                        assert(final(self)@ =~= set_status_spec(
                            old(self)@,
                            service_name@,
                            ServiceStatus::Running,
                        ));
                        Ok(String::from_str(service_name))
                    },
                    Err(e) => Err(ServiceManagerError::DeviceError(e)),
                }
            },
        }
    }

    /// Records the outcome of the remote stop command; the mirror image of
    /// `start_service`, rejecting a service already Stopped.
    pub fn stop_service(&mut self, service_name: &str, outcome: CmdOutcome) -> (r: Result<
        (),
        ServiceManagerError,
    >)
        requires
            old(self).wf(),
        ensures
            final(self).wf(),
            final(self).devices_view() == old(self).devices_view(),
            !contains_name(old(self)@, service_name@) ==> final(self)@ == old(self)@
                && is_not_found_err(r, service_name@),
            contains_name(old(self)@, service_name@) && old(self)@[name_index(
                old(self)@,
                service_name@,
            )].status == ServiceStatus::Stopped ==> final(self)@ == old(self)@ && is_status_err(
                r,
                "Service is already stopped"@,
            ),
            contains_name(old(self)@, service_name@) && old(self)@[name_index(
                old(self)@,
                service_name@,
            )].status != ServiceStatus::Stopped && cmd_succeeded(outcome) ==> r is Ok && final(self)@ == set_status_spec(old(self)@, service_name@, ServiceStatus::Stopped),
            contains_name(old(self)@, service_name@) && old(self)@[name_index(
                old(self)@,
                service_name@,
            )].status != ServiceStatus::Stopped && !cmd_succeeded(outcome) ==> final(self)@ == old(self)@ && is_command_err(r, stop_cmd_spec(service_name@), outcome),
    {
        match self.find_service(service_name) {
            None => Err(
                ServiceManagerError::ServiceError(
                    ServiceError::ServiceNotFound(String::from_str(service_name)),
                ),
            ),
            Some(i) => {
                proof {
                    lemma_name_index(old(self)@, service_name@, i as int);
                }
                if self.services[i].status == ServiceStatus::Stopped {
                    return Err(
                        ServiceManagerError::ServiceError(
                            ServiceError::ServiceStatusError(
                                String::from_str("Service is already stopped"),
                            ),
                        ),
                    );
                }
                let cmd = concat2("sudo systemctl stop ", service_name);
                match command_result(cmd, outcome) {
                    Ok(_) => {
                        self.services[i].status = ServiceStatus::Stopped;
                        assert(final(self)@ =~= set_status_spec(
                            old(self)@,
                            service_name@,
                            ServiceStatus::Stopped,
                        ));
                        Ok(())
                    },
                    Err(e) => Err(ServiceManagerError::DeviceError(e)),
                }
            },
        }
    }

    /// Records the outcome of the remote autostart-enable command. Status is
    /// never touched: only the enabled flag changes, and only on success.
    pub fn enable_service(&mut self, service_name: &str, outcome: CmdOutcome) -> (r: Result<
        (),
        ServiceManagerError,
    >)
        requires
            old(self).wf(),
        ensures
            final(self).wf(),
            final(self).devices_view() == old(self).devices_view(),
            !contains_name(old(self)@, service_name@) ==> final(self)@ == old(self)@
                && is_not_found_err(r, service_name@),
            contains_name(old(self)@, service_name@) && cmd_succeeded(outcome) ==> r is Ok
                && final(self)@ == set_enabled_spec(old(self)@, service_name@, true),
            contains_name(old(self)@, service_name@) && !cmd_succeeded(outcome) ==> final(self)@
                == old(self)@ && is_command_err(r, enable_cmd_spec(service_name@), outcome),
    {
        match self.find_service(service_name) {
            None => Err(
                ServiceManagerError::ServiceError(
                    ServiceError::ServiceNotFound(String::from_str(service_name)),
                ),
            ),
            Some(i) => {
                proof {
                    lemma_name_index(old(self)@, service_name@, i as int);
                }
                let cmd = concat2("sudo systemctl enable ", service_name);
                match command_result(cmd, outcome) {
                    Ok(_) => {
                        self.services[i].enabled = true;
                        assert(final(self)@ =~= set_enabled_spec(old(self)@, service_name@, true));
                        Ok(())
                    },
                    Err(e) => Err(ServiceManagerError::DeviceError(e)),
                }
            },
        }
    }

    /// Records the outcome of the remote autostart-disable command; the
    /// mirror image of `enable_service`.
    pub fn disable_service(&mut self, service_name: &str, outcome: CmdOutcome) -> (r: Result<
        (),
        ServiceManagerError,
    >)
        requires
            old(self).wf(),
        ensures
            final(self).wf(),
            final(self).devices_view() == old(self).devices_view(),
            !contains_name(old(self)@, service_name@) ==> final(self)@ == old(self)@
                && is_not_found_err(r, service_name@),
            contains_name(old(self)@, service_name@) && cmd_succeeded(outcome) ==> r is Ok
                && final(self)@ == set_enabled_spec(old(self)@, service_name@, false),
            contains_name(old(self)@, service_name@) && !cmd_succeeded(outcome) ==> final(self)@
                == old(self)@ && is_command_err(r, disable_cmd_spec(service_name@), outcome),
    {
        match self.find_service(service_name) {
            None => Err(
                ServiceManagerError::ServiceError(
                    ServiceError::ServiceNotFound(String::from_str(service_name)),
                ),
            ),
            Some(i) => {
                proof {
                    lemma_name_index(old(self)@, service_name@, i as int);
                }
                let cmd = concat2("sudo systemctl disable ", service_name);
                match command_result(cmd, outcome) {
                    Ok(_) => {
                        self.services[i].enabled = false;
                        assert(final(self)@ =~= set_enabled_spec(old(self)@, service_name@, false));
                        Ok(())
                    },
                    Err(e) => Err(ServiceManagerError::DeviceError(e)),
                }
            },
        }
    }

    /// Checks the service and opens a deployment pipeline run for it: the
    /// run starts at the build station, bound to the service's device.
    pub fn deploy_begin(&self, service_name: &str) -> (r: Result<
        (DeploySession, DeployAction),
        ServiceManagerError,
    >)
        requires
            self.wf(),
        ensures
            !contains_name(self@, service_name@) ==> is_not_found_err(r, service_name@),
            contains_name(self@, service_name@) ==> (r matches Ok((s, a)) && s.service_name@
                == service_name@ && s.device == self@[name_index(self@, service_name@)].device
                && s.step == DeployStep::Build && is_build_action(
                a,
                service_name@,
                s.device.config.arch@,
            )),
    {
        match self.find_service(service_name) {
            None => Err(
                ServiceManagerError::ServiceError(
                    ServiceError::ServiceNotFound(String::from_str(service_name)),
                ),
            ),
            Some(i) => {
                proof {
                    lemma_name_index(self@, service_name@, i as int);
                }
                let session = DeploySession {
                    service_name: String::from_str(service_name),
                    device: self.services[i].device.duplicate(),
                    step: DeployStep::Build,
                };
                let action = DeployAction::RunBuild {
                    service: String::from_str(service_name),
                    arch: session.device.config.arch.clone(),
                };
                Ok((session, action))
            },
        }
    }

    /// Records the overall result of a deployment pipeline run for the named
    /// service. A successful run moves the service to Deployed whatever its
    /// prior status; a failed run changes nothing and hands the pipeline's
    /// error back; a name not present is a not-found error.
    pub fn deploy_service(
        &mut self,
        service_name: &str,
        pipeline: Result<(), ServiceManagerError>,
    ) -> (r: Result<(), ServiceManagerError>)
        requires
            old(self).wf(),
        ensures
            final(self).wf(),
            final(self).devices_view() == old(self).devices_view(),
            !contains_name(old(self)@, service_name@) ==> final(self)@ == old(self)@
                && is_not_found_err(r, service_name@),
            contains_name(old(self)@, service_name@) && pipeline is Err ==> final(self)@ == old(self)@
                && r == pipeline,
            contains_name(old(self)@, service_name@) && pipeline is Ok ==> r is Ok && final(self)@
                == set_status_spec(old(self)@, service_name@, ServiceStatus::Deployed),
    {
        match self.find_service(service_name) {
            None => Err(
                ServiceManagerError::ServiceError(
                    ServiceError::ServiceNotFound(String::from_str(service_name)),
                ),
            ),
            Some(i) => {
                proof {
                    lemma_name_index(old(self)@, service_name@, i as int);
                }
                match pipeline {
                    Err(e) => Err(e),
                    Ok(()) => {
                        self.services[i].status = ServiceStatus::Deployed;
                        assert(final(self)@ =~= set_status_spec(
                            old(self)@,
                            service_name@,
                            ServiceStatus::Deployed,
                        ));
                        Ok(())
                    },
                }
            },
        }
    }
}

// ---------------------------------------------------------------------------
// Laws of the table transitions
// ---------------------------------------------------------------------------

/// Toggling the autostart flag never changes any service's status, nor the
/// set of names, nor anything about the other services.
pub proof fn lemma_enable_preserves_status(s: Seq<Service>, name: Seq<char>, e: bool)
    requires
        unique_names(s),
        contains_name(s, name),
    ensures
        set_enabled_spec(s, name, e).len() == s.len(),
        forall|k: int|
            0 <= k < s.len() ==> set_enabled_spec(s, name, e)[k].status == s[k].status,
        forall|k: int| 0 <= k < s.len() ==> set_enabled_spec(s, name, e)[k].name@ == s[k].name@,
        forall|k: int|
            0 <= k < s.len() && k != name_index(s, name) ==> set_enabled_spec(s, name, e)[k]
                == s[k],
        set_enabled_spec(s, name, e)[name_index(s, name)].enabled == e,
{
    let i = name_index(s, name);
    assert(0 <= i < s.len() && s[i].name@ == name);
}

/// Recording a status never changes any service's autostart flag, nor the
/// set of names, nor anything about the other services.
pub proof fn lemma_set_status_preserves_rest(s: Seq<Service>, name: Seq<char>, st: ServiceStatus)
    requires
        unique_names(s),
        contains_name(s, name),
    ensures
        set_status_spec(s, name, st).len() == s.len(),
        forall|k: int|
            0 <= k < s.len() ==> set_status_spec(s, name, st)[k].enabled == s[k].enabled,
        forall|k: int| 0 <= k < s.len() ==> set_status_spec(s, name, st)[k].name@ == s[k].name@,
        forall|k: int|
            0 <= k < s.len() && k != name_index(s, name) ==> set_status_spec(s, name, st)[k]
                == s[k],
        set_status_spec(s, name, st)[name_index(s, name)].status == st,
{
    let i = name_index(s, name);
    assert(0 <= i < s.len() && s[i].name@ == name);
}

/// After a removal the name is gone: it is in no later listing, and every
/// operation that looks it up finds nothing. Every other service is kept,
/// in order.
pub proof fn lemma_remove_drops_name(s: Seq<Service>, name: Seq<char>)
    requires
        unique_names(s),
        contains_name(s, name),
    ensures
        remove_spec(s, name).len() == s.len() - 1,
        !contains_name(remove_spec(s, name), name),
        unique_names(remove_spec(s, name)),
        forall|k: int|
            0 <= k < name_index(s, name) ==> remove_spec(s, name)[k] == s[k],
        forall|k: int|
            name_index(s, name) <= k < s.len() - 1 ==> remove_spec(s, name)[k] == s[k + 1],
{
    let i = name_index(s, name);
    assert(0 <= i < s.len() && s[i].name@ == name);
    let t = remove_spec(s, name);
    assert forall|k: int| 0 <= k < t.len() implies t[k].name@ != name by {
        if k < i {
            assert(t[k] == s[k]);
        } else {
            assert(t[k] == s[k + 1]);
        }
    }
}

} // verus!
