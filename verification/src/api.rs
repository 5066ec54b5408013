use vstd::prelude::*;
use crate::service::ServiceManager;

verus! {

/// One row of the service listing as the HTTP surface returns it: the
/// service's name, its stringified status, and its device's address.
pub struct ServiceResponse {
    pub name: String,
    pub status: String,
    pub device: String,
}

impl ServiceManager {
    /// The listing the HTTP surface serves: one row per service, in table
    /// order.
    pub fn list_services(&self) -> (r: Vec<ServiceResponse>)
        ensures
            r@.len() == self@.len(),
            forall|i: int|
                0 <= i < self@.len() ==> r@[i].name@ == self@[i].name@ && r@[i].status@
                    == self@[i].status.spec_name() && r@[i].device@
                    == self@[i].device.config.ip_address@,
    {
        let services = self.get_services();
        let n = services.len();
        let mut rows: Vec<ServiceResponse> = Vec::new();
        let mut i: usize = 0;
        while i < n
            invariant
                n == services@.len(),
                services@ == self@,
                i <= n,
                rows@.len() == i,
                forall|k: int|
                    0 <= k < i ==> rows@[k].name@ == self@[k].name@ && rows@[k].status@
                        == self@[k].status.spec_name() && rows@[k].device@
                        == self@[k].device.config.ip_address@,
            decreases n - i,
        {
            let row = ServiceResponse {
                name: services[i].name.clone(),
                status: services[i].status.status_name(),
                device: services[i].device.config.ip_address.clone(),
            };
            rows.push(row);
            i += 1;
        }
        rows
    }
}

} // verus!
