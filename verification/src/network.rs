//! Services by name and port, and the network of the test device.

use crate::bring_up::WifiBringUp;
use crate::kernel::mdns::{make_local_name, QueryResult};
use vstd::prelude::*;

verus! {

/// A service and where it is found.
#[derive(Debug)]
pub struct Service {
    pub hostname: String,
    pub port: u16,
}

pub struct ServiceView {
    pub hostname: Seq<char>,
    pub port: u16,
}

impl Clone for Service {
    fn clone(&self) -> (copy: Self)
        ensures
            copy@ == self@,
    {
        Service { hostname: self.hostname.clone(), port: self.port }
    }
}

impl View for Service {
    type V = ServiceView;

    open spec fn view(&self) -> ServiceView {
        ServiceView { hostname: self.hostname@, port: self.port }
    }
}

/// The service that was found, or else the given one.
pub open spec fn found_or(found: Option<Service>, hostname: Seq<char>, port: u16) -> ServiceView {
    match found {
        Some(service) => service@,
        None => ServiceView { hostname, port },
    }
}

/// The service that was found, or else the given one.
pub fn service_or(found: Option<Service>, hostname: &str, port: u16) -> (service: Service)
    ensures
        service@ == found_or(found, hostname@, port),
{
    match found {
        Some(service) => service,
        None => Service { hostname: String::from_str(hostname), port },
    }
}

/// The service that a query was answered with.
pub fn query_mdns<E>(answer: Result<QueryResult, E>) -> (service: Result<Option<Service>, E>)
    ensures
        match answer {
            Ok(result) => match result.hostname {
                Some(hostname) => service matches Ok(Some(found)) && found@ == (ServiceView {
                    hostname: crate::kernel::mdns::local_name(hostname@),
                    port: result.port,
                }),
                None => service matches Ok(None),
            },
            Err(error) => service == Err::<Option<Service>, E>(error),
        },
{
    match answer {
        Ok(result) => match result.hostname {
            Some(hostname) => Ok(
                Some(Service { hostname: make_local_name(hostname), port: result.port }),
            ),
            None => Ok(None),
        },
        Err(error) => Err(error),
    }
}

/// Begins to bring the network of the test device up. Its address is not read.
pub fn connect_wifi() -> (bring_up: WifiBringUp)
    ensures
        bring_up.device_name() == "test-mk6-rs-1"@,
        !bring_up.report_ip(),
        bring_up.stage() is Starting,
{
    WifiBringUp::new("test-mk6-rs-1", false)
}

/// A view tells every part of a service.
pub proof fn law_service_views_are_whole(service: Service)
    ensures
        service@.hostname == service.hostname@,
        service@.port == service.port,
{
}

/// A service that was found is used, whichever it is; the default counts only where none
/// was found.
pub proof fn law_found_services_are_used(service: Service, hostname: Seq<char>, port: u16)
    ensures
        found_or(Some(service), hostname, port).hostname == service.hostname@,
        found_or(Some(service), hostname, port).port == service.port,
        found_or(None, hostname, port).hostname == hostname,
        found_or(None, hostname, port).port == port,
{
}

/// A service that was answered is found on its own port, under its host's name on the local
/// network; without a host there is none, and a failure is passed on.
pub proof fn law_answered_services_are_found<E>(
    answer: Result<QueryResult, E>,
    service: Result<Option<Service>, E>,
)
    requires
        call_ensures(query_mdns::<E>, (answer,), service),
    ensures
        answer matches Ok(result) ==> (result.hostname matches Some(hostname) ==> (
        service matches Ok(Some(found)) && {
            &&& found.hostname@ == hostname@ + ".local"@
            &&& found.port == result.port
        })),
        answer matches Ok(result) ==> result.hostname is None ==> (service matches Ok(None)),
        answer matches Err(error) ==> service == Err::<Option<Service>, E>(error),
{
}

} // verus!
