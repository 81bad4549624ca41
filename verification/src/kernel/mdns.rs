//! Finding services and hosts on the local network.

use vstd::prelude::*;

verus! {

/// How long a query waits for an answer.
pub const QUERY_TIMEOUT_SECS: u64 = 5;

/// The error code of a query that found nothing.
pub const ESP_ERR_NOT_FOUND: i32 = 0x105;

/// An address of a host.
#[derive(Clone, Copy, PartialEq, Eq, Debug)]
pub enum IpAddr {
    V4([u8; 4]),
    V6([u8; 16]),
}

/// A service and where it is found.
#[derive(Debug)]
pub struct Service {
    pub hostname: String,
    pub addr: IpAddr,
    pub port: u16,
}

pub struct ServiceView {
    pub hostname: Seq<char>,
    pub addr: IpAddr,
    pub port: u16,
}

impl Clone for Service {
    fn clone(&self) -> (copy: Self)
        ensures
            copy@ == self@,
    {
        Service { hostname: self.hostname.clone(), addr: self.addr, port: self.port }
    }
}

impl View for Service {
    type V = ServiceView;

    open spec fn view(&self) -> ServiceView {
        ServiceView { hostname: self.hostname@, addr: self.addr, port: self.port }
    }
}

/// A query for services of one kind.
pub struct ServiceQuery {
    pub service: String,
    pub proto: String,
    pub timeout_secs: u64,
    pub max_results: usize,
}

impl ServiceQuery {
    /// Whether this asks for one service of the given kind, and waits five seconds
    /// for it.
    pub open spec fn asks_for(&self, service: Seq<char>, proto: Seq<char>) -> bool {
        &&& self.service@ == service
        &&& self.proto@ == proto
        &&& self.timeout_secs == 5
        &&& self.max_results == 1
    }

    /// Asks for one service of the given kind.
    pub fn new(service: &str, proto: &str) -> (query: ServiceQuery)
        ensures
            query.asks_for(service@, proto@),
    {
        ServiceQuery {
            service: String::from_str(service),
            proto: String::from_str(proto),
            timeout_secs: QUERY_TIMEOUT_SECS,
            max_results: 1,
        }
    }
}

/// What a query for a service was answered with.
pub struct QueryResult {
    pub hostname: Option<String>,
    pub addr: Vec<IpAddr>,
    pub port: u16,
}

impl QueryResult {
    /// The result that stays in place when a query finds nothing.
    pub fn empty() -> (result: QueryResult)
        ensures
            result.hostname is None,
            result.addr@.len() == 0,
            result.port == 0,
    {
        QueryResult { hostname: None, addr: Vec::new(), port: 0 }
    }
}

/// Why a query failed.
pub struct QueryFailure {
    pub code: i32,
    pub text: String,
}

/// The name under which a host is known on the local network.
pub open spec fn local_name(hostname: Seq<char>) -> Seq<char> {
    hostname + ".local"@
}

/// The name under which a host is known on the local network.
pub fn make_local_name(hostname: String) -> (name: String)
    ensures
        name@ == local_name(hostname@),
{
    hostname.concat(".local")
}

/// The service on the given port of a server, by what the query for the server's
/// address was answered with. That nothing was found is no error.
pub fn query_mdns_address(
    response: Result<[u8; 4], QueryFailure>,
    server: &str,
    port: u16,
) -> (service: Result<Option<Service>, String>)
    ensures
        match response {
            Ok(addr) => service matches Ok(Some(found)) && found@ == (ServiceView {
                hostname: server@,
                addr: IpAddr::V4(addr),
                port,
            }),
            Err(failure) => if failure.code == ESP_ERR_NOT_FOUND {
                service matches Ok(None)
            } else {
                service matches Err(text) && text@ == failure.text@
            },
        },
{
    match response {
        Ok(addr) => Ok(
            Some(
                Service { hostname: String::from_str(server), addr: IpAddr::V4(addr), port },
            ),
        ),
        Err(failure) => if failure.code == ESP_ERR_NOT_FOUND {
            Ok(None)
        } else {
            Err(failure.text)
        },
    }
}

/// The service that a query was answered with, at the first of its addresses. A
/// result that names a host gives at least one address.
pub fn query_mdns<E>(answer: Result<QueryResult, E>) -> (service: Result<Option<Service>, E>)
    requires
        answer matches Ok(result) ==> result.hostname is Some ==> result.addr@.len() > 0,
    ensures
        match answer {
            Ok(result) => match result.hostname {
                Some(hostname) => service matches Ok(Some(found)) && found@ == (ServiceView {
                    hostname: local_name(hostname@),
                    addr: result.addr@[0],
                    port: result.port,
                }),
                None => service matches Ok(None),
            },
            Err(error) => service == Err::<Option<Service>, E>(error),
        },
{
    match answer {
        Ok(result) => match result.hostname {
            Some(hostname) => Ok(
                Some(
                    Service {
                        hostname: make_local_name(hostname),
                        addr: result.addr[0],
                        port: result.port,
                    },
                ),
            ),
            None => Ok(None),
        },
        Err(error) => Err(error),
    }
}

/// A view tells every part of a service.
pub proof fn law_service_views_are_whole(service: Service)
    ensures
        service@.hostname == service.hostname@,
        service@.addr == service.addr,
        service@.port == service.port,
{
}

/// A host keeps its whole name on the local network, and hosts keep apart there.
pub proof fn law_local_names_keep_the_host(hostname: Seq<char>, other: Seq<char>)
    ensures
        local_name(hostname) == hostname + ".local"@,
        local_name(hostname) == local_name(other) ==> hostname == other,
{
    if local_name(hostname) == local_name(other) {
        assert(local_name(hostname).len() == hostname.len() + ".local"@.len());
        assert(local_name(other).len() == other.len() + ".local"@.len());
        assert(hostname =~= local_name(hostname).take(hostname.len() as int));
        assert(other =~= local_name(other).take(other.len() as int));
    }
}

/// A query asks for the service and the protocol that it was made for, for one answer,
/// and waits five seconds.
pub proof fn law_queries_ask_for_their_service(
    query: ServiceQuery,
    service: Seq<char>,
    proto: Seq<char>,
)
    ensures
        query.asks_for(service, proto) <==> {
            &&& query.service@ == service
            &&& query.proto@ == proto
            &&& query.timeout_secs == 5
            &&& query.max_results == 1
        },
{
}

/// A host that was found is a service under the name and on the port that were asked for, at
/// the address that was answered; a host that was not found is none, and only that failure
/// is not passed on.
pub proof fn law_hosts_are_found_at_their_address(
    response: Result<[u8; 4], QueryFailure>,
    server: &str,
    port: u16,
    service: Result<Option<Service>, String>,
)
    requires
        call_ensures(query_mdns_address, (response, server, port), service),
    ensures
        response matches Ok(addr) ==> (service matches Ok(Some(found)) && {
            &&& found.hostname@ == server@
            &&& found.addr == IpAddr::V4(addr)
            &&& found.port == port
        }),
        response matches Err(failure) ==> failure.code == 0x105 ==> (service matches Ok(None)),
        response matches Err(failure) ==> failure.code != 0x105 ==> (service matches Err(text)
            && text@ == failure.text@),
{
}

/// A service that was answered is found on its own port and at the first of its addresses,
/// under its host's name on the local network; without a host there is none, and a failure
/// is passed on.
pub proof fn law_answered_services_are_found<E>(
    answer: Result<QueryResult, E>,
    service: Result<Option<Service>, E>,
)
    requires
        answer matches Ok(result) ==> result.hostname is Some ==> result.addr@.len() > 0,
        call_ensures(query_mdns::<E>, (answer,), service),
    ensures
        answer matches Ok(result) ==> (result.hostname matches Some(hostname) ==> (
        service matches Ok(Some(found)) && {
            &&& found.hostname@ == hostname@ + ".local"@
            &&& found.addr == result.addr@[0]
            &&& found.port == result.port
        })),
        answer matches Ok(result) ==> result.hostname is None ==> (service matches Ok(None)),
        answer matches Err(error) ==> service == Err::<Option<Service>, E>(error),
{
}

} // verus!
