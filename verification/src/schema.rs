//! Wire-schema data types.
//!
//! Every message exchanged over the plugin protocol has a struct here, with
//! a mathematical view (`…V`) used by the contracts.  Strings travel as
//! character vectors; option maps are association lists whose key order is
//! the order of appearance on the wire.

use vstd::prelude::*;

verus! {

// ---------------------------------------------------------------------------
// Views of the building blocks
// ---------------------------------------------------------------------------

/// View of an association list of string pairs.
pub open spec fn str_map_view(m: Seq<(Vec<char>, Vec<char>)>) -> Seq<(Seq<char>, Seq<char>)> {
    Seq::new(m.len(), |i: int| (m[i].0@, m[i].1@))
}

/// View of a list of IPAM pool entries.
pub open spec fn ipam_list_view(v: Seq<IPAMData>) -> Seq<IPAMDataV> {
    Seq::new(v.len(), |i: int| v[i]@)
}

/// View of a list of static routes.
pub open spec fn route_list_view(v: Seq<StaticRoute>) -> Seq<StaticRouteV> {
    Seq::new(v.len(), |i: int| v[i]@)
}

/// View of an optional string.
pub open spec fn opt_view(o: Option<Vec<char>>) -> Option<Seq<char>> {
    match o {
        None => None,
        Some(v) => Some(v@),
    }
}

// ---------------------------------------------------------------------------
// Requests
// ---------------------------------------------------------------------------

/// One IP pool assignment supplied by the orchestrator's address management.
#[derive(Debug, Clone, PartialEq, Eq)]
pub struct IPAMData {
    pub address_space: Vec<char>,
    pub pool: Vec<char>,
    pub gateway: Vec<char>,
    pub aux_addresses: Vec<(Vec<char>, Vec<char>)>,
}

pub struct IPAMDataV {
    pub address_space: Seq<char>,
    pub pool: Seq<char>,
    pub gateway: Seq<char>,
    pub aux_addresses: Seq<(Seq<char>, Seq<char>)>,
}

impl View for IPAMData {
    type V = IPAMDataV;

    open spec fn view(&self) -> IPAMDataV {
        IPAMDataV {
            address_space: self.address_space@,
            pool: self.pool@,
            gateway: self.gateway@,
            aux_addresses: str_map_view(self.aux_addresses@),
        }
    }
}

/// Request to create a logical network.
#[derive(Debug, Clone, PartialEq, Eq)]
pub struct CreateNetworkRequest {
    pub network_id: Vec<char>,
    pub options: Vec<(Vec<char>, Vec<char>)>,
    pub ipv4_data: Vec<IPAMData>,
    pub ipv6_data: Vec<IPAMData>,
}

pub struct CreateNetworkRequestV {
    pub network_id: Seq<char>,
    pub options: Seq<(Seq<char>, Seq<char>)>,
    pub ipv4_data: Seq<IPAMDataV>,
    pub ipv6_data: Seq<IPAMDataV>,
}

impl View for CreateNetworkRequest {
    type V = CreateNetworkRequestV;

    open spec fn view(&self) -> CreateNetworkRequestV {
        CreateNetworkRequestV {
            network_id: self.network_id@,
            options: str_map_view(self.options@),
            ipv4_data: ipam_list_view(self.ipv4_data@),
            ipv6_data: ipam_list_view(self.ipv6_data@),
        }
    }
}

/// Request to allocate network resources without instantiating the network.
#[derive(Debug, Clone, PartialEq, Eq)]
pub struct AllocateNetworkRequest {
    pub network_id: Vec<char>,
    pub options: Vec<(Vec<char>, Vec<char>)>,
    pub ipv4_data: Vec<IPAMData>,
    pub ipv6_data: Vec<IPAMData>,
}

pub struct AllocateNetworkRequestV {
    pub network_id: Seq<char>,
    pub options: Seq<(Seq<char>, Seq<char>)>,
    pub ipv4_data: Seq<IPAMDataV>,
    pub ipv6_data: Seq<IPAMDataV>,
}

impl View for AllocateNetworkRequest {
    type V = AllocateNetworkRequestV;

    open spec fn view(&self) -> AllocateNetworkRequestV {
        AllocateNetworkRequestV {
            network_id: self.network_id@,
            options: str_map_view(self.options@),
            ipv4_data: ipam_list_view(self.ipv4_data@),
            ipv6_data: ipam_list_view(self.ipv6_data@),
        }
    }
}

/// Refers to an existing network by identifier alone.
#[derive(Debug, Clone, PartialEq, Eq)]
pub struct NetworkRequest {
    pub network_id: Vec<char>,
}

pub struct NetworkRequestV {
    pub network_id: Seq<char>,
}

impl View for NetworkRequest {
    type V = NetworkRequestV;

    open spec fn view(&self) -> NetworkRequestV {
        NetworkRequestV { network_id: self.network_id@ }
    }
}

/// Refers to an existing network and endpoint pair.
#[derive(Debug, Clone, PartialEq, Eq)]
pub struct EndpointRequest {
    pub network_id: Vec<char>,
    pub endpoint_id: Vec<char>,
}

pub struct EndpointRequestV {
    pub network_id: Seq<char>,
    pub endpoint_id: Seq<char>,
}

impl View for EndpointRequest {
    type V = EndpointRequestV;

    open spec fn view(&self) -> EndpointRequestV {
        EndpointRequestV { network_id: self.network_id@, endpoint_id: self.endpoint_id@ }
    }
}

/// Addressing of a container-facing interface; an empty field asks the
/// driver to assign one.  The one schema that is both decoded and encoded.
#[derive(Debug, Clone, PartialEq, Eq)]
pub struct EndpointInterface {
    pub address: Vec<char>,
    pub address_ipv6: Vec<char>,
    pub address_mac: Vec<char>,
}

pub struct EndpointInterfaceV {
    pub address: Seq<char>,
    pub address_ipv6: Seq<char>,
    pub address_mac: Seq<char>,
}

impl View for EndpointInterface {
    type V = EndpointInterfaceV;

    open spec fn view(&self) -> EndpointInterfaceV {
        EndpointInterfaceV {
            address: self.address@,
            address_ipv6: self.address_ipv6@,
            address_mac: self.address_mac@,
        }
    }
}

/// Request to create an endpoint on a network.
#[derive(Debug, Clone, PartialEq, Eq)]
pub struct CreateEndpointRequest {
    pub network_id: Vec<char>,
    pub endpoint_id: Vec<char>,
    pub interface: EndpointInterface,
    pub options: Vec<(Vec<char>, Vec<char>)>,
}

pub struct CreateEndpointRequestV {
    pub network_id: Seq<char>,
    pub endpoint_id: Seq<char>,
    pub interface: EndpointInterfaceV,
    pub options: Seq<(Seq<char>, Seq<char>)>,
}

impl View for CreateEndpointRequest {
    type V = CreateEndpointRequestV;

    open spec fn view(&self) -> CreateEndpointRequestV {
        CreateEndpointRequestV {
            network_id: self.network_id@,
            endpoint_id: self.endpoint_id@,
            interface: self.interface@,
            options: str_map_view(self.options@),
        }
    }
}

/// Request to attach a sandbox to an endpoint.
#[derive(Debug, Clone, PartialEq, Eq)]
pub struct JoinRequest {
    pub network_id: Vec<char>,
    pub endpoint_id: Vec<char>,
    pub sandbox_key: Vec<char>,
    pub options: Vec<(Vec<char>, Vec<char>)>,
}

pub struct JoinRequestV {
    pub network_id: Seq<char>,
    pub endpoint_id: Seq<char>,
    pub sandbox_key: Seq<char>,
    pub options: Seq<(Seq<char>, Seq<char>)>,
}

impl View for JoinRequest {
    type V = JoinRequestV;

    open spec fn view(&self) -> JoinRequestV {
        JoinRequestV {
            network_id: self.network_id@,
            endpoint_id: self.endpoint_id@,
            sandbox_key: self.sandbox_key@,
            options: str_map_view(self.options@),
        }
    }
}

/// Notification of a peer-discovery event.
#[derive(Debug, Clone, PartialEq, Eq)]
pub struct DiscoverRequest {
    pub discovery_type: i64,
    pub discovery_data: Vec<char>,
}

pub struct DiscoverRequestV {
    pub discovery_type: i64,
    pub discovery_data: Seq<char>,
}

impl View for DiscoverRequest {
    type V = DiscoverRequestV;

    open spec fn view(&self) -> DiscoverRequestV {
        DiscoverRequestV {
            discovery_type: self.discovery_type,
            discovery_data: self.discovery_data@,
        }
    }
}

/// Request to program or revoke external connectivity for an endpoint.
#[derive(Debug, Clone, PartialEq, Eq)]
pub struct ExternalConnectivityRequest {
    pub network_id: Vec<char>,
    pub endpoint_id: Vec<char>,
    pub options: Vec<(Vec<char>, Vec<char>)>,
}

pub struct ExternalConnectivityRequestV {
    pub network_id: Seq<char>,
    pub endpoint_id: Seq<char>,
    pub options: Seq<(Seq<char>, Seq<char>)>,
}

impl View for ExternalConnectivityRequest {
    type V = ExternalConnectivityRequestV;

    open spec fn view(&self) -> ExternalConnectivityRequestV {
        ExternalConnectivityRequestV {
            network_id: self.network_id@,
            endpoint_id: self.endpoint_id@,
            options: str_map_view(self.options@),
        }
    }
}

// ---------------------------------------------------------------------------
// Responses
// ---------------------------------------------------------------------------

/// The driver's static capability advertisement.
#[derive(Debug, Clone, PartialEq, Eq)]
pub struct CapabilitiesResponse {
    pub scope: Vec<char>,
    pub connectivity_scope: Vec<char>,
}

pub struct CapabilitiesResponseV {
    pub scope: Seq<char>,
    pub connectivity_scope: Seq<char>,
}

impl View for CapabilitiesResponse {
    type V = CapabilitiesResponseV;

    open spec fn view(&self) -> CapabilitiesResponseV {
        CapabilitiesResponseV {
            scope: self.scope@,
            connectivity_scope: self.connectivity_scope@,
        }
    }
}

/// Result of an allocate-network call.
#[derive(Debug, Clone, PartialEq, Eq)]
pub struct AllocateNetworkResponse {
    pub options: Vec<(Vec<char>, Vec<char>)>,
}

pub struct AllocateNetworkResponseV {
    pub options: Seq<(Seq<char>, Seq<char>)>,
}

impl View for AllocateNetworkResponse {
    type V = AllocateNetworkResponseV;

    open spec fn view(&self) -> AllocateNetworkResponseV {
        AllocateNetworkResponseV { options: str_map_view(self.options@) }
    }
}

/// Result of a create-endpoint call.
#[derive(Debug, Clone, PartialEq, Eq)]
pub struct CreateEndpointResponse {
    pub interface: EndpointInterface,
}

pub struct CreateEndpointResponseV {
    pub interface: EndpointInterfaceV,
}

impl View for CreateEndpointResponse {
    type V = CreateEndpointResponseV;

    open spec fn view(&self) -> CreateEndpointResponseV {
        CreateEndpointResponseV { interface: self.interface@ }
    }
}

/// Result of an endpoint-info call.
#[derive(Debug, Clone, PartialEq, Eq)]
pub struct InfoResponse {
    pub value: Vec<(Vec<char>, Vec<char>)>,
}

pub struct InfoResponseV {
    pub value: Seq<(Seq<char>, Seq<char>)>,
}

impl View for InfoResponse {
    type V = InfoResponseV;

    open spec fn view(&self) -> InfoResponseV {
        InfoResponseV { value: str_map_view(self.value@) }
    }
}

/// Naming hint for the interface moved into the sandbox.
#[derive(Debug, Clone, PartialEq, Eq)]
pub struct InterfaceName {
    pub src_name: Vec<char>,
    pub dst_prefix: Vec<char>,
}

pub struct InterfaceNameV {
    pub src_name: Seq<char>,
    pub dst_prefix: Seq<char>,
}

impl View for InterfaceName {
    type V = InterfaceNameV;

    open spec fn view(&self) -> InterfaceNameV {
        InterfaceNameV { src_name: self.src_name@, dst_prefix: self.dst_prefix@ }
    }
}

/// One route to install in the sandbox.
#[derive(Debug, Clone, PartialEq, Eq)]
pub struct StaticRoute {
    pub destination: Vec<char>,
    pub route_type: i64,
    pub next_hop: Vec<char>,
}

pub struct StaticRouteV {
    pub destination: Seq<char>,
    pub route_type: i64,
    pub next_hop: Seq<char>,
}

impl View for StaticRoute {
    type V = StaticRouteV;

    open spec fn view(&self) -> StaticRouteV {
        StaticRouteV {
            destination: self.destination@,
            route_type: self.route_type,
            next_hop: self.next_hop@,
        }
    }
}

/// Result of a join call.
#[derive(Debug, Clone, PartialEq, Eq)]
pub struct JoinResponse {
    pub interface_name: InterfaceName,
    pub gateway: Vec<char>,
    pub gateway_ipv6: Vec<char>,
    pub static_routes: Vec<StaticRoute>,
    pub disable_gateway_service: bool,
}

pub struct JoinResponseV {
    pub interface_name: InterfaceNameV,
    pub gateway: Seq<char>,
    pub gateway_ipv6: Seq<char>,
    pub static_routes: Seq<StaticRouteV>,
    pub disable_gateway_service: bool,
}

impl View for JoinResponse {
    type V = JoinResponseV;

    open spec fn view(&self) -> JoinResponseV {
        JoinResponseV {
            interface_name: self.interface_name@,
            gateway: self.gateway@,
            gateway_ipv6: self.gateway_ipv6@,
            static_routes: route_list_view(self.static_routes@),
            disable_gateway_service: self.disable_gateway_service,
        }
    }
}

/// The uniform error envelope carrying a driver's failure message.
#[derive(Debug, Clone, PartialEq, Eq)]
pub struct ErrorResponse {
    pub err: Vec<char>,
}

pub struct ErrorResponseV {
    pub err: Seq<char>,
}

impl View for ErrorResponse {
    type V = ErrorResponseV;

    open spec fn view(&self) -> ErrorResponseV {
        ErrorResponseV { err: self.err@ }
    }
}

} // verus!
