use netdriver::dispatch::{DispatchError, Network, post};
use netdriver::schema::{
    AllocateNetworkRequest, AllocateNetworkResponse, CapabilitiesResponse, CreateEndpointRequest,
    CreateEndpointResponse, CreateNetworkRequest, DiscoverRequest, EndpointInterface,
    EndpointRequest, ErrorResponse, ExternalConnectivityRequest, InfoResponse, InterfaceName,
    JoinRequest, JoinResponse, NetworkRequest,
};

fn chars(s: &str) -> Vec<char> {
    s.chars().collect()
}

fn text(r: Result<Vec<char>, DispatchError>) -> String {
    r.expect("expected a response body").iter().collect()
}

/// A driver whose fallible operations succeed with canned values.
struct OkDriver;

impl Network for OkDriver {
    fn get_capabilities(&self) -> CapabilitiesResponse {
        CapabilitiesResponse { scope: chars("local"), connectivity_scope: chars("local") }
    }

    fn create_network(&self, _request: &CreateNetworkRequest) {}

    fn allocate_network(
        &self,
        _request: &AllocateNetworkRequest,
    ) -> Result<AllocateNetworkResponse, ErrorResponse> {
        Ok(AllocateNetworkResponse { options: vec![] })
    }

    fn delete_network(&self, _request: &NetworkRequest) {}

    fn free_network(&self, _request: &NetworkRequest) {}

    fn create_endpoint(
        &self,
        request: &CreateEndpointRequest,
    ) -> Result<CreateEndpointResponse, ErrorResponse> {
        Ok(CreateEndpointResponse { interface: request.interface.clone() })
    }

    fn delete_endpoint(&self, _request: &EndpointRequest) {}

    fn endpoint_info(&self, _request: &EndpointRequest) -> Result<InfoResponse, ErrorResponse> {
        Ok(InfoResponse { value: vec![(chars("k"), chars("v"))] })
    }

    fn join(&self, _request: &JoinRequest) -> Result<JoinResponse, ErrorResponse> {
        Ok(JoinResponse {
            interface_name: InterfaceName { src_name: chars("veth1"), dst_prefix: chars("eth") },
            gateway: chars("10.0.0.1"),
            gateway_ipv6: chars(""),
            static_routes: vec![],
            disable_gateway_service: false,
        })
    }

    fn leave(&self, _request: &EndpointRequest) {}

    fn discover_new(&self, _request: &DiscoverRequest) {}

    fn discover_delete(&self, _request: &DiscoverRequest) {}

    fn program_external_connectivity(&self, _request: &ExternalConnectivityRequest) {}

    fn revoke_external_connectivity(&self, _request: &EndpointRequest) {}
}

/// A driver whose fallible operations all report one failure message.
struct FailingDriver {
    message: &'static str,
}

impl FailingDriver {
    fn error(&self) -> ErrorResponse {
        ErrorResponse { err: chars(self.message) }
    }
}

impl Network for FailingDriver {
    fn get_capabilities(&self) -> CapabilitiesResponse {
        CapabilitiesResponse { scope: chars("global"), connectivity_scope: chars("global") }
    }

    fn create_network(&self, _request: &CreateNetworkRequest) {}

    fn allocate_network(
        &self,
        _request: &AllocateNetworkRequest,
    ) -> Result<AllocateNetworkResponse, ErrorResponse> {
        Err(self.error())
    }

    fn delete_network(&self, _request: &NetworkRequest) {}

    fn free_network(&self, _request: &NetworkRequest) {}

    fn create_endpoint(
        &self,
        _request: &CreateEndpointRequest,
    ) -> Result<CreateEndpointResponse, ErrorResponse> {
        Err(self.error())
    }

    fn delete_endpoint(&self, _request: &EndpointRequest) {}

    fn endpoint_info(&self, _request: &EndpointRequest) -> Result<InfoResponse, ErrorResponse> {
        Err(self.error())
    }

    fn join(&self, _request: &JoinRequest) -> Result<JoinResponse, ErrorResponse> {
        Err(self.error())
    }

    fn leave(&self, _request: &EndpointRequest) {}

    fn discover_new(&self, _request: &DiscoverRequest) {}

    fn discover_delete(&self, _request: &DiscoverRequest) {}

    fn program_external_connectivity(&self, _request: &ExternalConnectivityRequest) {}

    fn revoke_external_connectivity(&self, _request: &EndpointRequest) {}
}

#[test]
fn activation_returns_manifest_for_any_body() {
    let d = OkDriver;
    assert_eq!(
        text(post(&d, "/Plugin.Activate", "")),
        "{\"Implements\":[\"NetworkDriver\"]}"
    );
    assert_eq!(
        text(post(&d, "/Plugin.Activate", "not even json")),
        "{\"Implements\":[\"NetworkDriver\"]}"
    );
}

#[test]
fn unknown_paths_are_rejected() {
    let d = OkDriver;
    assert_eq!(post(&d, "", "{}"), Err(DispatchError::UnknownOperation));
    assert_eq!(post(&d, "/Plugin.Activate/", "{}"), Err(DispatchError::UnknownOperation));
    assert_eq!(post(&d, "/NetworkDriver.Join/", "{}"), Err(DispatchError::UnknownOperation));
    assert_eq!(post(&d, "/NetworkDriver.Nope", "{}"), Err(DispatchError::UnknownOperation));
    assert_eq!(post(&d, "networkdriver.join", "{}"), Err(DispatchError::UnknownOperation));
}

#[test]
fn capabilities_path_encodes_driver_advertisement() {
    let d = OkDriver;
    assert_eq!(
        text(post(&d, "/NetworkDriver.GetCapabilities", "{}")),
        "{\"Scope\":\"local\",\"ConnectivityScope\":\"local\"}"
    );
}

#[test]
fn delete_network_success_is_empty_object() {
    let d = OkDriver;
    assert_eq!(text(post(&d, "/NetworkDriver.DeleteNetwork", "{\"NetworkId\":\"net1\"}")), "{}");
}

#[test]
fn join_error_is_error_envelope() {
    let d = FailingDriver { message: "no such endpoint" };
    let body = "{\"NetworkID\":\"n\",\"EndpointID\":\"e\",\"SandboxKey\":\"k\",\"Options\":{}}";
    assert_eq!(
        text(post(&d, "/NetworkDriver.Join", body)),
        "{\"Err\":\"no such endpoint\"}"
    );
}

#[test]
fn join_success_is_join_schema() {
    let d = OkDriver;
    let body = "{\"NetworkID\":\"n\",\"EndpointID\":\"e\",\"SandboxKey\":\"k\",\"Options\":{}}";
    assert_eq!(
        text(post(&d, "/NetworkDriver.Join", body)),
        "{\"InterfaceName\":{\"SrcName\":\"veth1\",\"DstPrefix\":\"eth\"},\
         \"Gateway\":\"10.0.0.1\",\"GatewayIPv6\":\"\",\"StaticRoutes\":[],\
         \"DisableGatewayService\":false}"
    );
}

#[test]
fn malformed_bodies_are_rejected_before_the_driver() {
    let d = OkDriver;
    assert_eq!(
        post(&d, "/NetworkDriver.CreateNetwork", "{\"NetworkId\":\"abc\"}"),
        Err(DispatchError::MalformedRequest)
    );
    assert_eq!(
        post(&d, "/NetworkDriver.DeleteNetwork", "not json"),
        Err(DispatchError::MalformedRequest)
    );
    assert_eq!(
        post(&d, "/NetworkDriver.Join", "{\"NetworkId\":\"n\"}"),
        Err(DispatchError::MalformedRequest)
    );
    assert_eq!(
        post(&d, "/NetworkDriver.DiscoverNew", "{}"),
        Err(DispatchError::MalformedRequest)
    );
}

#[test]
fn create_network_success_is_empty_object() {
    let d = OkDriver;
    let body = "{\"NetworkId\":\"abc\",\"Options\":{},\"IPv4Data\":[],\"IPv6Data\":[]}";
    assert_eq!(text(post(&d, "/NetworkDriver.CreateNetwork", body)), "{}");
}

#[test]
fn allocate_network_paths_give_schema_or_error() {
    let body = "{\"NetworkId\":\"abc\",\"Options\":{},\"IPv4Data\":[],\"IPv6Data\":[]}";
    let ok = OkDriver;
    assert_eq!(
        text(post(&ok, "/NetworkDriver.AllocateNetwork", body)),
        "{\"Options\":{}}"
    );
    let bad = FailingDriver { message: "pool exhausted" };
    assert_eq!(
        text(post(&bad, "/NetworkDriver.AllocateNetwork", body)),
        "{\"Err\":\"pool exhausted\"}"
    );
}

#[test]
fn create_endpoint_echoes_interface() {
    let d = OkDriver;
    let body = "{\"NetworkId\":\"n\",\"EndpointId\":\"e\",\"Interface\":{\"Address\":\"a\",\
                \"AddressIPv6\":\"b\",\"MacAddress\":\"c\"},\"Options\":{}}";
    assert_eq!(
        text(post(&d, "/NetworkDriver.CreateEndpoint", body)),
        "{\"Interface\":{\"Address\":\"a\",\"AddressIPv6\":\"b\",\"MacAddress\":\"c\"}}"
    );
}

#[test]
fn endpoint_info_paths_give_schema_or_error() {
    let body = "{\"NetworkId\":\"n\",\"EndpointId\":\"e\"}";
    let ok = OkDriver;
    assert_eq!(
        text(post(&ok, "/NetworkDriver.EndpointOperInfo", body)),
        "{\"Value\":{\"k\":\"v\"}}"
    );
    let bad = FailingDriver { message: "no such endpoint" };
    assert_eq!(
        text(post(&bad, "/NetworkDriver.EndpointOperInfo", body)),
        "{\"Err\":\"no such endpoint\"}"
    );
}

#[test]
fn fire_and_forget_paths_reply_with_empty_object() {
    let d = OkDriver;
    let ep = "{\"NetworkId\":\"n\",\"EndpointId\":\"e\"}";
    let net = "{\"NetworkId\":\"n\"}";
    let disc = "{\"DiscoveryType\":1,\"DiscoveryData\":\"d\"}";
    let ext = "{\"NetworkId\":\"n\",\"EndpointId\":\"e\",\"Options\":{}}";
    assert_eq!(text(post(&d, "/NetworkDriver.FreeNetwork", net)), "{}");
    assert_eq!(text(post(&d, "/NetworkDriver.DeleteEndpoint", ep)), "{}");
    assert_eq!(text(post(&d, "/NetworkDriver.Leave", ep)), "{}");
    assert_eq!(text(post(&d, "/NetworkDriver.DiscoverNew", disc)), "{}");
    assert_eq!(text(post(&d, "/NetworkDriver.DiscoverDelete", disc)), "{}");
    assert_eq!(text(post(&d, "/NetworkDriver.ProgramExternalConnectivity", ext)), "{}");
    assert_eq!(text(post(&d, "/NetworkDriver.RevokeExternalConnectivity", ep)), "{}");
}

#[test]
fn every_operation_path_yields_a_wellformed_response() {
    // Dispatching a syntactically valid request down each of the fourteen
    // operation paths yields a body that is itself one of the documented
    // schemas: an object, here checked by its braces and by exact contents
    // elsewhere in this file.
    let d = OkDriver;
    let cases: Vec<(&str, &str)> = vec![
        ("/NetworkDriver.GetCapabilities", "{}"),
        ("/NetworkDriver.CreateNetwork",
         "{\"NetworkId\":\"a\",\"Options\":{},\"IPv4Data\":[],\"IPv6Data\":[]}"),
        ("/NetworkDriver.AllocateNetwork",
         "{\"NetworkId\":\"a\",\"Options\":{},\"IPv4Data\":[],\"IPv6Data\":[]}"),
        ("/NetworkDriver.DeleteNetwork", "{\"NetworkId\":\"a\"}"),
        ("/NetworkDriver.FreeNetwork", "{\"NetworkId\":\"a\"}"),
        ("/NetworkDriver.CreateEndpoint",
         "{\"NetworkId\":\"n\",\"EndpointId\":\"e\",\"Interface\":{\"Address\":\"a\",\
          \"AddressIPv6\":\"b\",\"MacAddress\":\"c\"},\"Options\":{}}"),
        ("/NetworkDriver.EndpointOperInfo", "{\"NetworkId\":\"n\",\"EndpointId\":\"e\"}"),
        ("/NetworkDriver.DeleteEndpoint", "{\"NetworkId\":\"n\",\"EndpointId\":\"e\"}"),
        ("/NetworkDriver.Join",
         "{\"NetworkID\":\"n\",\"EndpointID\":\"e\",\"SandboxKey\":\"k\",\"Options\":{}}"),
        ("/NetworkDriver.Leave", "{\"NetworkId\":\"n\",\"EndpointId\":\"e\"}"),
        ("/NetworkDriver.DiscoverNew", "{\"DiscoveryType\":1,\"DiscoveryData\":\"d\"}"),
        ("/NetworkDriver.DiscoverDelete", "{\"DiscoveryType\":1,\"DiscoveryData\":\"d\"}"),
        ("/NetworkDriver.ProgramExternalConnectivity",
         "{\"NetworkId\":\"n\",\"EndpointId\":\"e\",\"Options\":{}}"),
        ("/NetworkDriver.RevokeExternalConnectivity",
         "{\"NetworkId\":\"n\",\"EndpointId\":\"e\"}"),
    ];
    for (path, body) in cases {
        let out = text(post(&d, path, body));
        assert!(out.starts_with('{'), "response of {} must be an object", path);
        assert!(out.ends_with('}'), "response of {} must be an object", path);
    }
}

#[test]
fn round_trip_interface_through_dispatch() {
    // The interface decoded from a request, re-encoded by a driver that
    // echoes it, carries the same key/value pairs back out.
    let d = OkDriver;
    let body = "{\"NetworkId\":\"n\",\"EndpointId\":\"e\",\"Interface\":{\
                \"MacAddress\":\"c\",\"Address\":\"a \\u00e9\",\"AddressIPv6\":\"\"},\
                \"Options\":{}}";
    assert_eq!(
        text(post(&d, "/NetworkDriver.CreateEndpoint", body)),
        "{\"Interface\":{\"Address\":\"a é\",\"AddressIPv6\":\"\",\"MacAddress\":\"c\"}}"
    );
}
