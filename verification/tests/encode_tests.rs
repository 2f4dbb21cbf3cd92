use netdriver::encode::{
    encode_allocate, encode_capabilities, encode_create_endpoint, encode_empty, encode_error,
    encode_info, encode_interface, encode_join, encode_manifest,
};
use netdriver::schema::{
    AllocateNetworkResponse, CapabilitiesResponse, CreateEndpointResponse, EndpointInterface,
    ErrorResponse, InfoResponse, InterfaceName, JoinResponse, StaticRoute,
};

fn chars(s: &str) -> Vec<char> {
    s.chars().collect()
}

fn text(v: &[char]) -> String {
    v.iter().collect()
}

#[test]
fn manifest_is_exact() {
    assert_eq!(text(&encode_manifest()), "{\"Implements\":[\"NetworkDriver\"]}");
}

#[test]
fn empty_reply_is_exact() {
    assert_eq!(text(&encode_empty()), "{}");
}

#[test]
fn capabilities_encode() {
    let c = CapabilitiesResponse { scope: chars("local"), connectivity_scope: chars("global") };
    assert_eq!(
        text(&encode_capabilities(&c)),
        "{\"Scope\":\"local\",\"ConnectivityScope\":\"global\"}"
    );
}

#[test]
fn error_envelope_encodes() {
    let e = ErrorResponse { err: chars("no such network") };
    assert_eq!(text(&encode_error(&e)), "{\"Err\":\"no such network\"}");
}

#[test]
fn error_envelope_escapes_message() {
    let e = ErrorResponse { err: chars("bad \"name\" \\ path\nhere") };
    assert_eq!(
        text(&encode_error(&e)),
        "{\"Err\":\"bad \\\"name\\\" \\\\ path\\u000ahere\"}"
    );
}

#[test]
fn empty_options_map_encodes_as_braces() {
    // An empty map is {}, never null, never omitted.
    let a = AllocateNetworkResponse { options: vec![] };
    assert_eq!(text(&encode_allocate(&a)), "{\"Options\":{}}");
}

#[test]
fn options_map_encodes_entries_in_order() {
    let a = AllocateNetworkResponse {
        options: vec![(chars("a"), chars("1")), (chars("b"), chars("2"))],
    };
    assert_eq!(text(&encode_allocate(&a)), "{\"Options\":{\"a\":\"1\",\"b\":\"2\"}}");
}

#[test]
fn info_value_map_encodes() {
    let v = InfoResponse { value: vec![(chars("veth"), chars("veth0"))] };
    assert_eq!(text(&encode_info(&v)), "{\"Value\":{\"veth\":\"veth0\"}}");
}

#[test]
fn interface_encodes() {
    let f = EndpointInterface {
        address: chars("10.0.0.3/24"),
        address_ipv6: chars(""),
        address_mac: chars("02:42:0a:00:00:03"),
    };
    assert_eq!(
        text(&encode_interface(&f)),
        "{\"Address\":\"10.0.0.3/24\",\"AddressIPv6\":\"\",\"MacAddress\":\"02:42:0a:00:00:03\"}"
    );
}

#[test]
fn create_endpoint_wraps_interface() {
    let c = CreateEndpointResponse {
        interface: EndpointInterface {
            address: chars("a"),
            address_ipv6: chars("b"),
            address_mac: chars("c"),
        },
    };
    assert_eq!(
        text(&encode_create_endpoint(&c)),
        "{\"Interface\":{\"Address\":\"a\",\"AddressIPv6\":\"b\",\"MacAddress\":\"c\"}}"
    );
}

#[test]
fn empty_route_list_encodes_as_brackets() {
    // An empty list is [], never null, never omitted.
    let j = JoinResponse {
        interface_name: InterfaceName { src_name: chars("veth1"), dst_prefix: chars("eth") },
        gateway: chars("10.0.0.1"),
        gateway_ipv6: chars(""),
        static_routes: vec![],
        disable_gateway_service: false,
    };
    assert_eq!(
        text(&encode_join(&j)),
        "{\"InterfaceName\":{\"SrcName\":\"veth1\",\"DstPrefix\":\"eth\"},\
         \"Gateway\":\"10.0.0.1\",\"GatewayIPv6\":\"\",\"StaticRoutes\":[],\
         \"DisableGatewayService\":false}"
    );
}

#[test]
fn join_with_routes_encodes() {
    let j = JoinResponse {
        interface_name: InterfaceName { src_name: chars("v"), dst_prefix: chars("e") },
        gateway: chars(""),
        gateway_ipv6: chars(""),
        static_routes: vec![
            StaticRoute {
                destination: chars("0.0.0.0/0"),
                route_type: 0,
                next_hop: chars("10.0.0.1"),
            },
            StaticRoute { destination: chars("fd00::/8"), route_type: -1, next_hop: chars("") },
        ],
        disable_gateway_service: true,
    };
    let got = text(&encode_join(&j));
    let want = String::from("{\"InterfaceName\":{\"SrcName\":\"v\",\"DstPrefix\":\"e\"},")
        + "\"Gateway\":\"\",\"GatewayIPv6\":\"\",\"StaticRoutes\":["
        + "{\"Destination\":\"0.0.0.0/0\",\"RouteType\":0,\"NextHop\":\"10.0.0.1\"},"
        + "{\"Destination\":\"fd00::/8\",\"RouteType\":-1,\"NextHop\":\"\"}],"
        + "\"DisableGatewayService\":true}";
    assert_eq!(got, want);
}

#[test]
fn route_type_encodes_large_magnitudes() {
    let j = JoinResponse {
        interface_name: InterfaceName { src_name: chars(""), dst_prefix: chars("") },
        gateway: chars(""),
        gateway_ipv6: chars(""),
        static_routes: vec![
            StaticRoute {
                destination: chars("d"),
                route_type: i64::MAX,
                next_hop: chars(""),
            },
            StaticRoute {
                destination: chars("d"),
                route_type: i64::MIN,
                next_hop: chars(""),
            },
        ],
        disable_gateway_service: false,
    };
    let got = text(&encode_join(&j));
    assert!(got.contains("\"RouteType\":9223372036854775807"));
    assert!(got.contains("\"RouteType\":-9223372036854775808"));
}
