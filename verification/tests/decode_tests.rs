use netdriver::decode::{
    decode_allocate_network_request, decode_create_endpoint_request, decode_create_network_request,
    decode_discover_request, decode_endpoint_request, decode_ext_conn_request, decode_join_request,
    decode_network_request,
};

fn chars(s: &str) -> Vec<char> {
    s.chars().collect()
}

#[test]
fn create_network_missing_fields_fails() {
    // Only NetworkId present: Options, IPv4Data and IPv6Data are required.
    assert!(decode_create_network_request("{\"NetworkId\":\"abc\"}").is_none());
}

#[test]
fn create_network_full_succeeds_and_round_trips_id() {
    let q = decode_create_network_request(
        "{\"NetworkId\":\"abc\",\"Options\":{},\"IPv4Data\":[],\"IPv6Data\":[]}",
    )
    .expect("a complete create-network body must decode");
    assert_eq!(q.network_id, chars("abc"));
    assert!(q.options.is_empty());
    assert!(q.ipv4_data.is_empty());
    assert!(q.ipv6_data.is_empty());
}

#[test]
fn create_network_with_pools_and_options() {
    let q = decode_create_network_request(
        "{\"NetworkId\":\"n1\",\"Options\":{\"mtu\":\"1500\",\"kind\":\"bridge\"},\
         \"IPv4Data\":[{\"AddressSpace\":\"local\",\"Pool\":\"10.0.0.0/24\",\
         \"Gateway\":\"10.0.0.1\",\"AuxAddresses\":{\"dns\":\"10.0.0.2\"}}],\"IPv6Data\":[]}",
    )
    .expect("a create-network body with pools must decode");
    assert_eq!(q.options.len(), 2);
    assert_eq!(q.options[0], (chars("mtu"), chars("1500")));
    assert_eq!(q.options[1], (chars("kind"), chars("bridge")));
    assert_eq!(q.ipv4_data.len(), 1);
    assert_eq!(q.ipv4_data[0].address_space, chars("local"));
    assert_eq!(q.ipv4_data[0].pool, chars("10.0.0.0/24"));
    assert_eq!(q.ipv4_data[0].gateway, chars("10.0.0.1"));
    assert_eq!(q.ipv4_data[0].aux_addresses, vec![(chars("dns"), chars("10.0.0.2"))]);
    assert!(q.ipv6_data.is_empty());
}

#[test]
fn allocate_network_same_shape_as_create() {
    let q = decode_allocate_network_request(
        "{\"NetworkId\":\"n2\",\"Options\":{},\"IPv4Data\":[],\"IPv6Data\":[]}",
    )
    .expect("a complete allocate-network body must decode");
    assert_eq!(q.network_id, chars("n2"));
}

#[test]
fn network_request_decodes() {
    let q = decode_network_request("{\"NetworkId\":\"net1\"}").expect("must decode");
    assert_eq!(q.network_id, chars("net1"));
}

#[test]
fn network_request_rejects_extra_keys() {
    // The delete/free shape has exactly one key.
    assert!(decode_network_request("{\"NetworkId\":\"n\",\"EndpointId\":\"e\"}").is_none());
}

#[test]
fn network_request_rejects_unknown_key() {
    assert!(decode_network_request("{\"NetworkId\":\"n\",\"Color\":\"red\"}").is_none());
}

#[test]
fn network_request_rejects_empty_object() {
    assert!(decode_network_request("{}").is_none());
}

#[test]
fn network_request_rejects_malformed_json() {
    assert!(decode_network_request("{\"NetworkId\":\"n\"").is_none());
    assert!(decode_network_request("").is_none());
    assert!(decode_network_request("null").is_none());
    assert!(decode_network_request("[]").is_none());
    assert!(decode_network_request("{\"NetworkId\":5}").is_none());
    assert!(decode_network_request("{\"NetworkId\":\"n\"}x").is_none());
}

#[test]
fn network_request_duplicate_key_keeps_last() {
    let q = decode_network_request("{\"NetworkId\":\"a\",\"NetworkId\":\"b\"}")
        .expect("duplicate keys keep the last value");
    assert_eq!(q.network_id, chars("b"));
}

#[test]
fn network_request_tolerates_whitespace() {
    let q = decode_network_request(" \t\r\n{ \"NetworkId\" :\n\"n\" } ").expect("must decode");
    assert_eq!(q.network_id, chars("n"));
}

#[test]
fn endpoint_request_decodes() {
    let q = decode_endpoint_request("{\"NetworkId\":\"n\",\"EndpointId\":\"e\"}")
        .expect("must decode");
    assert_eq!(q.network_id, chars("n"));
    assert_eq!(q.endpoint_id, chars("e"));
}

#[test]
fn endpoint_request_key_order_is_free() {
    let q = decode_endpoint_request("{\"EndpointId\":\"e\",\"NetworkId\":\"n\"}")
        .expect("must decode");
    assert_eq!(q.network_id, chars("n"));
    assert_eq!(q.endpoint_id, chars("e"));
}

#[test]
fn endpoint_request_missing_endpoint_fails() {
    assert!(decode_endpoint_request("{\"NetworkId\":\"n\"}").is_none());
}

#[test]
fn create_endpoint_request_decodes_interface() {
    let q = decode_create_endpoint_request(
        "{\"NetworkId\":\"n\",\"EndpointId\":\"e\",\"Interface\":{\"Address\":\"10.0.0.3/24\",\
         \"AddressIPv6\":\"\",\"MacAddress\":\"02:42:0a:00:00:03\"},\"Options\":{}}",
    )
    .expect("must decode");
    assert_eq!(q.interface.address, chars("10.0.0.3/24"));
    assert_eq!(q.interface.address_ipv6, chars(""));
    assert_eq!(q.interface.address_mac, chars("02:42:0a:00:00:03"));
}

#[test]
fn create_endpoint_interface_requires_all_three_fields() {
    assert!(decode_create_endpoint_request(
        "{\"NetworkId\":\"n\",\"EndpointId\":\"e\",\"Interface\":{\"Address\":\"a\"},\
         \"Options\":{}}",
    )
    .is_none());
}

#[test]
fn discover_request_decodes() {
    let q = decode_discover_request("{\"DiscoveryType\":1,\"DiscoveryData\":\"peer\"}")
        .expect("must decode");
    assert_eq!(q.discovery_type, 1);
    assert_eq!(q.discovery_data, chars("peer"));
}

#[test]
fn discover_request_negative_and_large_types() {
    let q = decode_discover_request("{\"DiscoveryType\":-7,\"DiscoveryData\":\"\"}")
        .expect("must decode");
    assert_eq!(q.discovery_type, -7);
    let q = decode_discover_request(
        "{\"DiscoveryType\":9223372036854775807,\"DiscoveryData\":\"\"}",
    )
    .expect("must decode");
    assert_eq!(q.discovery_type, i64::MAX);
    let q = decode_discover_request(
        "{\"DiscoveryType\":-9223372036854775808,\"DiscoveryData\":\"\"}",
    )
    .expect("must decode");
    assert_eq!(q.discovery_type, i64::MIN);
}

#[test]
fn discover_request_rejects_bad_numbers() {
    // Out of range, fractional, leading zero, or non-numeric.
    assert!(decode_discover_request(
        "{\"DiscoveryType\":9223372036854775808,\"DiscoveryData\":\"\"}"
    )
    .is_none());
    assert!(decode_discover_request("{\"DiscoveryType\":1.5,\"DiscoveryData\":\"\"}").is_none());
    assert!(decode_discover_request("{\"DiscoveryType\":01,\"DiscoveryData\":\"\"}").is_none());
    assert!(decode_discover_request("{\"DiscoveryType\":\"1\",\"DiscoveryData\":\"\"}").is_none());
}

#[test]
fn ext_conn_request_decodes() {
    let q = decode_ext_conn_request(
        "{\"NetworkId\":\"n\",\"EndpointId\":\"e\",\"Options\":{\"p\":\"80\"}}",
    )
    .expect("must decode");
    assert_eq!(q.options, vec![(chars("p"), chars("80"))]);
}

#[test]
fn join_request_uses_capitalized_id_keys() {
    let q = decode_join_request(
        "{\"NetworkID\":\"n\",\"EndpointID\":\"e\",\"SandboxKey\":\"/var/run/docker/netns/x\",\
         \"Options\":{}}",
    )
    .expect("must decode");
    assert_eq!(q.network_id, chars("n"));
    assert_eq!(q.endpoint_id, chars("e"));
    assert_eq!(q.sandbox_key, chars("/var/run/docker/netns/x"));
    // The lower-cased key spelling of the other requests is a different key.
    assert!(decode_join_request(
        "{\"NetworkId\":\"n\",\"EndpointId\":\"e\",\"SandboxKey\":\"k\",\"Options\":{}}"
    )
    .is_none());
}

#[test]
fn string_escapes_decode() {
    let q = decode_network_request(
        "{\"NetworkId\":\"a\\\"b\\\\c\\/d\\n\\t\\r\\b\\f\\u0041\\u00e9\"}",
    )
    .expect("escapes must decode");
    let expected: Vec<char> = "a\"b\\c/d\n\t\r\u{8}\u{c}A\u{e9}".chars().collect();
    assert_eq!(q.network_id, expected);
}

#[test]
fn surrogate_pair_escapes_decode() {
    let q = decode_network_request("{\"NetworkId\":\"\\uD83D\\uDE00\"}")
        .expect("a surrogate pair must decode");
    assert_eq!(q.network_id, vec!['\u{1F600}']);
    // A lone high surrogate is malformed.
    assert!(decode_network_request("{\"NetworkId\":\"\\uD83Dx\"}").is_none());
}

#[test]
fn unicode_content_passes_through() {
    let q = decode_network_request("{\"NetworkId\":\"réseau-Ø\"}").expect("must decode");
    assert_eq!(q.network_id, chars("réseau-Ø"));
}

#[test]
fn control_characters_must_be_escaped() {
    assert!(decode_network_request("{\"NetworkId\":\"a\nb\"}").is_none());
}
