//! Protocol laws, stated and proved over the wire-level specifications.

use vstd::prelude::*;

use crate::dispatch::{allocate_wire, create_endpoint_wire, info_wire, join_wire};
use crate::encode::{
    enc_allocate, enc_create_endpoint, enc_error, enc_info, enc_join, enc_route_items,
    enc_route_list, enc_str_map, enc_str_map_items,
};
use crate::decode::{FieldAccV, acc_interface, empty_acc, parse_fields, parse_interface_obj};
use crate::json::{
    enc_str, esc_char, esc_seq, hex4, hex_char, hex_val, parse_str_body, parse_string,
    parse_u_escape, skip_ws,
};
use crate::encode::enc_interface;
use crate::schema::{
    AllocateNetworkResponseV, CreateEndpointResponseV, EndpointInterfaceV, ErrorResponseV,
    InfoResponseV, JoinResponseV, StaticRouteV,
};

verus! {

/// Whatever a driver returns for a fallible operation, the dispatched body
/// is either the operation's success schema or the uniform error envelope,
/// never anything else.
pub proof fn lemma_fallible_wire_is_schema(
    a: Result<AllocateNetworkResponseV, ErrorResponseV>,
    c: Result<CreateEndpointResponseV, ErrorResponseV>,
    v: Result<InfoResponseV, ErrorResponseV>,
    j: Result<JoinResponseV, ErrorResponseV>,
)
    ensures
        (exists|x: AllocateNetworkResponseV| allocate_wire(a) == enc_allocate(x)) || (
        exists|e: ErrorResponseV| allocate_wire(a) == enc_error(e)),
        (exists|x: CreateEndpointResponseV| create_endpoint_wire(c) == enc_create_endpoint(x)) || (
        exists|e: ErrorResponseV| create_endpoint_wire(c) == enc_error(e)),
        (exists|x: InfoResponseV| info_wire(v) == enc_info(x)) || (exists|e: ErrorResponseV|
            info_wire(v) == enc_error(e)),
        (exists|x: JoinResponseV| join_wire(j) == enc_join(x)) || (exists|e: ErrorResponseV|
            join_wire(j) == enc_error(e)),
{
    match a {
        Ok(x) => assert(allocate_wire(a) == enc_allocate(x)),
        Err(e) => assert(allocate_wire(a) == enc_error(e)),
    }
    match c {
        Ok(x) => assert(create_endpoint_wire(c) == enc_create_endpoint(x)),
        Err(e) => assert(create_endpoint_wire(c) == enc_error(e)),
    }
    match v {
        Ok(x) => assert(info_wire(v) == enc_info(x)),
        Err(e) => assert(info_wire(v) == enc_error(e)),
    }
    match j {
        Ok(x) => assert(join_wire(j) == enc_join(x)),
        Err(e) => assert(join_wire(j) == enc_error(e)),
    }
}

/// An empty option map encodes as `{}` and an empty route list as `[]`:
/// never null, never omitted.
pub proof fn lemma_empty_collections_encode()
    ensures
        enc_str_map(Seq::<(Seq<char>, Seq<char>)>::empty()) == "{}"@,
        enc_route_list(Seq::<StaticRouteV>::empty()) == "[]"@,
{
    reveal_strlit("{}");
    reveal_strlit("[]");
    assert(enc_str_map_items(Seq::<(Seq<char>, Seq<char>)>::empty()) == Seq::<char>::empty());
    assert(enc_route_items(Seq::<StaticRouteV>::empty()) == Seq::<char>::empty());
    assert(enc_str_map(Seq::<(Seq<char>, Seq<char>)>::empty()) =~= "{}"@);
    assert(enc_route_list(Seq::<StaticRouteV>::empty()) =~= "[]"@);
}

// ---------------------------------------------------------------------------
// Round trip: a decoded value, re-encoded, decodes to itself
// ---------------------------------------------------------------------------

/// A hexadecimal digit character denotes the value it encodes.
proof fn lemma_hex_char_val(d: u32)
    requires
        d < 16,
    ensures
        hex_val(hex_char(d)) == Some(d),
{
    vstd::utf8::char_u32_cast(hex_char(d), if d < 10 {
        (48 + d) as u32
    } else {
        (87 + d) as u32
    });
}

/// The string-body parser undoes the string encoder: after the escaped form
/// of `x` and a closing quote, it yields `x` and the rest.
proof fn lemma_parse_str_body_enc(x: Seq<char>, rest: Seq<char>)
    ensures
        parse_str_body(esc_seq(x) + seq!['"'] + rest) == Some((x, rest)),
    decreases x.len(),
{
    let u = esc_seq(x) + seq!['"'] + rest;
    if x.len() == 0 {
        assert(esc_seq(x) == Seq::<char>::empty());
        assert(u[0] == '"');
        assert(u.skip(1) =~= rest);
    } else {
        let c = x[0];
        let x1 = x.skip(1);
        let u1 = esc_seq(x1) + seq!['"'] + rest;
        assert(esc_seq(x) == esc_char(c) + esc_seq(x1));
        assert(u =~= esc_char(c) + u1);
        lemma_parse_str_body_enc(x1, rest);
        if c == '"' {
            assert(esc_char(c) == seq!['\\', '"']);
            assert(u[0] == '\\' && u[1] == '"');
            assert(u.skip(2) =~= u1);
            assert(seq![c] + x1 =~= x);
        } else if c == '\\' {
            assert(esc_char(c) == seq!['\\', '\\']);
            assert(u[0] == '\\' && u[1] == '\\');
            assert(u.skip(2) =~= u1);
            assert(seq![c] + x1 =~= x);
        } else if (c as u32) < 0x20 {
            let cu = c as u32;
            let h1 = hex_char(cu / 16);
            let h0 = hex_char(cu % 16);
            assert(esc_char(c) == seq!['\\', 'u', '0', '0', h1, h0]);
            assert(u[0] == '\\' && u[1] == 'u');
            assert(u.len() >= 7);
            let w = u.skip(2);
            assert(w[0] == '0' && w[1] == '0' && w[2] == h1 && w[3] == h0);
            assert(hex_val('0') == Some(0u32));
            lemma_hex_char_val(cu / 16);
            lemma_hex_char_val(cu % 16);
            assert(hex4(w) == Some((0 * 4096 + 0 * 256 + (cu / 16) * 16 + cu % 16) as u32));
            assert((cu / 16) * 16 + cu % 16 == cu);
            assert(hex4(w) == Some(cu));
            assert(cu < 0xD800);
            vstd::utf8::char_u32_cast(c, cu);
            assert(parse_u_escape(u) == Some((c, 6int)));
            assert(u.skip(6) =~= u1);
            assert(seq![c] + x1 =~= x);
        } else {
            assert(esc_char(c) == seq![c]);
            assert(u[0] == c);
            assert(c as u32 >= 0x20);
            assert(u.skip(1) =~= u1);
            assert(seq![c] + x1 =~= x);
        }
    }
}

/// The string parser undoes the string encoder.
pub proof fn lemma_parse_string_enc(x: Seq<char>, rest: Seq<char>)
    ensures
        parse_string(enc_str(x) + rest) == Some((x, rest)),
{
    let u = enc_str(x) + rest;
    assert(u[0] == '"');
    assert(u.skip(1) =~= esc_seq(x) + seq!['"'] + rest);
    lemma_parse_str_body_enc(x, rest);
}

/// The interface keys differ from every key checked before them in the
/// field table.
proof fn lemma_iface_keys_distinct()
    ensures
        "Address"@ != "NetworkId"@,
        "Address"@ != "EndpointId"@,
        "Address"@ != "NetworkID"@,
        "Address"@ != "EndpointID"@,
        "Address"@ != "SandboxKey"@,
        "Address"@ != "Options"@,
        "Address"@ != "IPv4Data"@,
        "Address"@ != "IPv6Data"@,
        "Address"@ != "Interface"@,
        "Address"@ != "DiscoveryType"@,
        "Address"@ != "DiscoveryData"@,
        "AddressIPv6"@ != "NetworkId"@,
        "AddressIPv6"@ != "EndpointId"@,
        "AddressIPv6"@ != "NetworkID"@,
        "AddressIPv6"@ != "EndpointID"@,
        "AddressIPv6"@ != "SandboxKey"@,
        "AddressIPv6"@ != "Options"@,
        "AddressIPv6"@ != "IPv4Data"@,
        "AddressIPv6"@ != "IPv6Data"@,
        "AddressIPv6"@ != "Interface"@,
        "AddressIPv6"@ != "DiscoveryType"@,
        "AddressIPv6"@ != "DiscoveryData"@,
        "AddressIPv6"@ != "Address"@,
        "MacAddress"@ != "NetworkId"@,
        "MacAddress"@ != "EndpointId"@,
        "MacAddress"@ != "NetworkID"@,
        "MacAddress"@ != "EndpointID"@,
        "MacAddress"@ != "SandboxKey"@,
        "MacAddress"@ != "Options"@,
        "MacAddress"@ != "IPv4Data"@,
        "MacAddress"@ != "IPv6Data"@,
        "MacAddress"@ != "Interface"@,
        "MacAddress"@ != "DiscoveryType"@,
        "MacAddress"@ != "DiscoveryData"@,
        "MacAddress"@ != "Address"@,
        "MacAddress"@ != "AddressIPv6"@,
{
    reveal_strlit("Address");
    reveal_strlit("AddressIPv6");
    reveal_strlit("DiscoveryData");
    reveal_strlit("DiscoveryType");
    reveal_strlit("EndpointID");
    reveal_strlit("EndpointId");
    reveal_strlit("IPv4Data");
    reveal_strlit("IPv6Data");
    reveal_strlit("Interface");
    reveal_strlit("MacAddress");
    reveal_strlit("NetworkID");
    reveal_strlit("NetworkId");
    reveal_strlit("Options");
    reveal_strlit("SandboxKey");
    assert("Address"@.len() == 7);
    assert("AddressIPv6"@.len() == 11);
    assert("DiscoveryData"@.len() == 13);
    assert("DiscoveryType"@.len() == 13);
    assert("EndpointID"@.len() == 10);
    assert("EndpointId"@.len() == 10);
    assert("IPv4Data"@.len() == 8);
    assert("IPv6Data"@.len() == 8);
    assert("Interface"@.len() == 9);
    assert("MacAddress"@.len() == 10);
    assert("NetworkID"@.len() == 9);
    assert("NetworkId"@.len() == 9);
    assert("Options"@.len() == 7);
    assert("SandboxKey"@.len() == 10);
    assert("Address"@[0] != "Options"@[0]);
    assert("MacAddress"@[0] != "EndpointId"@[0]);
    assert("MacAddress"@[0] != "EndpointID"@[0]);
    assert("MacAddress"@[0] != "SandboxKey"@[0]);
}

/// Round-trip law for the one schema that is both decoded and encoded: an
/// interface value, re-encoded, parses back to exactly the same value (the
/// same key/value pairs), whatever characters its fields hold.  Hence
/// re-encoding the value decoded from any valid interface object is
/// semantically equivalent to that object.
#[verifier::rlimit(100)]
pub proof fn lemma_interface_round_trip(f: EndpointInterfaceV, rest: Seq<char>)
    ensures
        parse_interface_obj(enc_interface(f) + rest) == Some((f, rest)),
{
    lemma_iface_keys_distinct();
    let a = f.address;
    let b = f.address_ipv6;
    let m = f.address_mac;
    let t3: Seq<char> = seq!['}'] + rest;
    let w3: Seq<char> = seq![':'] + enc_str(m) + t3;
    let t2: Seq<char> = enc_str("MacAddress"@) + w3;
    let t1: Seq<char> = seq![','] + t2;
    let w2: Seq<char> = seq![':'] + enc_str(b) + t1;
    let s2: Seq<char> = enc_str("AddressIPv6"@) + w2;
    let s1: Seq<char> = seq![','] + s2;
    let w1: Seq<char> = seq![':'] + enc_str(a) + s1;
    let v0: Seq<char> = enc_str("Address"@) + w1;
    let u = enc_interface(f) + rest;
    assert(u =~= seq!['{'] + v0);

    // Third field: "MacAddress", then the closing brace.
    let acc2 = FieldAccV { address: Some(a), ..empty_acc() };
    let acc3 = FieldAccV { address_ipv6: Some(b), ..acc2 };
    let acc4 = FieldAccV { address_mac: Some(m), ..acc3 };
    lemma_parse_string_enc("MacAddress"@, w3);
    assert(t2 == enc_str("MacAddress"@) + w3);
    assert(w3[0] == ':');
    assert(skip_ws(w3) == w3);
    assert(w3.skip(1) =~= enc_str(m) + t3);
    assert((enc_str(m) + t3)[0] == '"');
    assert(skip_ws(enc_str(m) + t3) == enc_str(m) + t3);
    lemma_parse_string_enc(m, t3);
    assert(t3[0] == '}');
    assert(skip_ws(t3) == t3);
    assert(t3.skip(1) =~= rest);
    assert(acc_interface(acc4) == Some(f));
    assert(parse_fields(t2, acc3) == Some((acc4, rest)));

    // Second field: "AddressIPv6".
    lemma_parse_string_enc("AddressIPv6"@, w2);
    assert(s2 == enc_str("AddressIPv6"@) + w2);
    assert(w2[0] == ':');
    assert(skip_ws(w2) == w2);
    assert(w2.skip(1) =~= enc_str(b) + t1);
    assert((enc_str(b) + t1)[0] == '"');
    assert(skip_ws(enc_str(b) + t1) == enc_str(b) + t1);
    lemma_parse_string_enc(b, t1);
    assert(t1[0] == ',');
    assert(skip_ws(t1) == t1);
    assert(t1.skip(1) =~= t2);
    assert(t2[0] == '"');
    assert(skip_ws(t2) == t2);
    assert(t2.len() < s2.len());
    assert(parse_fields(s2, acc2) == Some((acc4, rest)));

    // First field: "Address".
    lemma_parse_string_enc("Address"@, w1);
    assert(v0 == enc_str("Address"@) + w1);
    assert(w1[0] == ':');
    assert(skip_ws(w1) == w1);
    assert(w1.skip(1) =~= enc_str(a) + s1);
    assert((enc_str(a) + s1)[0] == '"');
    assert(skip_ws(enc_str(a) + s1) == enc_str(a) + s1);
    lemma_parse_string_enc(a, s1);
    assert(s1[0] == ',');
    assert(skip_ws(s1) == s1);
    assert(s1.skip(1) =~= s2);
    assert(s2[0] == '"');
    assert(skip_ws(s2) == s2);
    assert(s2.len() < v0.len());
    assert(parse_fields(v0, empty_acc()) == Some((acc4, rest)));

    // The object around the fields.
    assert(u[0] == '{');
    assert(u.skip(1) =~= v0);
    assert(v0[0] == '"');
    assert(skip_ws(v0) == v0);
    assert(v0.len() < u.len());
    assert(parse_interface_obj(u) == Some((f, rest)));
}

/// Corollary, in the round-trip direction of the protocol: re-encoding the
/// value decoded from any valid interface object decodes back to that very
/// value, so the re-encoded text carries the same key/value pairs as the
/// object it was decoded from.
pub proof fn lemma_interface_reencode_equivalent(j: Seq<char>)
    requires
        parse_interface_obj(j) is Some,
    ensures
        parse_interface_obj(
            enc_interface((parse_interface_obj(j)->0).0) + (parse_interface_obj(j)->0).1,
        ) == parse_interface_obj(j),
{
    let (f, rest) = parse_interface_obj(j)->0;
    lemma_interface_round_trip(f, rest);
}

} // verus!
