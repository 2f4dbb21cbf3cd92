//! Encoding of responses.
//!
//! Each response type has a specification-level encoder that gives the exact
//! character sequence put on the wire, and an executable encoder proved to
//! produce it.  Key order is fixed; empty maps encode as `{}` and empty
//! lists as `[]`.

use vstd::prelude::*;

use crate::json::{enc_i64, enc_str, push_enc_i64, push_enc_str};
use crate::schema::{
    AllocateNetworkResponse, AllocateNetworkResponseV, CapabilitiesResponse, CapabilitiesResponseV,
    CreateEndpointResponse, CreateEndpointResponseV, EndpointInterface, EndpointInterfaceV,
    ErrorResponse, ErrorResponseV, InfoResponse, InfoResponseV, InterfaceName, InterfaceNameV,
    JoinResponse, JoinResponseV, StaticRoute, StaticRouteV, route_list_view, str_map_view,
};
use crate::text::push_str_chars;

verus! {

// ---------------------------------------------------------------------------
// Fixed payloads
// ---------------------------------------------------------------------------

/// The activation handshake manifest.
pub open spec fn manifest_wire() -> Seq<char> {
    "{\"Implements\":[\"NetworkDriver\"]}"@
}

/// The empty-object reply of every fire-and-forget operation.
pub open spec fn empty_wire() -> Seq<char> {
    "{}"@
}

/// Returns the activation manifest.
pub fn encode_manifest() -> (r: Vec<char>)
    ensures
        r@ == manifest_wire(),
{
    let mut out: Vec<char> = Vec::new();
    push_str_chars(&mut out, "{\"Implements\":[\"NetworkDriver\"]}");
    assert(out@ =~= manifest_wire());
    out
}

/// Returns the empty-object reply.
pub fn encode_empty() -> (r: Vec<char>)
    ensures
        r@ == empty_wire(),
{
    let mut out: Vec<char> = Vec::new();
    push_str_chars(&mut out, "{}");
    assert(out@ =~= empty_wire());
    out
}

// ---------------------------------------------------------------------------
// Maps and lists
// ---------------------------------------------------------------------------

/// Entries of a string-to-string object, separated by commas.
pub open spec fn enc_str_map_items(m: Seq<(Seq<char>, Seq<char>)>) -> Seq<char>
    decreases m.len(),
{
    if m.len() == 0 {
        Seq::empty()
    } else if m.len() == 1 {
        enc_str(m[0].0) + seq![':'] + enc_str(m[0].1)
    } else {
        enc_str(m[0].0) + seq![':'] + enc_str(m[0].1) + seq![','] + enc_str_map_items(m.skip(1))
    }
}

/// A string-to-string object; an empty map is `{}`.
pub open spec fn enc_str_map(m: Seq<(Seq<char>, Seq<char>)>) -> Seq<char> {
    seq!['{'] + enc_str_map_items(m) + seq!['}']
}

fn push_str_map_items(out: &mut Vec<char>, m: &[(Vec<char>, Vec<char>)], i: usize)
    requires
        i <= m@.len(),
    ensures
        final(out)@ == old(out)@ + enc_str_map_items(str_map_view(m@).skip(i as int)),
    decreases m@.len() - i,
{
    let ghost mv = str_map_view(m@);
    let n = m.len();
    if i == n {
        assert(mv.skip(i as int) =~= Seq::<(Seq<char>, Seq<char>)>::empty());
        assert(out@ =~= old(out)@ + enc_str_map_items(mv.skip(i as int)));
        return ;
    }
    assert(mv.skip(i as int)[0] == mv[i as int]);
    assert(mv.skip(i as int).len() == n - i);
    push_enc_str(out, m[i].0.as_slice());
    out.push(':');
    push_enc_str(out, m[i].1.as_slice());
    if i + 1 < n {
        out.push(',');
        assert(mv.skip(i as int).skip(1) =~= mv.skip(i + 1 as int));
        push_str_map_items(out, m, i + 1);
        assert(out@ =~= old(out)@ + enc_str_map_items(mv.skip(i as int)));
    } else {
        assert(out@ =~= old(out)@ + enc_str_map_items(mv.skip(i as int)));
    }
}

/// Appends the encoded form of a string-to-string map to `out`.
pub fn push_enc_str_map(out: &mut Vec<char>, m: &[(Vec<char>, Vec<char>)])
    ensures
        final(out)@ == old(out)@ + enc_str_map(str_map_view(m@)),
{
    out.push('{');
    assert(str_map_view(m@).skip(0) =~= str_map_view(m@));
    push_str_map_items(out, m, 0);
    out.push('}');
    assert(out@ =~= old(out)@ + enc_str_map(str_map_view(m@)));
}

/// One static route.
pub open spec fn enc_route(t: StaticRouteV) -> Seq<char> {
    "{\"Destination\":"@ + enc_str(t.destination) + ",\"RouteType\":"@ + enc_i64(t.route_type)
        + ",\"NextHop\":"@ + enc_str(t.next_hop) + "}"@
}

/// Elements of a static-route array, separated by commas.
pub open spec fn enc_route_items(l: Seq<StaticRouteV>) -> Seq<char>
    decreases l.len(),
{
    if l.len() == 0 {
        Seq::empty()
    } else if l.len() == 1 {
        enc_route(l[0])
    } else {
        enc_route(l[0]) + seq![','] + enc_route_items(l.skip(1))
    }
}

/// A static-route array; an empty list is `[]`.
pub open spec fn enc_route_list(l: Seq<StaticRouteV>) -> Seq<char> {
    seq!['['] + enc_route_items(l) + seq![']']
}

fn push_enc_route(out: &mut Vec<char>, t: &StaticRoute)
    ensures
        final(out)@ == old(out)@ + enc_route(t@),
{
    push_str_chars(out, "{\"Destination\":");
    push_enc_str(out, t.destination.as_slice());
    push_str_chars(out, ",\"RouteType\":");
    push_enc_i64(out, t.route_type);
    push_str_chars(out, ",\"NextHop\":");
    push_enc_str(out, t.next_hop.as_slice());
    push_str_chars(out, "}");
    assert(out@ =~= old(out)@ + enc_route(t@));
}

fn push_route_items(out: &mut Vec<char>, l: &[StaticRoute], i: usize)
    requires
        i <= l@.len(),
    ensures
        final(out)@ == old(out)@ + enc_route_items(route_list_view(l@).skip(i as int)),
    decreases l@.len() - i,
{
    let ghost lv = route_list_view(l@);
    let n = l.len();
    if i == n {
        assert(lv.skip(i as int) =~= Seq::<StaticRouteV>::empty());
        assert(out@ =~= old(out)@ + enc_route_items(lv.skip(i as int)));
        return ;
    }
    assert(lv.skip(i as int)[0] == lv[i as int]);
    assert(lv.skip(i as int).len() == n - i);
    push_enc_route(out, &l[i]);
    if i + 1 < n {
        out.push(',');
        assert(lv.skip(i as int).skip(1) =~= lv.skip(i + 1 as int));
        push_route_items(out, l, i + 1);
        assert(out@ =~= old(out)@ + enc_route_items(lv.skip(i as int)));
    } else {
        assert(out@ =~= old(out)@ + enc_route_items(lv.skip(i as int)));
    }
}

/// Appends the encoded form of a static-route list to `out`.
pub fn push_enc_route_list(out: &mut Vec<char>, l: &[StaticRoute])
    ensures
        final(out)@ == old(out)@ + enc_route_list(route_list_view(l@)),
{
    out.push('[');
    assert(route_list_view(l@).skip(0) =~= route_list_view(l@));
    push_route_items(out, l, 0);
    out.push(']');
    assert(out@ =~= old(out)@ + enc_route_list(route_list_view(l@)));
}

/// A boolean value.
pub open spec fn enc_bool(b: bool) -> Seq<char> {
    if b {
        "true"@
    } else {
        "false"@
    }
}

// ---------------------------------------------------------------------------
// Response bodies
// ---------------------------------------------------------------------------

/// The capabilities advertisement.
pub open spec fn enc_capabilities(c: CapabilitiesResponseV) -> Seq<char> {
    "{\"Scope\":"@ + enc_str(c.scope) + ",\"ConnectivityScope\":"@ + enc_str(c.connectivity_scope)
        + "}"@
}

/// Encodes a capabilities response.
pub fn encode_capabilities(c: &CapabilitiesResponse) -> (r: Vec<char>)
    ensures
        r@ == enc_capabilities(c@),
{
    let mut out: Vec<char> = Vec::new();
    push_str_chars(&mut out, "{\"Scope\":");
    push_enc_str(&mut out, c.scope.as_slice());
    push_str_chars(&mut out, ",\"ConnectivityScope\":");
    push_enc_str(&mut out, c.connectivity_scope.as_slice());
    push_str_chars(&mut out, "}");
    assert(out@ =~= enc_capabilities(c@));
    out
}

/// The allocate-network result.
pub open spec fn enc_allocate(a: AllocateNetworkResponseV) -> Seq<char> {
    "{\"Options\":"@ + enc_str_map(a.options) + "}"@
}

/// Encodes an allocate-network response.
pub fn encode_allocate(a: &AllocateNetworkResponse) -> (r: Vec<char>)
    ensures
        r@ == enc_allocate(a@),
{
    let mut out: Vec<char> = Vec::new();
    push_str_chars(&mut out, "{\"Options\":");
    push_enc_str_map(&mut out, a.options.as_slice());
    push_str_chars(&mut out, "}");
    assert(out@ =~= enc_allocate(a@));
    out
}

/// An interface object, as placed inside a create-endpoint response; the
/// same shape that create-endpoint requests carry, so its keys are written
/// through the string encoder and the round-trip law relates the two.
pub open spec fn enc_interface(f: EndpointInterfaceV) -> Seq<char> {
    seq!['{'] + enc_str("Address"@) + seq![':'] + enc_str(f.address) + seq![','] + enc_str(
        "AddressIPv6"@,
    ) + seq![':'] + enc_str(f.address_ipv6) + seq![','] + enc_str("MacAddress"@) + seq![':']
        + enc_str(f.address_mac) + seq!['}']
}

/// Encodes an interface object.
pub fn encode_interface(f: &EndpointInterface) -> (r: Vec<char>)
    ensures
        r@ == enc_interface(f@),
{
    let mut out: Vec<char> = Vec::new();
    out.push('{');
    let k1 = crate::text::str_to_chars("Address");
    push_enc_str(&mut out, k1.as_slice());
    out.push(':');
    push_enc_str(&mut out, f.address.as_slice());
    out.push(',');
    let k2 = crate::text::str_to_chars("AddressIPv6");
    push_enc_str(&mut out, k2.as_slice());
    out.push(':');
    push_enc_str(&mut out, f.address_ipv6.as_slice());
    out.push(',');
    let k3 = crate::text::str_to_chars("MacAddress");
    push_enc_str(&mut out, k3.as_slice());
    out.push(':');
    push_enc_str(&mut out, f.address_mac.as_slice());
    out.push('}');
    assert(out@ =~= enc_interface(f@));
    out
}

/// The create-endpoint result.
pub open spec fn enc_create_endpoint(c: CreateEndpointResponseV) -> Seq<char> {
    "{\"Interface\":"@ + enc_interface(c.interface) + "}"@
}

/// Encodes a create-endpoint response.
pub fn encode_create_endpoint(c: &CreateEndpointResponse) -> (r: Vec<char>)
    ensures
        r@ == enc_create_endpoint(c@),
{
    let mut out: Vec<char> = Vec::new();
    push_str_chars(&mut out, "{\"Interface\":");
    let mut f = encode_interface(&c.interface);
    out.append(&mut f);
    push_str_chars(&mut out, "}");
    assert(out@ =~= enc_create_endpoint(c@));
    out
}

/// The endpoint-info result.
pub open spec fn enc_info(v: InfoResponseV) -> Seq<char> {
    "{\"Value\":"@ + enc_str_map(v.value) + "}"@
}

/// Encodes an endpoint-info response.
pub fn encode_info(v: &InfoResponse) -> (r: Vec<char>)
    ensures
        r@ == enc_info(v@),
{
    let mut out: Vec<char> = Vec::new();
    push_str_chars(&mut out, "{\"Value\":");
    push_enc_str_map(&mut out, v.value.as_slice());
    push_str_chars(&mut out, "}");
    assert(out@ =~= enc_info(v@));
    out
}

/// The interface naming hint inside a join result.
pub open spec fn enc_iface_name(nm: InterfaceNameV) -> Seq<char> {
    "{\"SrcName\":"@ + enc_str(nm.src_name) + ",\"DstPrefix\":"@ + enc_str(nm.dst_prefix) + "}"@
}

/// The join result.
pub open spec fn enc_join(j: JoinResponseV) -> Seq<char> {
    "{\"InterfaceName\":"@ + enc_iface_name(j.interface_name) + ",\"Gateway\":"@ + enc_str(
        j.gateway,
    ) + ",\"GatewayIPv6\":"@ + enc_str(j.gateway_ipv6) + ",\"StaticRoutes\":"@ + enc_route_list(
        j.static_routes,
    ) + ",\"DisableGatewayService\":"@ + enc_bool(j.disable_gateway_service) + "}"@
}

/// Encodes a join response.
pub fn encode_join(j: &JoinResponse) -> (r: Vec<char>)
    ensures
        r@ == enc_join(j@),
{
    let mut out: Vec<char> = Vec::new();
    push_str_chars(&mut out, "{\"InterfaceName\":");
    push_str_chars(&mut out, "{\"SrcName\":");
    push_enc_str(&mut out, j.interface_name.src_name.as_slice());
    push_str_chars(&mut out, ",\"DstPrefix\":");
    push_enc_str(&mut out, j.interface_name.dst_prefix.as_slice());
    push_str_chars(&mut out, "}");
    push_str_chars(&mut out, ",\"Gateway\":");
    push_enc_str(&mut out, j.gateway.as_slice());
    push_str_chars(&mut out, ",\"GatewayIPv6\":");
    push_enc_str(&mut out, j.gateway_ipv6.as_slice());
    push_str_chars(&mut out, ",\"StaticRoutes\":");
    push_enc_route_list(&mut out, j.static_routes.as_slice());
    push_str_chars(&mut out, ",\"DisableGatewayService\":");
    if j.disable_gateway_service {
        push_str_chars(&mut out, "true");
    } else {
        push_str_chars(&mut out, "false");
    }
    push_str_chars(&mut out, "}");
    assert(out@ =~= enc_join(j@));
    out
}

/// The uniform error envelope.
pub open spec fn enc_error(e: ErrorResponseV) -> Seq<char> {
    "{\"Err\":"@ + enc_str(e.err) + "}"@
}

/// Encodes an error response.
pub fn encode_error(e: &ErrorResponse) -> (r: Vec<char>)
    ensures
        r@ == enc_error(e@),
{
    let mut out: Vec<char> = Vec::new();
    push_str_chars(&mut out, "{\"Err\":");
    push_enc_str(&mut out, e.err.as_slice());
    push_str_chars(&mut out, "}");
    assert(out@ =~= enc_error(e@));
    out
}

} // verus!
