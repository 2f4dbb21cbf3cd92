//! Decoding of request bodies.
//!
//! Every operation's request is a JSON object drawn from one fixed key set;
//! a single field parser accumulates whichever known keys appear (an unknown
//! key is a decode failure, and a repeated key keeps its last value), and a
//! typed extractor per request shape demands exactly that shape's keys.
//! Specification-level parsers over `Seq<char>` define the grammar; the
//! executable parsers are proved to agree with them.

use vstd::prelude::*;

use crate::json::{parse_int, parse_string, skip_ws, p_i64, p_string, p_ws};
use crate::schema::{
    AllocateNetworkRequest, AllocateNetworkRequestV, CreateEndpointRequest, CreateEndpointRequestV,
    CreateNetworkRequest, CreateNetworkRequestV, DiscoverRequest, DiscoverRequestV,
    EndpointInterface, EndpointInterfaceV, EndpointRequest, EndpointRequestV,
    ExternalConnectivityRequest, ExternalConnectivityRequestV, IPAMData, IPAMDataV, JoinRequest,
    JoinRequestV, NetworkRequest, NetworkRequestV, ipam_list_view, str_map_view,
};
use crate::text::chars_eq_str;

verus! {

// ---------------------------------------------------------------------------
// String-to-string option maps
// ---------------------------------------------------------------------------

/// Entries of a string-to-string object, starting at its first key.
pub open spec fn parse_str_map_items(u: Seq<char>) -> Option<
    (Seq<(Seq<char>, Seq<char>)>, Seq<char>),
>
    decreases u.len(),
{
    match parse_string(u) {
        None => None,
        Some((k, v1)) => {
            let v2 = skip_ws(v1);
            if v2.len() > 0 && v2[0] == ':' {
                let v3 = skip_ws(v2.skip(1));
                match parse_string(v3) {
                    None => None,
                    Some((val, w)) => {
                        let v4 = skip_ws(w);
                        if v4.len() > 0 && v4[0] == ',' {
                            let v5 = skip_ws(v4.skip(1));
                            if v5.len() < u.len() {
                                match parse_str_map_items(v5) {
                                    None => None,
                                    Some((rest, fin)) => Some((seq![(k, val)] + rest, fin)),
                                }
                            } else {
                                None
                            }
                        } else if v4.len() > 0 && v4[0] == '}' {
                            Some((seq![(k, val)], v4.skip(1)))
                        } else {
                            None
                        }
                    },
                }
            } else {
                None
            }
        },
    }
}

/// A string-to-string object at the head of `u`.
pub open spec fn parse_str_map(u: Seq<char>) -> Option<(Seq<(Seq<char>, Seq<char>)>, Seq<char>)> {
    if u.len() > 0 && u[0] == '{' {
        let v = skip_ws(u.skip(1));
        if v.len() > 0 && v[0] == '}' {
            Some((Seq::empty(), v.skip(1)))
        } else {
            parse_str_map_items(v)
        }
    } else {
        None
    }
}

#[verifier::rlimit(60)]
fn p_str_map_items(s: &[char], i: usize) -> (r: Option<(Vec<(Vec<char>, Vec<char>)>, usize)>)
    requires
        i <= s@.len(),
    ensures
        r is None <==> parse_str_map_items(s@.skip(i as int)) is None,
        r matches Some((m, j)) ==> i < j <= s@.len() && parse_str_map_items(s@.skip(i as int))
            == Some((str_map_view(m@), s@.skip(j as int))),
    decreases s@.len() - i,
{
    let ghost u = s@.skip(i as int);
    let n = s.len();
    let (k, j1) = match p_string(s, i) {
        None => { return None; },
        Some(x) => x,
    };
    let j2 = p_ws(s, j1);
    if !(j2 < n && s[j2] == ':') {
        assert(s@.skip(j2 as int).len() > 0 ==> s@.skip(j2 as int)[0] == s@[j2 as int]);
        return None;
    }
    assert(s@.skip(j2 as int)[0] == ':');
    assert(s@.skip(j2 as int).skip(1) =~= s@.skip(j2 + 1 as int));
    let j3 = p_ws(s, j2 + 1);
    let (val, j4) = match p_string(s, j3) {
        None => { return None; },
        Some(x) => x,
    };
    let j5 = p_ws(s, j4);
    if j5 < n && s[j5] == ',' {
        assert(s@.skip(j5 as int)[0] == ',');
        assert(s@.skip(j5 as int).skip(1) =~= s@.skip(j5 + 1 as int));
        let j6 = p_ws(s, j5 + 1);
        if j6 > i {
            match p_str_map_items(s, j6) {
                None => None,
                Some((rest, fin)) => {
                    let ghost gk = k@;
                    let ghost gval = val@;
                    let ghost grest = rest@;
                    let mut m = rest;
                    m.insert(0, (k, val));
                    assert(str_map_view(m@) =~= seq![(gk, gval)] + str_map_view(grest));
                    Some((m, fin))
                },
            }
        } else {
            None
        }
    } else if j5 < n && s[j5] == '}' {
        assert(s@.skip(j5 as int)[0] == '}');
        assert(s@.skip(j5 as int).skip(1) =~= s@.skip(j5 + 1 as int));
        let mut m: Vec<(Vec<char>, Vec<char>)> = Vec::new();
        m.push((k, val));
        assert(str_map_view(m@) =~= seq![(k@, val@)]);
        Some((m, j5 + 1))
    } else {
        assert(s@.skip(j5 as int).len() > 0 ==> s@.skip(j5 as int)[0] == s@[j5 as int]);
        None
    }
}

// ---------------------------------------------------------------------------
// The shared field accumulator
// ---------------------------------------------------------------------------

/// Fields gathered while reading one wire object.  Every key the protocol
/// knows has a slot; a slot is filled when its key appears, and a repeated
/// key keeps its last value.
pub struct FieldAccV {
    pub network_id: Option<Seq<char>>,
    pub endpoint_id: Option<Seq<char>>,
    pub join_network_id: Option<Seq<char>>,
    pub join_endpoint_id: Option<Seq<char>>,
    pub sandbox_key: Option<Seq<char>>,
    pub options: Option<Seq<(Seq<char>, Seq<char>)>>,
    pub ipv4_data: Option<Seq<IPAMDataV>>,
    pub ipv6_data: Option<Seq<IPAMDataV>>,
    pub interface: Option<EndpointInterfaceV>,
    pub discovery_type: Option<i64>,
    pub discovery_data: Option<Seq<char>>,
    pub address: Option<Seq<char>>,
    pub address_ipv6: Option<Seq<char>>,
    pub address_mac: Option<Seq<char>>,
    pub address_space: Option<Seq<char>>,
    pub pool: Option<Seq<char>>,
    pub gateway: Option<Seq<char>>,
    pub aux_addresses: Option<Seq<(Seq<char>, Seq<char>)>>,
}

pub open spec fn empty_acc() -> FieldAccV {
    FieldAccV {
        network_id: None,
        endpoint_id: None,
        join_network_id: None,
        join_endpoint_id: None,
        sandbox_key: None,
        options: None,
        ipv4_data: None,
        ipv6_data: None,
        interface: None,
        discovery_type: None,
        discovery_data: None,
        address: None,
        address_ipv6: None,
        address_mac: None,
        address_space: None,
        pool: None,
        gateway: None,
        aux_addresses: None,
    }
}

// ---------------------------------------------------------------------------
// Objects, lists, and fields: the grammar
// ---------------------------------------------------------------------------

/// Fields of an object, starting at its first key, up to and including the
/// closing brace.
pub open spec fn parse_fields(u: Seq<char>, acc: FieldAccV) -> Option<(FieldAccV, Seq<char>)>
    decreases u.len(), 0int,
{
    match parse_string(u) {
        None => None,
        Some((key, v1)) => {
            let v2 = skip_ws(v1);
            if !(v2.len() > 0 && v2[0] == ':') {
                None
            } else {
                let v3 = skip_ws(v2.skip(1));
                let step: Option<(FieldAccV, Seq<char>)> = if key == "NetworkId"@ {
                    match parse_string(v3) {
                        None => None,
                        Some((x, w)) => Some((FieldAccV { network_id: Some(x), ..acc }, w)),
                    }
                } else if key == "EndpointId"@ {
                    match parse_string(v3) {
                        None => None,
                        Some((x, w)) => Some((FieldAccV { endpoint_id: Some(x), ..acc }, w)),
                    }
                } else if key == "NetworkID"@ {
                    match parse_string(v3) {
                        None => None,
                        Some((x, w)) => Some((FieldAccV { join_network_id: Some(x), ..acc }, w)),
                    }
                } else if key == "EndpointID"@ {
                    match parse_string(v3) {
                        None => None,
                        Some((x, w)) => Some((FieldAccV { join_endpoint_id: Some(x), ..acc }, w)),
                    }
                } else if key == "SandboxKey"@ {
                    match parse_string(v3) {
                        None => None,
                        Some((x, w)) => Some((FieldAccV { sandbox_key: Some(x), ..acc }, w)),
                    }
                } else if key == "Options"@ {
                    match parse_str_map(v3) {
                        None => None,
                        Some((m, w)) => Some((FieldAccV { options: Some(m), ..acc }, w)),
                    }
                } else if key == "IPv4Data"@ {
                    if v3.len() < u.len() {
                        match parse_ipam_list(v3) {
                            None => None,
                            Some((l, w)) => Some((FieldAccV { ipv4_data: Some(l), ..acc }, w)),
                        }
                    } else {
                        None
                    }
                } else if key == "IPv6Data"@ {
                    if v3.len() < u.len() {
                        match parse_ipam_list(v3) {
                            None => None,
                            Some((l, w)) => Some((FieldAccV { ipv6_data: Some(l), ..acc }, w)),
                        }
                    } else {
                        None
                    }
                } else if key == "Interface"@ {
                    if v3.len() < u.len() {
                        match parse_interface_obj(v3) {
                            None => None,
                            Some((f, w)) => Some((FieldAccV { interface: Some(f), ..acc }, w)),
                        }
                    } else {
                        None
                    }
                } else if key == "DiscoveryType"@ {
                    match parse_int(v3) {
                        None => None,
                        Some((x, w)) => Some((FieldAccV { discovery_type: Some(x), ..acc }, w)),
                    }
                } else if key == "DiscoveryData"@ {
                    match parse_string(v3) {
                        None => None,
                        Some((x, w)) => Some((FieldAccV { discovery_data: Some(x), ..acc }, w)),
                    }
                } else if key == "Address"@ {
                    match parse_string(v3) {
                        None => None,
                        Some((x, w)) => Some((FieldAccV { address: Some(x), ..acc }, w)),
                    }
                } else if key == "AddressIPv6"@ {
                    match parse_string(v3) {
                        None => None,
                        Some((x, w)) => Some((FieldAccV { address_ipv6: Some(x), ..acc }, w)),
                    }
                } else if key == "MacAddress"@ {
                    match parse_string(v3) {
                        None => None,
                        Some((x, w)) => Some((FieldAccV { address_mac: Some(x), ..acc }, w)),
                    }
                } else if key == "AddressSpace"@ {
                    match parse_string(v3) {
                        None => None,
                        Some((x, w)) => Some((FieldAccV { address_space: Some(x), ..acc }, w)),
                    }
                } else if key == "Pool"@ {
                    match parse_string(v3) {
                        None => None,
                        Some((x, w)) => Some((FieldAccV { pool: Some(x), ..acc }, w)),
                    }
                } else if key == "Gateway"@ {
                    match parse_string(v3) {
                        None => None,
                        Some((x, w)) => Some((FieldAccV { gateway: Some(x), ..acc }, w)),
                    }
                } else if key == "AuxAddresses"@ {
                    match parse_str_map(v3) {
                        None => None,
                        Some((m, w)) => Some((FieldAccV { aux_addresses: Some(m), ..acc }, w)),
                    }
                } else {
                    None
                };
                match step {
                    None => None,
                    Some((acc2, w)) => {
                        let v4 = skip_ws(w);
                        if v4.len() > 0 && v4[0] == ',' {
                            let v5 = skip_ws(v4.skip(1));
                            if v5.len() < u.len() {
                                parse_fields(v5, acc2)
                            } else {
                                None
                            }
                        } else if v4.len() > 0 && v4[0] == '}' {
                            Some((acc2, v4.skip(1)))
                        } else {
                            None
                        }
                    },
                }
            }
        },
    }
}

/// An interface object: exactly the three interface keys.
pub open spec fn parse_interface_obj(u: Seq<char>) -> Option<(EndpointInterfaceV, Seq<char>)>
    decreases u.len(), 0int,
{
    if u.len() > 0 && u[0] == '{' {
        let v = skip_ws(u.skip(1));
        if v.len() < u.len() {
            match parse_fields(v, empty_acc()) {
                None => None,
                Some((acc, w)) => match acc_interface(acc) {
                    None => None,
                    Some(f) => Some((f, w)),
                },
            }
        } else {
            None
        }
    } else {
        None
    }
}

/// An IPAM pool object: exactly the four pool keys.
pub open spec fn parse_ipam_obj(u: Seq<char>) -> Option<(IPAMDataV, Seq<char>)>
    decreases u.len(), 0int,
{
    if u.len() > 0 && u[0] == '{' {
        let v = skip_ws(u.skip(1));
        if v.len() < u.len() {
            match parse_fields(v, empty_acc()) {
                None => None,
                Some((acc, w)) => match acc_ipam(acc) {
                    None => None,
                    Some(d) => Some((d, w)),
                },
            }
        } else {
            None
        }
    } else {
        None
    }
}

/// Elements of an IPAM pool array, starting at the first element.
pub open spec fn parse_ipam_items(u: Seq<char>) -> Option<(Seq<IPAMDataV>, Seq<char>)>
    decreases u.len(), 1int,
{
    match parse_ipam_obj(u) {
        None => None,
        Some((d, w)) => {
            let v = skip_ws(w);
            if v.len() > 0 && v[0] == ',' {
                let v2 = skip_ws(v.skip(1));
                if v2.len() < u.len() {
                    match parse_ipam_items(v2) {
                        None => None,
                        Some((rest, fin)) => Some((seq![d] + rest, fin)),
                    }
                } else {
                    None
                }
            } else if v.len() > 0 && v[0] == ']' {
                Some((seq![d], v.skip(1)))
            } else {
                None
            }
        },
    }
}

/// An IPAM pool array at the head of `u`.
pub open spec fn parse_ipam_list(u: Seq<char>) -> Option<(Seq<IPAMDataV>, Seq<char>)>
    decreases u.len(), 2int,
{
    if u.len() > 0 && u[0] == '[' {
        let v = skip_ws(u.skip(1));
        if v.len() > 0 && v[0] == ']' {
            Some((Seq::empty(), v.skip(1)))
        } else if v.len() < u.len() {
            parse_ipam_items(v)
        } else {
            None
        }
    } else {
        None
    }
}

// ---------------------------------------------------------------------------
// Extraction: each shape demands exactly its keys
// ---------------------------------------------------------------------------

/// No key of the request shapes was seen.
pub open spec fn no_request_keys(acc: FieldAccV) -> bool {
    acc.network_id is None && acc.endpoint_id is None && acc.join_network_id is None
        && acc.join_endpoint_id is None && acc.sandbox_key is None && acc.options is None
        && acc.ipv4_data is None && acc.ipv6_data is None && acc.interface is None
        && acc.discovery_type is None && acc.discovery_data is None
}

/// No key of the interface shape was seen.
pub open spec fn no_interface_keys(acc: FieldAccV) -> bool {
    acc.address is None && acc.address_ipv6 is None && acc.address_mac is None
}

/// No key of the IPAM pool shape was seen.
pub open spec fn no_ipam_keys(acc: FieldAccV) -> bool {
    acc.address_space is None && acc.pool is None && acc.gateway is None
        && acc.aux_addresses is None
}

pub open spec fn acc_interface(acc: FieldAccV) -> Option<EndpointInterfaceV> {
    if no_request_keys(acc) && no_ipam_keys(acc) && acc.address is Some && acc.address_ipv6
        is Some && acc.address_mac is Some {
        Some(
            EndpointInterfaceV {
                address: acc.address->0,
                address_ipv6: acc.address_ipv6->0,
                address_mac: acc.address_mac->0,
            },
        )
    } else {
        None
    }
}

pub open spec fn acc_ipam(acc: FieldAccV) -> Option<IPAMDataV> {
    if no_request_keys(acc) && no_interface_keys(acc) && acc.address_space is Some && acc.pool
        is Some && acc.gateway is Some && acc.aux_addresses is Some {
        Some(
            IPAMDataV {
                address_space: acc.address_space->0,
                pool: acc.pool->0,
                gateway: acc.gateway->0,
                aux_addresses: acc.aux_addresses->0,
            },
        )
    } else {
        None
    }
}

// ---------------------------------------------------------------------------
// Executable accumulator and parsers
// ---------------------------------------------------------------------------

pub open spec fn opt_map_view(o: Option<Vec<(Vec<char>, Vec<char>)>>) -> Option<
    Seq<(Seq<char>, Seq<char>)>,
> {
    match o {
        None => None,
        Some(m) => Some(str_map_view(m@)),
    }
}

pub open spec fn opt_ipam_view(o: Option<Vec<IPAMData>>) -> Option<Seq<IPAMDataV>> {
    match o {
        None => None,
        Some(l) => Some(ipam_list_view(l@)),
    }
}

pub open spec fn opt_iface_view(o: Option<EndpointInterface>) -> Option<EndpointInterfaceV> {
    match o {
        None => None,
        Some(f) => Some(f@),
    }
}

pub struct FieldAcc {
    pub network_id: Option<Vec<char>>,
    pub endpoint_id: Option<Vec<char>>,
    pub join_network_id: Option<Vec<char>>,
    pub join_endpoint_id: Option<Vec<char>>,
    pub sandbox_key: Option<Vec<char>>,
    pub options: Option<Vec<(Vec<char>, Vec<char>)>>,
    pub ipv4_data: Option<Vec<IPAMData>>,
    pub ipv6_data: Option<Vec<IPAMData>>,
    pub interface: Option<EndpointInterface>,
    pub discovery_type: Option<i64>,
    pub discovery_data: Option<Vec<char>>,
    pub address: Option<Vec<char>>,
    pub address_ipv6: Option<Vec<char>>,
    pub address_mac: Option<Vec<char>>,
    pub address_space: Option<Vec<char>>,
    pub pool: Option<Vec<char>>,
    pub gateway: Option<Vec<char>>,
    pub aux_addresses: Option<Vec<(Vec<char>, Vec<char>)>>,
}

impl View for FieldAcc {
    type V = FieldAccV;

    open spec fn view(&self) -> FieldAccV {
        FieldAccV {
            network_id: crate::schema::opt_view(self.network_id),
            endpoint_id: crate::schema::opt_view(self.endpoint_id),
            join_network_id: crate::schema::opt_view(self.join_network_id),
            join_endpoint_id: crate::schema::opt_view(self.join_endpoint_id),
            sandbox_key: crate::schema::opt_view(self.sandbox_key),
            options: opt_map_view(self.options),
            ipv4_data: opt_ipam_view(self.ipv4_data),
            ipv6_data: opt_ipam_view(self.ipv6_data),
            interface: opt_iface_view(self.interface),
            discovery_type: self.discovery_type,
            discovery_data: crate::schema::opt_view(self.discovery_data),
            address: crate::schema::opt_view(self.address),
            address_ipv6: crate::schema::opt_view(self.address_ipv6),
            address_mac: crate::schema::opt_view(self.address_mac),
            address_space: crate::schema::opt_view(self.address_space),
            pool: crate::schema::opt_view(self.pool),
            gateway: crate::schema::opt_view(self.gateway),
            aux_addresses: opt_map_view(self.aux_addresses),
        }
    }
}

fn new_acc() -> (r: FieldAcc)
    ensures
        r@ == empty_acc(),
{
    FieldAcc {
        network_id: None,
        endpoint_id: None,
        join_network_id: None,
        join_endpoint_id: None,
        sandbox_key: None,
        options: None,
        ipv4_data: None,
        ipv6_data: None,
        interface: None,
        discovery_type: None,
        discovery_data: None,
        address: None,
        address_ipv6: None,
        address_mac: None,
        address_space: None,
        pool: None,
        gateway: None,
        aux_addresses: None,
    }
}

fn p_str_map(s: &[char], i: usize) -> (r: Option<(Vec<(Vec<char>, Vec<char>)>, usize)>)
    requires
        i <= s@.len(),
    ensures
        r is None <==> parse_str_map(s@.skip(i as int)) is None,
        r matches Some((m, j)) ==> i < j <= s@.len() && parse_str_map(s@.skip(i as int)) == Some(
            (str_map_view(m@), s@.skip(j as int)),
        ),
{
    let ghost u = s@.skip(i as int);
    let n = s.len();
    if !(i < n && s[i] == '{') {
        assert(u.len() > 0 ==> u[0] == s@[i as int]);
        return None;
    }
    assert(u[0] == '{');
    assert(u.skip(1) =~= s@.skip(i + 1 as int));
    let j1 = p_ws(s, i + 1);
    if j1 < n && s[j1] == '}' {
        assert(s@.skip(j1 as int)[0] == '}');
        assert(s@.skip(j1 as int).skip(1) =~= s@.skip(j1 + 1 as int));
        let m: Vec<(Vec<char>, Vec<char>)> = Vec::new();
        assert(str_map_view(m@) =~= Seq::<(Seq<char>, Seq<char>)>::empty());
        return Some((m, j1 + 1));
    }
    assert(s@.skip(j1 as int).len() > 0 ==> s@.skip(j1 as int)[0] == s@[j1 as int]);
    p_str_map_items(s, j1)
}

#[verifier::rlimit(100)]
fn p_fields(s: &[char], i: usize, acc: FieldAcc) -> (r: Option<(FieldAcc, usize)>)
    requires
        i <= s@.len(),
    ensures
        r is None <==> parse_fields(s@.skip(i as int), acc@) is None,
        r matches Some((a, j)) ==> i < j <= s@.len() && parse_fields(s@.skip(i as int), acc@)
            == Some((a@, s@.skip(j as int))),
    decreases s@.len() - i, 0int,
{
    let ghost u = s@.skip(i as int);
    let ghost acc0 = acc@;
    let n = s.len();
    let (key, j1) = match p_string(s, i) {
        None => { return None; },
        Some(x) => x,
    };
    let j2 = p_ws(s, j1);
    if !(j2 < n && s[j2] == ':') {
        assert(s@.skip(j2 as int).len() > 0 ==> s@.skip(j2 as int)[0] == s@[j2 as int]);
        return None;
    }
    assert(s@.skip(j2 as int)[0] == ':');
    assert(s@.skip(j2 as int).skip(1) =~= s@.skip(j2 + 1 as int));
    let j3 = p_ws(s, j2 + 1);
    let step: Option<(FieldAcc, usize)> = if chars_eq_str(key.as_slice(), "NetworkId") {
        match p_string(s, j3) {
            None => None,
            Some((x, w)) => Some((FieldAcc { network_id: Some(x), ..acc }, w)),
        }
    } else if chars_eq_str(key.as_slice(), "EndpointId") {
        match p_string(s, j3) {
            None => None,
            Some((x, w)) => Some((FieldAcc { endpoint_id: Some(x), ..acc }, w)),
        }
    } else if chars_eq_str(key.as_slice(), "NetworkID") {
        match p_string(s, j3) {
            None => None,
            Some((x, w)) => Some((FieldAcc { join_network_id: Some(x), ..acc }, w)),
        }
    } else if chars_eq_str(key.as_slice(), "EndpointID") {
        match p_string(s, j3) {
            None => None,
            Some((x, w)) => Some((FieldAcc { join_endpoint_id: Some(x), ..acc }, w)),
        }
    } else if chars_eq_str(key.as_slice(), "SandboxKey") {
        match p_string(s, j3) {
            None => None,
            Some((x, w)) => Some((FieldAcc { sandbox_key: Some(x), ..acc }, w)),
        }
    } else if chars_eq_str(key.as_slice(), "Options") {
        match p_str_map(s, j3) {
            None => None,
            Some((m, w)) => Some((FieldAcc { options: Some(m), ..acc }, w)),
        }
    } else if chars_eq_str(key.as_slice(), "IPv4Data") {
        if j3 > i {
            match p_ipam_list(s, j3) {
                None => None,
                Some((l, w)) => Some((FieldAcc { ipv4_data: Some(l), ..acc }, w)),
            }
        } else {
            None
        }
    } else if chars_eq_str(key.as_slice(), "IPv6Data") {
        if j3 > i {
            match p_ipam_list(s, j3) {
                None => None,
                Some((l, w)) => Some((FieldAcc { ipv6_data: Some(l), ..acc }, w)),
            }
        } else {
            None
        }
    } else if chars_eq_str(key.as_slice(), "Interface") {
        if j3 > i {
            match p_interface_obj(s, j3) {
                None => None,
                Some((f, w)) => Some((FieldAcc { interface: Some(f), ..acc }, w)),
            }
        } else {
            None
        }
    } else if chars_eq_str(key.as_slice(), "DiscoveryType") {
        match p_i64(s, j3) {
            None => None,
            Some((x, w)) => Some((FieldAcc { discovery_type: Some(x), ..acc }, w)),
        }
    } else if chars_eq_str(key.as_slice(), "DiscoveryData") {
        match p_string(s, j3) {
            None => None,
            Some((x, w)) => Some((FieldAcc { discovery_data: Some(x), ..acc }, w)),
        }
    } else if chars_eq_str(key.as_slice(), "Address") {
        match p_string(s, j3) {
            None => None,
            Some((x, w)) => Some((FieldAcc { address: Some(x), ..acc }, w)),
        }
    } else if chars_eq_str(key.as_slice(), "AddressIPv6") {
        match p_string(s, j3) {
            None => None,
            Some((x, w)) => Some((FieldAcc { address_ipv6: Some(x), ..acc }, w)),
        }
    } else if chars_eq_str(key.as_slice(), "MacAddress") {
        match p_string(s, j3) {
            None => None,
            Some((x, w)) => Some((FieldAcc { address_mac: Some(x), ..acc }, w)),
        }
    } else if chars_eq_str(key.as_slice(), "AddressSpace") {
        match p_string(s, j3) {
            None => None,
            Some((x, w)) => Some((FieldAcc { address_space: Some(x), ..acc }, w)),
        }
    } else if chars_eq_str(key.as_slice(), "Pool") {
        match p_string(s, j3) {
            None => None,
            Some((x, w)) => Some((FieldAcc { pool: Some(x), ..acc }, w)),
        }
    } else if chars_eq_str(key.as_slice(), "Gateway") {
        match p_string(s, j3) {
            None => None,
            Some((x, w)) => Some((FieldAcc { gateway: Some(x), ..acc }, w)),
        }
    } else if chars_eq_str(key.as_slice(), "AuxAddresses") {
        match p_str_map(s, j3) {
            None => None,
            Some((m, w)) => Some((FieldAcc { aux_addresses: Some(m), ..acc }, w)),
        }
    } else {
        None
    };
    match step {
        None => None,
        Some((acc2, j4)) => {
            let j5 = p_ws(s, j4);
            if j5 < n && s[j5] == ',' {
                assert(s@.skip(j5 as int)[0] == ',');
                assert(s@.skip(j5 as int).skip(1) =~= s@.skip(j5 + 1 as int));
                let j6 = p_ws(s, j5 + 1);
                if j6 > i {
                    p_fields(s, j6, acc2)
                } else {
                    None
                }
            } else if j5 < n && s[j5] == '}' {
                assert(s@.skip(j5 as int)[0] == '}');
                assert(s@.skip(j5 as int).skip(1) =~= s@.skip(j5 + 1 as int));
                Some((acc2, j5 + 1))
            } else {
                assert(s@.skip(j5 as int).len() > 0 ==> s@.skip(j5 as int)[0] == s@[j5 as int]);
                None
            }
        },
    }
}

fn p_interface_obj(s: &[char], i: usize) -> (r: Option<(EndpointInterface, usize)>)
    requires
        i <= s@.len(),
    ensures
        r is None <==> parse_interface_obj(s@.skip(i as int)) is None,
        r matches Some((f, j)) ==> i < j <= s@.len() && parse_interface_obj(s@.skip(i as int))
            == Some((f@, s@.skip(j as int))),
    decreases s@.len() - i, 1int,
{
    let ghost u = s@.skip(i as int);
    let n = s.len();
    if !(i < n && s[i] == '{') {
        assert(u.len() > 0 ==> u[0] == s@[i as int]);
        return None;
    }
    assert(u[0] == '{');
    assert(u.skip(1) =~= s@.skip(i + 1 as int));
    let j1 = p_ws(s, i + 1);
    if !(j1 > i) {
        return None;
    }
    match p_fields(s, j1, new_acc()) {
        None => None,
        Some((acc, j2)) => match acc_to_interface(acc) {
            None => None,
            Some(f) => Some((f, j2)),
        },
    }
}

fn p_ipam_obj(s: &[char], i: usize) -> (r: Option<(IPAMData, usize)>)
    requires
        i <= s@.len(),
    ensures
        r is None <==> parse_ipam_obj(s@.skip(i as int)) is None,
        r matches Some((d, j)) ==> i < j <= s@.len() && parse_ipam_obj(s@.skip(i as int)) == Some(
            (d@, s@.skip(j as int)),
        ),
    decreases s@.len() - i, 1int,
{
    let ghost u = s@.skip(i as int);
    let n = s.len();
    if !(i < n && s[i] == '{') {
        assert(u.len() > 0 ==> u[0] == s@[i as int]);
        return None;
    }
    assert(u[0] == '{');
    assert(u.skip(1) =~= s@.skip(i + 1 as int));
    let j1 = p_ws(s, i + 1);
    if !(j1 > i) {
        return None;
    }
    match p_fields(s, j1, new_acc()) {
        None => None,
        Some((acc, j2)) => match acc_to_ipam(acc) {
            None => None,
            Some(d) => Some((d, j2)),
        },
    }
}

fn p_ipam_items(s: &[char], i: usize) -> (r: Option<(Vec<IPAMData>, usize)>)
    requires
        i <= s@.len(),
    ensures
        r is None <==> parse_ipam_items(s@.skip(i as int)) is None,
        r matches Some((l, j)) ==> i < j <= s@.len() && parse_ipam_items(s@.skip(i as int))
            == Some((ipam_list_view(l@), s@.skip(j as int))),
    decreases s@.len() - i, 2int,
{
    let ghost u = s@.skip(i as int);
    let n = s.len();
    let (d, j1) = match p_ipam_obj(s, i) {
        None => { return None; },
        Some(x) => x,
    };
    let j2 = p_ws(s, j1);
    if j2 < n && s[j2] == ',' {
        assert(s@.skip(j2 as int)[0] == ',');
        assert(s@.skip(j2 as int).skip(1) =~= s@.skip(j2 + 1 as int));
        let j3 = p_ws(s, j2 + 1);
        if j3 > i {
            match p_ipam_items(s, j3) {
                None => None,
                Some((rest, fin)) => {
                    let ghost gd = d@;
                    let ghost grest = rest@;
                    let mut l = rest;
                    l.insert(0, d);
                    assert(ipam_list_view(l@) =~= seq![gd] + ipam_list_view(grest));
                    Some((l, fin))
                },
            }
        } else {
            None
        }
    } else if j2 < n && s[j2] == ']' {
        assert(s@.skip(j2 as int)[0] == ']');
        assert(s@.skip(j2 as int).skip(1) =~= s@.skip(j2 + 1 as int));
        let ghost gd = d@;
        let mut l: Vec<IPAMData> = Vec::new();
        l.push(d);
        assert(ipam_list_view(l@) =~= seq![gd]);
        Some((l, j2 + 1))
    } else {
        assert(s@.skip(j2 as int).len() > 0 ==> s@.skip(j2 as int)[0] == s@[j2 as int]);
        None
    }
}

fn p_ipam_list(s: &[char], i: usize) -> (r: Option<(Vec<IPAMData>, usize)>)
    requires
        i <= s@.len(),
    ensures
        r is None <==> parse_ipam_list(s@.skip(i as int)) is None,
        r matches Some((l, j)) ==> i < j <= s@.len() && parse_ipam_list(s@.skip(i as int)) == Some(
            (ipam_list_view(l@), s@.skip(j as int)),
        ),
    decreases s@.len() - i, 3int,
{
    let ghost u = s@.skip(i as int);
    let n = s.len();
    if !(i < n && s[i] == '[') {
        assert(u.len() > 0 ==> u[0] == s@[i as int]);
        return None;
    }
    assert(u[0] == '[');
    assert(u.skip(1) =~= s@.skip(i + 1 as int));
    let j1 = p_ws(s, i + 1);
    if j1 < n && s[j1] == ']' {
        assert(s@.skip(j1 as int)[0] == ']');
        assert(s@.skip(j1 as int).skip(1) =~= s@.skip(j1 + 1 as int));
        let l: Vec<IPAMData> = Vec::new();
        assert(ipam_list_view(l@) =~= Seq::<IPAMDataV>::empty());
        return Some((l, j1 + 1));
    }
    assert(s@.skip(j1 as int).len() > 0 ==> s@.skip(j1 as int)[0] == s@[j1 as int]);
    if j1 > i {
        p_ipam_items(s, j1)
    } else {
        None
    }
}

// ---------------------------------------------------------------------------
// Executable extraction
// ---------------------------------------------------------------------------

fn no_request_keys_x(acc: &FieldAcc) -> (r: bool)
    ensures
        r == no_request_keys(acc@),
{
    acc.network_id.is_none() && acc.endpoint_id.is_none() && acc.join_network_id.is_none()
        && acc.join_endpoint_id.is_none() && acc.sandbox_key.is_none() && acc.options.is_none()
        && acc.ipv4_data.is_none() && acc.ipv6_data.is_none() && acc.interface.is_none()
        && acc.discovery_type.is_none() && acc.discovery_data.is_none()
}

fn no_interface_keys_x(acc: &FieldAcc) -> (r: bool)
    ensures
        r == no_interface_keys(acc@),
{
    acc.address.is_none() && acc.address_ipv6.is_none() && acc.address_mac.is_none()
}

fn no_ipam_keys_x(acc: &FieldAcc) -> (r: bool)
    ensures
        r == no_ipam_keys(acc@),
{
    acc.address_space.is_none() && acc.pool.is_none() && acc.gateway.is_none()
        && acc.aux_addresses.is_none()
}

fn acc_to_interface(acc: FieldAcc) -> (r: Option<EndpointInterface>)
    ensures
        r is None <==> acc_interface(acc@) is None,
        r matches Some(f) ==> acc_interface(acc@) == Some(f@),
{
    if !(no_request_keys_x(&acc) && no_ipam_keys_x(&acc)) {
        return None;
    }
    match (acc.address, acc.address_ipv6, acc.address_mac) {
        (Some(a), Some(b), Some(c)) => Some(
            EndpointInterface { address: a, address_ipv6: b, address_mac: c },
        ),
        _ => None,
    }
}

fn acc_to_ipam(acc: FieldAcc) -> (r: Option<IPAMData>)
    ensures
        r is None <==> acc_ipam(acc@) is None,
        r matches Some(d) ==> acc_ipam(acc@) == Some(d@),
{
    if !(no_request_keys_x(&acc) && no_interface_keys_x(&acc)) {
        return None;
    }
    match (acc.address_space, acc.pool, acc.gateway, acc.aux_addresses) {
        (Some(a), Some(p), Some(g), Some(x)) => Some(
            IPAMData { address_space: a, pool: p, gateway: g, aux_addresses: x },
        ),
        _ => None,
    }
}

// ---------------------------------------------------------------------------
// Request shapes
// ---------------------------------------------------------------------------

pub open spec fn acc_network_req(acc: FieldAccV) -> Option<NetworkRequestV> {
    if no_interface_keys(acc) && no_ipam_keys(acc) && acc.network_id is Some && acc.endpoint_id
        is None && acc.join_network_id is None && acc.join_endpoint_id is None && acc.sandbox_key
        is None && acc.options is None && acc.ipv4_data is None && acc.ipv6_data is None
        && acc.interface is None && acc.discovery_type is None && acc.discovery_data is None {
        Some(NetworkRequestV { network_id: acc.network_id->0 })
    } else {
        None
    }
}

pub open spec fn acc_endpoint_req(acc: FieldAccV) -> Option<EndpointRequestV> {
    if no_interface_keys(acc) && no_ipam_keys(acc) && acc.network_id is Some && acc.endpoint_id
        is Some && acc.join_network_id is None && acc.join_endpoint_id is None && acc.sandbox_key
        is None && acc.options is None && acc.ipv4_data is None && acc.ipv6_data is None
        && acc.interface is None && acc.discovery_type is None && acc.discovery_data is None {
        Some(
            EndpointRequestV {
                network_id: acc.network_id->0,
                endpoint_id: acc.endpoint_id->0,
            },
        )
    } else {
        None
    }
}

pub open spec fn acc_create_network_req(acc: FieldAccV) -> Option<CreateNetworkRequestV> {
    if no_interface_keys(acc) && no_ipam_keys(acc) && acc.network_id is Some && acc.options
        is Some && acc.ipv4_data is Some && acc.ipv6_data is Some && acc.endpoint_id is None
        && acc.join_network_id is None && acc.join_endpoint_id is None && acc.sandbox_key is None
        && acc.interface is None && acc.discovery_type is None && acc.discovery_data is None {
        Some(
            CreateNetworkRequestV {
                network_id: acc.network_id->0,
                options: acc.options->0,
                ipv4_data: acc.ipv4_data->0,
                ipv6_data: acc.ipv6_data->0,
            },
        )
    } else {
        None
    }
}

pub open spec fn acc_allocate_network_req(acc: FieldAccV) -> Option<AllocateNetworkRequestV> {
    match acc_create_network_req(acc) {
        None => None,
        Some(q) => Some(
            AllocateNetworkRequestV {
                network_id: q.network_id,
                options: q.options,
                ipv4_data: q.ipv4_data,
                ipv6_data: q.ipv6_data,
            },
        ),
    }
}

pub open spec fn acc_create_endpoint_req(acc: FieldAccV) -> Option<CreateEndpointRequestV> {
    if no_interface_keys(acc) && no_ipam_keys(acc) && acc.network_id is Some && acc.endpoint_id
        is Some && acc.interface is Some && acc.options is Some && acc.join_network_id is None
        && acc.join_endpoint_id is None && acc.sandbox_key is None && acc.ipv4_data is None
        && acc.ipv6_data is None && acc.discovery_type is None && acc.discovery_data is None {
        Some(
            CreateEndpointRequestV {
                network_id: acc.network_id->0,
                endpoint_id: acc.endpoint_id->0,
                interface: acc.interface->0,
                options: acc.options->0,
            },
        )
    } else {
        None
    }
}

pub open spec fn acc_discover_req(acc: FieldAccV) -> Option<DiscoverRequestV> {
    if no_interface_keys(acc) && no_ipam_keys(acc) && acc.discovery_type is Some
        && acc.discovery_data is Some && acc.network_id is None && acc.endpoint_id is None
        && acc.join_network_id is None && acc.join_endpoint_id is None && acc.sandbox_key is None
        && acc.options is None && acc.ipv4_data is None && acc.ipv6_data is None && acc.interface
        is None {
        Some(
            DiscoverRequestV {
                discovery_type: acc.discovery_type->0,
                discovery_data: acc.discovery_data->0,
            },
        )
    } else {
        None
    }
}

pub open spec fn acc_ext_conn_req(acc: FieldAccV) -> Option<ExternalConnectivityRequestV> {
    if no_interface_keys(acc) && no_ipam_keys(acc) && acc.network_id is Some && acc.endpoint_id
        is Some && acc.options is Some && acc.join_network_id is None && acc.join_endpoint_id
        is None && acc.sandbox_key is None && acc.ipv4_data is None && acc.ipv6_data is None
        && acc.interface is None && acc.discovery_type is None && acc.discovery_data is None {
        Some(
            ExternalConnectivityRequestV {
                network_id: acc.network_id->0,
                endpoint_id: acc.endpoint_id->0,
                options: acc.options->0,
            },
        )
    } else {
        None
    }
}

pub open spec fn acc_join_req(acc: FieldAccV) -> Option<JoinRequestV> {
    if no_interface_keys(acc) && no_ipam_keys(acc) && acc.join_network_id is Some
        && acc.join_endpoint_id is Some && acc.sandbox_key is Some && acc.options is Some
        && acc.network_id is None && acc.endpoint_id is None && acc.ipv4_data is None
        && acc.ipv6_data is None && acc.interface is None && acc.discovery_type is None
        && acc.discovery_data is None {
        Some(
            JoinRequestV {
                network_id: acc.join_network_id->0,
                endpoint_id: acc.join_endpoint_id->0,
                sandbox_key: acc.sandbox_key->0,
                options: acc.options->0,
            },
        )
    } else {
        None
    }
}

// ---------------------------------------------------------------------------
// Whole-body decoding
// ---------------------------------------------------------------------------

/// One wire object at the head of `u`.
pub open spec fn parse_obj(u: Seq<char>) -> Option<(FieldAccV, Seq<char>)> {
    if u.len() > 0 && u[0] == '{' {
        parse_fields(skip_ws(u.skip(1)), empty_acc())
    } else {
        None
    }
}

/// A whole request body: one wire object and nothing else but whitespace.
pub open spec fn spec_decode_body(t: Seq<char>) -> Option<FieldAccV> {
    match parse_obj(skip_ws(t)) {
        None => None,
        Some((acc, w)) => if skip_ws(w).len() == 0 {
            Some(acc)
        } else {
            None
        },
    }
}

pub open spec fn spec_decode_network_request(t: Seq<char>) -> Option<NetworkRequestV> {
    match spec_decode_body(t) {
        None => None,
        Some(acc) => acc_network_req(acc),
    }
}

pub open spec fn spec_decode_endpoint_request(t: Seq<char>) -> Option<EndpointRequestV> {
    match spec_decode_body(t) {
        None => None,
        Some(acc) => acc_endpoint_req(acc),
    }
}

pub open spec fn spec_decode_create_network_request(t: Seq<char>) -> Option<
    CreateNetworkRequestV,
> {
    match spec_decode_body(t) {
        None => None,
        Some(acc) => acc_create_network_req(acc),
    }
}

pub open spec fn spec_decode_allocate_network_request(t: Seq<char>) -> Option<
    AllocateNetworkRequestV,
> {
    match spec_decode_body(t) {
        None => None,
        Some(acc) => acc_allocate_network_req(acc),
    }
}

pub open spec fn spec_decode_create_endpoint_request(t: Seq<char>) -> Option<
    CreateEndpointRequestV,
> {
    match spec_decode_body(t) {
        None => None,
        Some(acc) => acc_create_endpoint_req(acc),
    }
}

pub open spec fn spec_decode_discover_request(t: Seq<char>) -> Option<DiscoverRequestV> {
    match spec_decode_body(t) {
        None => None,
        Some(acc) => acc_discover_req(acc),
    }
}

pub open spec fn spec_decode_ext_conn_request(t: Seq<char>) -> Option<
    ExternalConnectivityRequestV,
> {
    match spec_decode_body(t) {
        None => None,
        Some(acc) => acc_ext_conn_req(acc),
    }
}

pub open spec fn spec_decode_join_request(t: Seq<char>) -> Option<JoinRequestV> {
    match spec_decode_body(t) {
        None => None,
        Some(acc) => acc_join_req(acc),
    }
}

fn p_body(s: &[char]) -> (r: Option<FieldAcc>)
    ensures
        r is None <==> spec_decode_body(s@) is None,
        r matches Some(acc) ==> spec_decode_body(s@) == Some(acc@),
{
    let n = s.len();
    assert(s@.skip(0) =~= s@);
    let i0 = p_ws(s, 0);
    let ghost u = s@.skip(i0 as int);
    if !(i0 < n && s[i0] == '{') {
        assert(u.len() > 0 ==> u[0] == s@[i0 as int]);
        return None;
    }
    assert(u[0] == '{');
    assert(u.skip(1) =~= s@.skip(i0 + 1 as int));
    let j1 = p_ws(s, i0 + 1);
    match p_fields(s, j1, new_acc()) {
        None => None,
        Some((acc, j2)) => {
            let e = p_ws(s, j2);
            if e == n {
                Some(acc)
            } else {
                assert(skip_ws(s@.skip(j2 as int)).len() > 0);
                None
            }
        },
    }
}

fn acc_to_network_req(acc: FieldAcc) -> (r: Option<NetworkRequest>)
    ensures
        r is None <==> acc_network_req(acc@) is None,
        r matches Some(q) ==> acc_network_req(acc@) == Some(q@),
{
    if !(no_interface_keys_x(&acc) && no_ipam_keys_x(&acc) && acc.endpoint_id.is_none()
        && acc.join_network_id.is_none() && acc.join_endpoint_id.is_none()
        && acc.sandbox_key.is_none() && acc.options.is_none() && acc.ipv4_data.is_none()
        && acc.ipv6_data.is_none() && acc.interface.is_none() && acc.discovery_type.is_none()
        && acc.discovery_data.is_none()) {
        return None;
    }
    match acc.network_id {
        Some(nid) => Some(NetworkRequest { network_id: nid }),
        None => None,
    }
}

fn acc_to_endpoint_req(acc: FieldAcc) -> (r: Option<EndpointRequest>)
    ensures
        r is None <==> acc_endpoint_req(acc@) is None,
        r matches Some(q) ==> acc_endpoint_req(acc@) == Some(q@),
{
    if !(no_interface_keys_x(&acc) && no_ipam_keys_x(&acc) && acc.join_network_id.is_none()
        && acc.join_endpoint_id.is_none() && acc.sandbox_key.is_none() && acc.options.is_none()
        && acc.ipv4_data.is_none() && acc.ipv6_data.is_none() && acc.interface.is_none()
        && acc.discovery_type.is_none() && acc.discovery_data.is_none()) {
        return None;
    }
    match (acc.network_id, acc.endpoint_id) {
        (Some(nid), Some(eid)) => Some(EndpointRequest { network_id: nid, endpoint_id: eid }),
        _ => None,
    }
}

fn acc_to_create_network_req(acc: FieldAcc) -> (r: Option<CreateNetworkRequest>)
    ensures
        r is None <==> acc_create_network_req(acc@) is None,
        r matches Some(q) ==> acc_create_network_req(acc@) == Some(q@),
{
    if !(no_interface_keys_x(&acc) && no_ipam_keys_x(&acc) && acc.endpoint_id.is_none()
        && acc.join_network_id.is_none() && acc.join_endpoint_id.is_none()
        && acc.sandbox_key.is_none() && acc.interface.is_none() && acc.discovery_type.is_none()
        && acc.discovery_data.is_none()) {
        return None;
    }
    match (acc.network_id, acc.options, acc.ipv4_data, acc.ipv6_data) {
        (Some(nid), Some(opts), Some(v4), Some(v6)) => Some(
            CreateNetworkRequest {
                network_id: nid,
                options: opts,
                ipv4_data: v4,
                ipv6_data: v6,
            },
        ),
        _ => None,
    }
}

fn acc_to_allocate_network_req(acc: FieldAcc) -> (r: Option<AllocateNetworkRequest>)
    ensures
        r is None <==> acc_allocate_network_req(acc@) is None,
        r matches Some(q) ==> acc_allocate_network_req(acc@) == Some(q@),
{
    match acc_to_create_network_req(acc) {
        None => None,
        Some(q) => Some(
            AllocateNetworkRequest {
                network_id: q.network_id,
                options: q.options,
                ipv4_data: q.ipv4_data,
                ipv6_data: q.ipv6_data,
            },
        ),
    }
}

fn acc_to_create_endpoint_req(acc: FieldAcc) -> (r: Option<CreateEndpointRequest>)
    ensures
        r is None <==> acc_create_endpoint_req(acc@) is None,
        r matches Some(q) ==> acc_create_endpoint_req(acc@) == Some(q@),
{
    if !(no_interface_keys_x(&acc) && no_ipam_keys_x(&acc) && acc.join_network_id.is_none()
        && acc.join_endpoint_id.is_none() && acc.sandbox_key.is_none() && acc.ipv4_data.is_none()
        && acc.ipv6_data.is_none() && acc.discovery_type.is_none()
        && acc.discovery_data.is_none()) {
        return None;
    }
    match (acc.network_id, acc.endpoint_id, acc.interface, acc.options) {
        (Some(nid), Some(eid), Some(f), Some(opts)) => Some(
            CreateEndpointRequest {
                network_id: nid,
                endpoint_id: eid,
                interface: f,
                options: opts,
            },
        ),
        _ => None,
    }
}

fn acc_to_discover_req(acc: FieldAcc) -> (r: Option<DiscoverRequest>)
    ensures
        r is None <==> acc_discover_req(acc@) is None,
        r matches Some(q) ==> acc_discover_req(acc@) == Some(q@),
{
    if !(no_interface_keys_x(&acc) && no_ipam_keys_x(&acc) && acc.network_id.is_none()
        && acc.endpoint_id.is_none() && acc.join_network_id.is_none()
        && acc.join_endpoint_id.is_none() && acc.sandbox_key.is_none() && acc.options.is_none()
        && acc.ipv4_data.is_none() && acc.ipv6_data.is_none() && acc.interface.is_none()) {
        return None;
    }
    match (acc.discovery_type, acc.discovery_data) {
        (Some(t), Some(d)) => Some(DiscoverRequest { discovery_type: t, discovery_data: d }),
        _ => None,
    }
}

fn acc_to_ext_conn_req(acc: FieldAcc) -> (r: Option<ExternalConnectivityRequest>)
    ensures
        r is None <==> acc_ext_conn_req(acc@) is None,
        r matches Some(q) ==> acc_ext_conn_req(acc@) == Some(q@),
{
    if !(no_interface_keys_x(&acc) && no_ipam_keys_x(&acc) && acc.join_network_id.is_none()
        && acc.join_endpoint_id.is_none() && acc.sandbox_key.is_none() && acc.ipv4_data.is_none()
        && acc.ipv6_data.is_none() && acc.interface.is_none() && acc.discovery_type.is_none()
        && acc.discovery_data.is_none()) {
        return None;
    }
    match (acc.network_id, acc.endpoint_id, acc.options) {
        (Some(nid), Some(eid), Some(opts)) => Some(
            ExternalConnectivityRequest { network_id: nid, endpoint_id: eid, options: opts },
        ),
        _ => None,
    }
}

fn acc_to_join_req(acc: FieldAcc) -> (r: Option<JoinRequest>)
    ensures
        r is None <==> acc_join_req(acc@) is None,
        r matches Some(q) ==> acc_join_req(acc@) == Some(q@),
{
    if !(no_interface_keys_x(&acc) && no_ipam_keys_x(&acc) && acc.network_id.is_none()
        && acc.endpoint_id.is_none() && acc.ipv4_data.is_none() && acc.ipv6_data.is_none()
        && acc.interface.is_none() && acc.discovery_type.is_none()
        && acc.discovery_data.is_none()) {
        return None;
    }
    match (acc.join_network_id, acc.join_endpoint_id, acc.sandbox_key, acc.options) {
        (Some(nid), Some(eid), Some(sk), Some(opts)) => Some(
            JoinRequest { network_id: nid, endpoint_id: eid, sandbox_key: sk, options: opts },
        ),
        _ => None,
    }
}

// ---------------------------------------------------------------------------
// Public decoders
// ---------------------------------------------------------------------------

/// Decodes a delete-network or free-network request body.
pub fn decode_network_request(body: &str) -> (r: Option<NetworkRequest>)
    ensures
        r is None <==> spec_decode_network_request(body@) is None,
        r matches Some(q) ==> spec_decode_network_request(body@) == Some(q@),
{
    let chars = crate::text::str_to_chars(body);
    match p_body(chars.as_slice()) {
        None => None,
        Some(acc) => acc_to_network_req(acc),
    }
}

/// Decodes an endpoint-scoped request body (delete, info, leave, revoke).
pub fn decode_endpoint_request(body: &str) -> (r: Option<EndpointRequest>)
    ensures
        r is None <==> spec_decode_endpoint_request(body@) is None,
        r matches Some(q) ==> spec_decode_endpoint_request(body@) == Some(q@),
{
    let chars = crate::text::str_to_chars(body);
    match p_body(chars.as_slice()) {
        None => None,
        Some(acc) => acc_to_endpoint_req(acc),
    }
}

/// Decodes a create-network request body.
pub fn decode_create_network_request(body: &str) -> (r: Option<CreateNetworkRequest>)
    ensures
        r is None <==> spec_decode_create_network_request(body@) is None,
        r matches Some(q) ==> spec_decode_create_network_request(body@) == Some(q@),
{
    let chars = crate::text::str_to_chars(body);
    match p_body(chars.as_slice()) {
        None => None,
        Some(acc) => acc_to_create_network_req(acc),
    }
}

/// Decodes an allocate-network request body.
pub fn decode_allocate_network_request(body: &str) -> (r: Option<AllocateNetworkRequest>)
    ensures
        r is None <==> spec_decode_allocate_network_request(body@) is None,
        r matches Some(q) ==> spec_decode_allocate_network_request(body@) == Some(q@),
{
    let chars = crate::text::str_to_chars(body);
    match p_body(chars.as_slice()) {
        None => None,
        Some(acc) => acc_to_allocate_network_req(acc),
    }
}

/// Decodes a create-endpoint request body.
pub fn decode_create_endpoint_request(body: &str) -> (r: Option<CreateEndpointRequest>)
    ensures
        r is None <==> spec_decode_create_endpoint_request(body@) is None,
        r matches Some(q) ==> spec_decode_create_endpoint_request(body@) == Some(q@),
{
    let chars = crate::text::str_to_chars(body);
    match p_body(chars.as_slice()) {
        None => None,
        Some(acc) => acc_to_create_endpoint_req(acc),
    }
}

/// Decodes a discovery notification body.
pub fn decode_discover_request(body: &str) -> (r: Option<DiscoverRequest>)
    ensures
        r is None <==> spec_decode_discover_request(body@) is None,
        r matches Some(q) ==> spec_decode_discover_request(body@) == Some(q@),
{
    let chars = crate::text::str_to_chars(body);
    match p_body(chars.as_slice()) {
        None => None,
        Some(acc) => acc_to_discover_req(acc),
    }
}

/// Decodes an external-connectivity request body.
pub fn decode_ext_conn_request(body: &str) -> (r: Option<ExternalConnectivityRequest>)
    ensures
        r is None <==> spec_decode_ext_conn_request(body@) is None,
        r matches Some(q) ==> spec_decode_ext_conn_request(body@) == Some(q@),
{
    let chars = crate::text::str_to_chars(body);
    match p_body(chars.as_slice()) {
        None => None,
        Some(acc) => acc_to_ext_conn_req(acc),
    }
}

/// Decodes a join request body.
pub fn decode_join_request(body: &str) -> (r: Option<JoinRequest>)
    ensures
        r is None <==> spec_decode_join_request(body@) is None,
        r matches Some(q) ==> spec_decode_join_request(body@) == Some(q@),
{
    let chars = crate::text::str_to_chars(body);
    match p_body(chars.as_slice()) {
        None => None,
        Some(acc) => acc_to_join_req(acc),
    }
}

} // verus!
