//! The dispatcher: routes one (path, body) pair to one operation of an
//! injected driver and produces the response body.
//!
//! The path is matched by exact string equality against the fixed operation
//! table.  A path outside the table is `UnknownOperation`; a body that does
//! not decode as the operation's request type is `MalformedRequest`.  Driver
//! failures of the fallible operations travel inside the body, in the
//! uniform error envelope, never as a dispatch error.

use vstd::prelude::*;

use crate::decode::{
    decode_allocate_network_request, decode_create_endpoint_request, decode_create_network_request,
    decode_discover_request, decode_endpoint_request, decode_ext_conn_request,
    decode_join_request, decode_network_request, spec_decode_allocate_network_request,
    spec_decode_create_endpoint_request, spec_decode_create_network_request,
    spec_decode_discover_request, spec_decode_endpoint_request, spec_decode_ext_conn_request,
    spec_decode_join_request, spec_decode_network_request,
};
use crate::encode::{
    enc_allocate, enc_capabilities, enc_create_endpoint, enc_error, enc_info, enc_join,
    empty_wire, encode_allocate, encode_capabilities, encode_create_endpoint, encode_empty,
    encode_error, encode_info, encode_join, encode_manifest, manifest_wire,
};
use crate::schema::{
    AllocateNetworkRequest, AllocateNetworkResponse, AllocateNetworkResponseV,
    CapabilitiesResponse, CapabilitiesResponseV, CreateEndpointRequest, CreateEndpointResponse,
    CreateEndpointResponseV, CreateNetworkRequest, DiscoverRequest, EndpointRequest,
    ErrorResponse, ErrorResponseV, ExternalConnectivityRequest, InfoResponse, InfoResponseV,
    JoinRequest, JoinResponse, JoinResponseV, NetworkRequest,
};
use crate::text::str_eq;

verus! {

/// Failure of the dispatch layer itself: never a driver failure.
#[derive(Debug, Clone, Copy, PartialEq, Eq, Structural)]
pub enum DispatchError {
    /// The path names no operation of the protocol.
    UnknownOperation,
    /// The body does not decode as the invoked operation's request type.
    MalformedRequest,
}

/// The operation set a conforming network driver implements.  The dispatcher
/// holds one driver for its whole lifetime and reports every semantic
/// failure of the fallible operations through the returned error envelope.
pub trait Network {
    fn get_capabilities(&self) -> CapabilitiesResponse;

    fn create_network(&self, request: &CreateNetworkRequest);

    fn allocate_network(&self, request: &AllocateNetworkRequest) -> Result<
        AllocateNetworkResponse,
        ErrorResponse,
    >;

    fn delete_network(&self, request: &NetworkRequest);

    fn free_network(&self, request: &NetworkRequest);

    fn create_endpoint(&self, request: &CreateEndpointRequest) -> Result<
        CreateEndpointResponse,
        ErrorResponse,
    >;

    fn delete_endpoint(&self, request: &EndpointRequest);

    fn endpoint_info(&self, request: &EndpointRequest) -> Result<InfoResponse, ErrorResponse>;

    fn join(&self, request: &JoinRequest) -> Result<JoinResponse, ErrorResponse>;

    fn leave(&self, request: &EndpointRequest);

    fn discover_new(&self, request: &DiscoverRequest);

    fn discover_delete(&self, request: &DiscoverRequest);

    fn program_external_connectivity(&self, request: &ExternalConnectivityRequest);

    fn revoke_external_connectivity(&self, request: &EndpointRequest);
}

// ---------------------------------------------------------------------------
// Wire form of each fallible operation's outcome
// ---------------------------------------------------------------------------

/// What goes on the wire for an allocate-network outcome: the success schema
/// or the uniform error envelope.
pub open spec fn allocate_wire(res: Result<AllocateNetworkResponseV, ErrorResponseV>) -> Seq<
    char,
> {
    match res {
        Ok(a) => enc_allocate(a),
        Err(e) => enc_error(e),
    }
}

/// Encodes an allocate-network outcome.
pub fn encode_allocate_result(res: &Result<AllocateNetworkResponse, ErrorResponse>) -> (r: Vec<
    char,
>)
    ensures
        res matches Ok(a) ==> r@ == allocate_wire(Ok(a@)),
        res matches Err(e) ==> r@ == allocate_wire(Err(e@)),
{
    match res {
        Ok(a) => encode_allocate(a),
        Err(e) => encode_error(e),
    }
}

/// What goes on the wire for a create-endpoint outcome.
pub open spec fn create_endpoint_wire(
    res: Result<CreateEndpointResponseV, ErrorResponseV>,
) -> Seq<char> {
    match res {
        Ok(c) => enc_create_endpoint(c),
        Err(e) => enc_error(e),
    }
}

/// Encodes a create-endpoint outcome.
pub fn encode_create_endpoint_result(
    res: &Result<CreateEndpointResponse, ErrorResponse>,
) -> (r: Vec<char>)
    ensures
        res matches Ok(c) ==> r@ == create_endpoint_wire(Ok(c@)),
        res matches Err(e) ==> r@ == create_endpoint_wire(Err(e@)),
{
    match res {
        Ok(c) => encode_create_endpoint(c),
        Err(e) => encode_error(e),
    }
}

/// What goes on the wire for an endpoint-info outcome.
pub open spec fn info_wire(res: Result<InfoResponseV, ErrorResponseV>) -> Seq<char> {
    match res {
        Ok(v) => enc_info(v),
        Err(e) => enc_error(e),
    }
}

/// Encodes an endpoint-info outcome.
pub fn encode_info_result(res: &Result<InfoResponse, ErrorResponse>) -> (r: Vec<char>)
    ensures
        res matches Ok(v) ==> r@ == info_wire(Ok(v@)),
        res matches Err(e) ==> r@ == info_wire(Err(e@)),
{
    match res {
        Ok(v) => encode_info(v),
        Err(e) => encode_error(e),
    }
}

/// What goes on the wire for a join outcome.
pub open spec fn join_wire(res: Result<JoinResponseV, ErrorResponseV>) -> Seq<char> {
    match res {
        Ok(j) => enc_join(j),
        Err(e) => enc_error(e),
    }
}

/// Encodes a join outcome.
pub fn encode_join_result(res: &Result<JoinResponse, ErrorResponse>) -> (r: Vec<char>)
    ensures
        res matches Ok(j) ==> r@ == join_wire(Ok(j@)),
        res matches Err(e) ==> r@ == join_wire(Err(e@)),
{
    match res {
        Ok(j) => encode_join(j),
        Err(e) => encode_error(e),
    }
}

// ---------------------------------------------------------------------------
// The operation table and the dispatcher
// ---------------------------------------------------------------------------

/// The fixed table: the activation path and the fourteen operation paths.
pub open spec fn known_path(p: Seq<char>) -> bool {
    ||| p == "/Plugin.Activate"@
    ||| p == "/NetworkDriver.GetCapabilities"@
    ||| p == "/NetworkDriver.CreateNetwork"@
    ||| p == "/NetworkDriver.AllocateNetwork"@
    ||| p == "/NetworkDriver.DeleteNetwork"@
    ||| p == "/NetworkDriver.FreeNetwork"@
    ||| p == "/NetworkDriver.CreateEndpoint"@
    ||| p == "/NetworkDriver.EndpointOperInfo"@
    ||| p == "/NetworkDriver.DeleteEndpoint"@
    ||| p == "/NetworkDriver.Join"@
    ||| p == "/NetworkDriver.Leave"@
    ||| p == "/NetworkDriver.DiscoverNew"@
    ||| p == "/NetworkDriver.DiscoverDelete"@
    ||| p == "/NetworkDriver.ProgramExternalConnectivity"@
    ||| p == "/NetworkDriver.RevokeExternalConnectivity"@
}

/// Routes one call: selects the operation by exact path equality, decodes
/// the body into that operation's request type, invokes the driver, and
/// encodes the outcome.
pub fn post<N: Network>(driver: &N, url: &str, data: &str) -> (r: Result<Vec<char>, DispatchError>)
    ensures
        !known_path(url@) ==> r is Err && r->Err_0 == DispatchError::UnknownOperation,
        url@ == "/Plugin.Activate"@ ==> r is Ok && r->Ok_0@ == manifest_wire(),
        url@ == "/NetworkDriver.GetCapabilities"@ ==> r is Ok && (exists|c: CapabilitiesResponseV|
            r->Ok_0@ == enc_capabilities(c)),
        url@ == "/NetworkDriver.CreateNetwork"@ ==> {
            if spec_decode_create_network_request(data@) is Some {
                r is Ok && r->Ok_0@ == empty_wire()
            } else {
                r is Err && r->Err_0 == DispatchError::MalformedRequest
            }
        },
        url@ == "/NetworkDriver.AllocateNetwork"@ ==> {
            if spec_decode_allocate_network_request(data@) is Some {
                r is Ok && (exists|res: Result<AllocateNetworkResponseV, ErrorResponseV>|
                    r->Ok_0@ == allocate_wire(res))
            } else {
                r is Err && r->Err_0 == DispatchError::MalformedRequest
            }
        },
        url@ == "/NetworkDriver.DeleteNetwork"@ ==> {
            if spec_decode_network_request(data@) is Some {
                r is Ok && r->Ok_0@ == empty_wire()
            } else {
                r is Err && r->Err_0 == DispatchError::MalformedRequest
            }
        },
        url@ == "/NetworkDriver.FreeNetwork"@ ==> {
            if spec_decode_network_request(data@) is Some {
                r is Ok && r->Ok_0@ == empty_wire()
            } else {
                r is Err && r->Err_0 == DispatchError::MalformedRequest
            }
        },
        url@ == "/NetworkDriver.CreateEndpoint"@ ==> {
            if spec_decode_create_endpoint_request(data@) is Some {
                r is Ok && (exists|res: Result<CreateEndpointResponseV, ErrorResponseV>|
                    r->Ok_0@ == create_endpoint_wire(res))
            } else {
                r is Err && r->Err_0 == DispatchError::MalformedRequest
            }
        },
        url@ == "/NetworkDriver.EndpointOperInfo"@ ==> {
            if spec_decode_endpoint_request(data@) is Some {
                r is Ok && (exists|res: Result<InfoResponseV, ErrorResponseV>| r->Ok_0@
                    == info_wire(res))
            } else {
                r is Err && r->Err_0 == DispatchError::MalformedRequest
            }
        },
        url@ == "/NetworkDriver.DeleteEndpoint"@ ==> {
            if spec_decode_endpoint_request(data@) is Some {
                r is Ok && r->Ok_0@ == empty_wire()
            } else {
                r is Err && r->Err_0 == DispatchError::MalformedRequest
            }
        },
        url@ == "/NetworkDriver.Join"@ ==> {
            if spec_decode_join_request(data@) is Some {
                r is Ok && (exists|res: Result<JoinResponseV, ErrorResponseV>| r->Ok_0@
                    == join_wire(res))
            } else {
                r is Err && r->Err_0 == DispatchError::MalformedRequest
            }
        },
        url@ == "/NetworkDriver.Leave"@ ==> {
            if spec_decode_endpoint_request(data@) is Some {
                r is Ok && r->Ok_0@ == empty_wire()
            } else {
                r is Err && r->Err_0 == DispatchError::MalformedRequest
            }
        },
        url@ == "/NetworkDriver.DiscoverNew"@ ==> {
            if spec_decode_discover_request(data@) is Some {
                r is Ok && r->Ok_0@ == empty_wire()
            } else {
                r is Err && r->Err_0 == DispatchError::MalformedRequest
            }
        },
        url@ == "/NetworkDriver.DiscoverDelete"@ ==> {
            if spec_decode_discover_request(data@) is Some {
                r is Ok && r->Ok_0@ == empty_wire()
            } else {
                r is Err && r->Err_0 == DispatchError::MalformedRequest
            }
        },
        url@ == "/NetworkDriver.ProgramExternalConnectivity"@ ==> {
            if spec_decode_ext_conn_request(data@) is Some {
                r is Ok && r->Ok_0@ == empty_wire()
            } else {
                r is Err && r->Err_0 == DispatchError::MalformedRequest
            }
        },
        url@ == "/NetworkDriver.RevokeExternalConnectivity"@ ==> {
            if spec_decode_endpoint_request(data@) is Some {
                r is Ok && r->Ok_0@ == empty_wire()
            } else {
                r is Err && r->Err_0 == DispatchError::MalformedRequest
            }
        },
{
    proof {
        lemma_paths_distinct();
    }
    if str_eq(url, "/Plugin.Activate") {
        Ok(encode_manifest())
    } else if str_eq(url, "/NetworkDriver.GetCapabilities") {
        let c = driver.get_capabilities();
        let out = encode_capabilities(&c);
        assert(out@ == enc_capabilities(c@));
        Ok(out)
    } else if str_eq(url, "/NetworkDriver.CreateNetwork") {
        match decode_create_network_request(data) {
            None => Err(DispatchError::MalformedRequest),
            Some(q) => {
                driver.create_network(&q);
                Ok(encode_empty())
            },
        }
    } else if str_eq(url, "/NetworkDriver.AllocateNetwork") {
        match decode_allocate_network_request(data) {
            None => Err(DispatchError::MalformedRequest),
            Some(q) => {
                let res = driver.allocate_network(&q);
                let out = encode_allocate_result(&res);
                proof {
                    match res {
                        Ok(a) => assert(out@ == allocate_wire(Ok(a@))),
                        Err(e) => assert(out@ == allocate_wire(Err(e@))),
                    }
                }
                Ok(out)
            },
        }
    } else if str_eq(url, "/NetworkDriver.DeleteNetwork") {
        match decode_network_request(data) {
            None => Err(DispatchError::MalformedRequest),
            Some(q) => {
                driver.delete_network(&q);
                Ok(encode_empty())
            },
        }
    } else if str_eq(url, "/NetworkDriver.FreeNetwork") {
        match decode_network_request(data) {
            None => Err(DispatchError::MalformedRequest),
            Some(q) => {
                driver.free_network(&q);
                Ok(encode_empty())
            },
        }
    } else if str_eq(url, "/NetworkDriver.CreateEndpoint") {
        match decode_create_endpoint_request(data) {
            None => Err(DispatchError::MalformedRequest),
            Some(q) => {
                let res = driver.create_endpoint(&q);
                let out = encode_create_endpoint_result(&res);
                proof {
                    match res {
                        Ok(c) => assert(out@ == create_endpoint_wire(Ok(c@))),
                        Err(e) => assert(out@ == create_endpoint_wire(Err(e@))),
                    }
                }
                Ok(out)
            },
        }
    } else if str_eq(url, "/NetworkDriver.EndpointOperInfo") {
        match decode_endpoint_request(data) {
            None => Err(DispatchError::MalformedRequest),
            Some(q) => {
                let res = driver.endpoint_info(&q);
                let out = encode_info_result(&res);
                proof {
                    match res {
                        Ok(v) => assert(out@ == info_wire(Ok(v@))),
                        Err(e) => assert(out@ == info_wire(Err(e@))),
                    }
                }
                Ok(out)
            },
        }
    } else if str_eq(url, "/NetworkDriver.DeleteEndpoint") {
        match decode_endpoint_request(data) {
            None => Err(DispatchError::MalformedRequest),
            Some(q) => {
                driver.delete_endpoint(&q);
                Ok(encode_empty())
            },
        }
    } else if str_eq(url, "/NetworkDriver.Join") {
        match decode_join_request(data) {
            None => Err(DispatchError::MalformedRequest),
            Some(q) => {
                let res = driver.join(&q);
                let out = encode_join_result(&res);
                proof {
                    match res {
                        Ok(j) => assert(out@ == join_wire(Ok(j@))),
                        Err(e) => assert(out@ == join_wire(Err(e@))),
                    }
                }
                Ok(out)
            },
        }
    } else if str_eq(url, "/NetworkDriver.Leave") {
        match decode_endpoint_request(data) {
            None => Err(DispatchError::MalformedRequest),
            Some(q) => {
                driver.leave(&q);
                Ok(encode_empty())
            },
        }
    } else if str_eq(url, "/NetworkDriver.DiscoverNew") {
        match decode_discover_request(data) {
            None => Err(DispatchError::MalformedRequest),
            Some(q) => {
                driver.discover_new(&q);
                Ok(encode_empty())
            },
        }
    } else if str_eq(url, "/NetworkDriver.DiscoverDelete") {
        match decode_discover_request(data) {
            None => Err(DispatchError::MalformedRequest),
            Some(q) => {
                driver.discover_delete(&q);
                Ok(encode_empty())
            },
        }
    } else if str_eq(url, "/NetworkDriver.ProgramExternalConnectivity") {
        match decode_ext_conn_request(data) {
            None => Err(DispatchError::MalformedRequest),
            Some(q) => {
                driver.program_external_connectivity(&q);
                Ok(encode_empty())
            },
        }
    } else if str_eq(url, "/NetworkDriver.RevokeExternalConnectivity") {
        match decode_endpoint_request(data) {
            None => Err(DispatchError::MalformedRequest),
            Some(q) => {
                driver.revoke_external_connectivity(&q);
                Ok(encode_empty())
            },
        }
    } else {
        Err(DispatchError::UnknownOperation)
    }
}

/// The fifteen table paths are pairwise distinct strings.
pub proof fn lemma_paths_distinct()
    ensures
        "/Plugin.Activate"@ != "/NetworkDriver.GetCapabilities"@,
        "/Plugin.Activate"@ != "/NetworkDriver.CreateNetwork"@,
        "/Plugin.Activate"@ != "/NetworkDriver.AllocateNetwork"@,
        "/Plugin.Activate"@ != "/NetworkDriver.DeleteNetwork"@,
        "/Plugin.Activate"@ != "/NetworkDriver.FreeNetwork"@,
        "/Plugin.Activate"@ != "/NetworkDriver.CreateEndpoint"@,
        "/Plugin.Activate"@ != "/NetworkDriver.EndpointOperInfo"@,
        "/Plugin.Activate"@ != "/NetworkDriver.DeleteEndpoint"@,
        "/Plugin.Activate"@ != "/NetworkDriver.Join"@,
        "/Plugin.Activate"@ != "/NetworkDriver.Leave"@,
        "/Plugin.Activate"@ != "/NetworkDriver.DiscoverNew"@,
        "/Plugin.Activate"@ != "/NetworkDriver.DiscoverDelete"@,
        "/Plugin.Activate"@ != "/NetworkDriver.ProgramExternalConnectivity"@,
        "/Plugin.Activate"@ != "/NetworkDriver.RevokeExternalConnectivity"@,
        "/NetworkDriver.GetCapabilities"@ != "/NetworkDriver.CreateNetwork"@,
        "/NetworkDriver.GetCapabilities"@ != "/NetworkDriver.AllocateNetwork"@,
        "/NetworkDriver.GetCapabilities"@ != "/NetworkDriver.DeleteNetwork"@,
        "/NetworkDriver.GetCapabilities"@ != "/NetworkDriver.FreeNetwork"@,
        "/NetworkDriver.GetCapabilities"@ != "/NetworkDriver.CreateEndpoint"@,
        "/NetworkDriver.GetCapabilities"@ != "/NetworkDriver.EndpointOperInfo"@,
        "/NetworkDriver.GetCapabilities"@ != "/NetworkDriver.DeleteEndpoint"@,
        "/NetworkDriver.GetCapabilities"@ != "/NetworkDriver.Join"@,
        "/NetworkDriver.GetCapabilities"@ != "/NetworkDriver.Leave"@,
        "/NetworkDriver.GetCapabilities"@ != "/NetworkDriver.DiscoverNew"@,
        "/NetworkDriver.GetCapabilities"@ != "/NetworkDriver.DiscoverDelete"@,
        "/NetworkDriver.GetCapabilities"@ != "/NetworkDriver.ProgramExternalConnectivity"@,
        "/NetworkDriver.GetCapabilities"@ != "/NetworkDriver.RevokeExternalConnectivity"@,
        "/NetworkDriver.CreateNetwork"@ != "/NetworkDriver.AllocateNetwork"@,
        "/NetworkDriver.CreateNetwork"@ != "/NetworkDriver.DeleteNetwork"@,
        "/NetworkDriver.CreateNetwork"@ != "/NetworkDriver.FreeNetwork"@,
        "/NetworkDriver.CreateNetwork"@ != "/NetworkDriver.CreateEndpoint"@,
        "/NetworkDriver.CreateNetwork"@ != "/NetworkDriver.EndpointOperInfo"@,
        "/NetworkDriver.CreateNetwork"@ != "/NetworkDriver.DeleteEndpoint"@,
        "/NetworkDriver.CreateNetwork"@ != "/NetworkDriver.Join"@,
        "/NetworkDriver.CreateNetwork"@ != "/NetworkDriver.Leave"@,
        "/NetworkDriver.CreateNetwork"@ != "/NetworkDriver.DiscoverNew"@,
        "/NetworkDriver.CreateNetwork"@ != "/NetworkDriver.DiscoverDelete"@,
        "/NetworkDriver.CreateNetwork"@ != "/NetworkDriver.ProgramExternalConnectivity"@,
        "/NetworkDriver.CreateNetwork"@ != "/NetworkDriver.RevokeExternalConnectivity"@,
        "/NetworkDriver.AllocateNetwork"@ != "/NetworkDriver.DeleteNetwork"@,
        "/NetworkDriver.AllocateNetwork"@ != "/NetworkDriver.FreeNetwork"@,
        "/NetworkDriver.AllocateNetwork"@ != "/NetworkDriver.CreateEndpoint"@,
        "/NetworkDriver.AllocateNetwork"@ != "/NetworkDriver.EndpointOperInfo"@,
        "/NetworkDriver.AllocateNetwork"@ != "/NetworkDriver.DeleteEndpoint"@,
        "/NetworkDriver.AllocateNetwork"@ != "/NetworkDriver.Join"@,
        "/NetworkDriver.AllocateNetwork"@ != "/NetworkDriver.Leave"@,
        "/NetworkDriver.AllocateNetwork"@ != "/NetworkDriver.DiscoverNew"@,
        "/NetworkDriver.AllocateNetwork"@ != "/NetworkDriver.DiscoverDelete"@,
        "/NetworkDriver.AllocateNetwork"@ != "/NetworkDriver.ProgramExternalConnectivity"@,
        "/NetworkDriver.AllocateNetwork"@ != "/NetworkDriver.RevokeExternalConnectivity"@,
        "/NetworkDriver.DeleteNetwork"@ != "/NetworkDriver.FreeNetwork"@,
        "/NetworkDriver.DeleteNetwork"@ != "/NetworkDriver.CreateEndpoint"@,
        "/NetworkDriver.DeleteNetwork"@ != "/NetworkDriver.EndpointOperInfo"@,
        "/NetworkDriver.DeleteNetwork"@ != "/NetworkDriver.DeleteEndpoint"@,
        "/NetworkDriver.DeleteNetwork"@ != "/NetworkDriver.Join"@,
        "/NetworkDriver.DeleteNetwork"@ != "/NetworkDriver.Leave"@,
        "/NetworkDriver.DeleteNetwork"@ != "/NetworkDriver.DiscoverNew"@,
        "/NetworkDriver.DeleteNetwork"@ != "/NetworkDriver.DiscoverDelete"@,
        "/NetworkDriver.DeleteNetwork"@ != "/NetworkDriver.ProgramExternalConnectivity"@,
        "/NetworkDriver.DeleteNetwork"@ != "/NetworkDriver.RevokeExternalConnectivity"@,
        "/NetworkDriver.FreeNetwork"@ != "/NetworkDriver.CreateEndpoint"@,
        "/NetworkDriver.FreeNetwork"@ != "/NetworkDriver.EndpointOperInfo"@,
        "/NetworkDriver.FreeNetwork"@ != "/NetworkDriver.DeleteEndpoint"@,
        "/NetworkDriver.FreeNetwork"@ != "/NetworkDriver.Join"@,
        "/NetworkDriver.FreeNetwork"@ != "/NetworkDriver.Leave"@,
        "/NetworkDriver.FreeNetwork"@ != "/NetworkDriver.DiscoverNew"@,
        "/NetworkDriver.FreeNetwork"@ != "/NetworkDriver.DiscoverDelete"@,
        "/NetworkDriver.FreeNetwork"@ != "/NetworkDriver.ProgramExternalConnectivity"@,
        "/NetworkDriver.FreeNetwork"@ != "/NetworkDriver.RevokeExternalConnectivity"@,
        "/NetworkDriver.CreateEndpoint"@ != "/NetworkDriver.EndpointOperInfo"@,
        "/NetworkDriver.CreateEndpoint"@ != "/NetworkDriver.DeleteEndpoint"@,
        "/NetworkDriver.CreateEndpoint"@ != "/NetworkDriver.Join"@,
        "/NetworkDriver.CreateEndpoint"@ != "/NetworkDriver.Leave"@,
        "/NetworkDriver.CreateEndpoint"@ != "/NetworkDriver.DiscoverNew"@,
        "/NetworkDriver.CreateEndpoint"@ != "/NetworkDriver.DiscoverDelete"@,
        "/NetworkDriver.CreateEndpoint"@ != "/NetworkDriver.ProgramExternalConnectivity"@,
        "/NetworkDriver.CreateEndpoint"@ != "/NetworkDriver.RevokeExternalConnectivity"@,
        "/NetworkDriver.EndpointOperInfo"@ != "/NetworkDriver.DeleteEndpoint"@,
        "/NetworkDriver.EndpointOperInfo"@ != "/NetworkDriver.Join"@,
        "/NetworkDriver.EndpointOperInfo"@ != "/NetworkDriver.Leave"@,
        "/NetworkDriver.EndpointOperInfo"@ != "/NetworkDriver.DiscoverNew"@,
        "/NetworkDriver.EndpointOperInfo"@ != "/NetworkDriver.DiscoverDelete"@,
        "/NetworkDriver.EndpointOperInfo"@ != "/NetworkDriver.ProgramExternalConnectivity"@,
        "/NetworkDriver.EndpointOperInfo"@ != "/NetworkDriver.RevokeExternalConnectivity"@,
        "/NetworkDriver.DeleteEndpoint"@ != "/NetworkDriver.Join"@,
        "/NetworkDriver.DeleteEndpoint"@ != "/NetworkDriver.Leave"@,
        "/NetworkDriver.DeleteEndpoint"@ != "/NetworkDriver.DiscoverNew"@,
        "/NetworkDriver.DeleteEndpoint"@ != "/NetworkDriver.DiscoverDelete"@,
        "/NetworkDriver.DeleteEndpoint"@ != "/NetworkDriver.ProgramExternalConnectivity"@,
        "/NetworkDriver.DeleteEndpoint"@ != "/NetworkDriver.RevokeExternalConnectivity"@,
        "/NetworkDriver.Join"@ != "/NetworkDriver.Leave"@,
        "/NetworkDriver.Join"@ != "/NetworkDriver.DiscoverNew"@,
        "/NetworkDriver.Join"@ != "/NetworkDriver.DiscoverDelete"@,
        "/NetworkDriver.Join"@ != "/NetworkDriver.ProgramExternalConnectivity"@,
        "/NetworkDriver.Join"@ != "/NetworkDriver.RevokeExternalConnectivity"@,
        "/NetworkDriver.Leave"@ != "/NetworkDriver.DiscoverNew"@,
        "/NetworkDriver.Leave"@ != "/NetworkDriver.DiscoverDelete"@,
        "/NetworkDriver.Leave"@ != "/NetworkDriver.ProgramExternalConnectivity"@,
        "/NetworkDriver.Leave"@ != "/NetworkDriver.RevokeExternalConnectivity"@,
        "/NetworkDriver.DiscoverNew"@ != "/NetworkDriver.DiscoverDelete"@,
        "/NetworkDriver.DiscoverNew"@ != "/NetworkDriver.ProgramExternalConnectivity"@,
        "/NetworkDriver.DiscoverNew"@ != "/NetworkDriver.RevokeExternalConnectivity"@,
        "/NetworkDriver.DiscoverDelete"@ != "/NetworkDriver.ProgramExternalConnectivity"@,
        "/NetworkDriver.DiscoverDelete"@ != "/NetworkDriver.RevokeExternalConnectivity"@,
        "/NetworkDriver.ProgramExternalConnectivity"@ != "/NetworkDriver.RevokeExternalConnectivity"@,
{
    reveal_strlit("/Plugin.Activate");
    reveal_strlit("/NetworkDriver.GetCapabilities");
    reveal_strlit("/NetworkDriver.CreateNetwork");
    reveal_strlit("/NetworkDriver.AllocateNetwork");
    reveal_strlit("/NetworkDriver.DeleteNetwork");
    reveal_strlit("/NetworkDriver.FreeNetwork");
    reveal_strlit("/NetworkDriver.CreateEndpoint");
    reveal_strlit("/NetworkDriver.EndpointOperInfo");
    reveal_strlit("/NetworkDriver.DeleteEndpoint");
    reveal_strlit("/NetworkDriver.Join");
    reveal_strlit("/NetworkDriver.Leave");
    reveal_strlit("/NetworkDriver.DiscoverNew");
    reveal_strlit("/NetworkDriver.DiscoverDelete");
    reveal_strlit("/NetworkDriver.ProgramExternalConnectivity");
    reveal_strlit("/NetworkDriver.RevokeExternalConnectivity");
    assert("/Plugin.Activate"@.len() == 16);
    assert("/NetworkDriver.GetCapabilities"@.len() == 30);
    assert("/NetworkDriver.CreateNetwork"@.len() == 28);
    assert("/NetworkDriver.AllocateNetwork"@.len() == 30);
    assert("/NetworkDriver.DeleteNetwork"@.len() == 28);
    assert("/NetworkDriver.FreeNetwork"@.len() == 26);
    assert("/NetworkDriver.CreateEndpoint"@.len() == 29);
    assert("/NetworkDriver.EndpointOperInfo"@.len() == 31);
    assert("/NetworkDriver.DeleteEndpoint"@.len() == 29);
    assert("/NetworkDriver.Join"@.len() == 19);
    assert("/NetworkDriver.Leave"@.len() == 20);
    assert("/NetworkDriver.DiscoverNew"@.len() == 26);
    assert("/NetworkDriver.DiscoverDelete"@.len() == 29);
    assert("/NetworkDriver.ProgramExternalConnectivity"@.len() == 42);
    assert("/NetworkDriver.RevokeExternalConnectivity"@.len() == 41);
    assert("/NetworkDriver.GetCapabilities"@[15] != "/NetworkDriver.AllocateNetwork"@[15]);
    assert("/NetworkDriver.CreateNetwork"@[15] != "/NetworkDriver.DeleteNetwork"@[15]);
    assert("/NetworkDriver.FreeNetwork"@[15] != "/NetworkDriver.DiscoverNew"@[15]);
    assert("/NetworkDriver.CreateEndpoint"@[15] != "/NetworkDriver.DeleteEndpoint"@[15]);
    assert("/NetworkDriver.CreateEndpoint"@[15] != "/NetworkDriver.DiscoverDelete"@[15]);
    assert("/NetworkDriver.DeleteEndpoint"@[16] != "/NetworkDriver.DiscoverDelete"@[16]);
}

} // verus!
