use vstd::prelude::*;
use crate::error::{RpcCode, RpcStatus, ServiceError};

verus! {

/// Asks for the next hop of a call towards `destination_uri`.
#[derive(Clone, Debug)]
pub struct GetNextHopRequest {
    pub destination_uri: String,
}

/// Where to forward the call: a target URI and the gateway that serves it.
#[derive(Clone, Debug)]
pub struct GetNextHopResponse {
    pub uri: String,
    pub gateway_id: String,
}

/// The downstream target every call is routed to.
pub open spec fn next_hop_uri() -> Seq<char> {
    "sentiric-b2bua-service:12081"@
}

/// The gateway every call is routed through.
pub open spec fn next_hop_gateway() -> Seq<char> {
    "sentiric-b2bua"@
}

/// The resolution of a destination: a failure code for an empty URI, else the
/// downstream target and gateway.
pub open spec fn next_hop_spec(destination: Seq<char>) -> Result<(Seq<char>, Seq<char>), RpcCode> {
    if destination.len() == 0 {
        Err(RpcCode::InvalidArgument)
    } else {
        Ok((next_hop_uri(), next_hop_gateway()))
    }
}

pub open spec fn reply_model(r: Result<GetNextHopResponse, RpcStatus>) -> Result<
    (Seq<char>, Seq<char>),
    RpcCode,
> {
    match r {
        Ok(resp) => Ok((resp.uri@, resp.gateway_id@)),
        Err(s) => Err(s.code),
    }
}

/// The routing RPC service. It holds no state: each resolution depends on the
/// request alone.
#[derive(Clone, Copy, Debug)]
pub struct MyProxyService {}

impl MyProxyService {
    pub fn new() -> (r: MyProxyService) {
        MyProxyService {  }
    }

    /// Resolves the next hop of a destination. An empty destination URI cannot
    /// be parsed.
    pub fn resolve_next_hop(&self, destination_uri: &str) -> (r: Result<GetNextHopResponse, ServiceError>)
        ensures
            r is Err <==> destination_uri@.len() == 0,
            r is Err ==> r->Err_0 is SipParseError,
            r matches Ok(resp) ==> resp.uri@ == next_hop_uri() && resp.gateway_id@ == next_hop_gateway(),
    {
        if destination_uri.is_empty() {
            return Err(ServiceError::SipParseError("empty destination URI".to_owned()));
        }
        Ok(GetNextHopResponse {
            uri: "sentiric-b2bua-service:12081".to_owned(),
            gateway_id: "sentiric-b2bua".to_owned(),
        })
    }

    /// The `GetNextHop` operation: resolves the request's destination and maps
    /// a failure to the status handed back to the caller.
    pub fn get_next_hop(&self, request: GetNextHopRequest) -> (r: Result<GetNextHopResponse, RpcStatus>)
        ensures
            reply_model(r) == next_hop_spec(request.destination_uri@),
    {
        match self.resolve_next_hop(request.destination_uri.as_str()) {
            Ok(resp) => Ok(resp),
            Err(e) => Err(e.to_status()),
        }
    }
}

/// The answer depends on nothing but whether the destination is empty: every
/// non-empty destination resolves to the same target and gateway, and every
/// empty one fails alike. The service holds no state, so no call, earlier or
/// later, changes what another call returns.
pub proof fn lemma_next_hop_is_fixed(d1: Seq<char>, d2: Seq<char>)
    requires
        (d1.len() == 0) == (d2.len() == 0),
    ensures
        next_hop_spec(d1) == next_hop_spec(d2),
        d1.len() > 0 ==> next_hop_spec(d1) == Ok::<(Seq<char>, Seq<char>), RpcCode>(
            (next_hop_uri(), next_hop_gateway()),
        ),
{
}

/// A malformed (empty) destination is reported as an invalid argument, never
/// as an internal error.
pub proof fn lemma_empty_destination_is_invalid_argument()
    ensures
        next_hop_spec(Seq::<char>::empty()) == Err::<(Seq<char>, Seq<char>), RpcCode>(RpcCode::InvalidArgument),
        next_hop_spec(Seq::<char>::empty()) != Err::<(Seq<char>, Seq<char>), RpcCode>(RpcCode::Internal),
{
}

} // verus!
