//! One message between a client and the agent, in either direction.

use crate::types::request::InternalServiceRequest;
use crate::types::response::InternalServiceResponse;
use vstd::prelude::*;

verus! {

#[derive(PartialEq, Eq)]
pub enum InternalServicePayload {
    Request(InternalServiceRequest),
    Response(InternalServiceResponse),
}

impl From<InternalServiceResponse> for InternalServicePayload {
    fn from(response: InternalServiceResponse) -> (r: Self) {
        InternalServicePayload::Response(response)
    }
}

impl vstd::std_specs::convert::FromSpecImpl<InternalServiceResponse> for InternalServicePayload {
    open spec fn obeys_from_spec() -> bool {
        true
    }

    open spec fn from_spec(response: InternalServiceResponse) -> Self {
        InternalServicePayload::Response(response)
    }
}

impl From<InternalServiceRequest> for InternalServicePayload {
    fn from(request: InternalServiceRequest) -> (r: Self) {
        InternalServicePayload::Request(request)
    }
}

impl vstd::std_specs::convert::FromSpecImpl<InternalServiceRequest> for InternalServicePayload {
    open spec fn obeys_from_spec() -> bool {
        true
    }

    open spec fn from_spec(request: InternalServiceRequest) -> Self {
        InternalServicePayload::Request(request)
    }
}

/// A payload holds what it was made of, a request as a request and a response as a response.
pub proof fn law_a_payload_holds_what_it_was_made_of(
    request: InternalServiceRequest,
    response: InternalServiceResponse,
)
    ensures
        <InternalServicePayload as vstd::std_specs::convert::FromSpec<
            InternalServiceRequest,
        >>::from_spec(request) == InternalServicePayload::Request(request),
        <InternalServicePayload as vstd::std_specs::convert::FromSpec<
            InternalServiceResponse,
        >>::from_spec(response) == InternalServicePayload::Response(response),
{
}

} // verus!
