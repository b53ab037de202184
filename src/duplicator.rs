//! A resource provider that hands its request on as its resource: the reference shape of the
//! create / destroy protocol, split into the steps between the info-channel calls.
use vstd::prelude::*;
use crate::provider::{ProviderError, Resources};

verus! {

#[verifier::external_type_specification]
#[verifier::external_body]
pub struct ExValue(serde_json::Value);

/// Relies on serde_json's derived `Clone` for `Value`: the copy equals the value it was made from.
pub assume_specification[ <serde_json::Value as Clone>::clone ](v: &serde_json::Value) -> (r:
    serde_json::Value)
    ensures
        r == *v,
;

/// The request: the data to duplicate.
pub struct DuplicationRequest {
    pub info: serde_json::Value,
}

/// The created resource: the duplicated data.
pub struct DuplicatedData {
    pub info: serde_json::Value,
}

/// The info document this provider shares with the controller.
pub struct Memo {
    pub info: Option<DuplicationRequest>,
}

pub const GET_INFO_FAILED: &'static str = "Unable to get info from client";
pub const SEND_INFO_FAILED: &'static str = "Error sending cluster created message";

impl DuplicationRequest {
    pub fn duplicate(&self) -> (r: DuplicationRequest)
        ensures
            r == *self,
    {
        DuplicationRequest { info: self.info.clone() }
    }
}

impl Memo {
    pub fn new() -> (r: Memo)
        ensures
            r.info is None,
    {
        Memo { info: None }
    }
}

/// First step of create, once the info document has been read: the memo to send back, which
/// records the request. A failed read leaves nothing behind.
pub fn create_memo(read: Result<Memo, String>, request: &DuplicationRequest) -> (r: Result<
    Memo,
    ProviderError,
>)
    ensures
        match read {
            Ok(_) => r matches Ok(m) && m.info == Some(*request),
            Err(_) => r matches Err(e) && e.resources == Resources::Clear && e.message@
                == GET_INFO_FAILED@,
        },
{
    match read {
        Ok(memo) => {
            let mut memo = memo;
            memo.info = Some(request.duplicate());
            Ok(memo)
        },
        Err(_) => Err(ProviderError::new(Resources::Clear, GET_INFO_FAILED.to_owned())),
    }
}

/// Last step of create, once the memo has been sent: the resource, a copy of the request's
/// data. A failed send happens after the memo was prepared, so state may remain.
pub fn create_resource(sent: Result<(), String>, request: &DuplicationRequest) -> (r: Result<
    DuplicatedData,
    ProviderError,
>)
    ensures
        match sent {
            Ok(_) => r matches Ok(d) && d.info == request.info,
            Err(_) => r matches Err(e) && e.resources == Resources::Remaining && e.message@
                == SEND_INFO_FAILED@,
        },
{
    match sent {
        Ok(()) => Ok(DuplicatedData { info: request.info.clone() }),
        Err(_) => Err(ProviderError::new(Resources::Remaining, SEND_INFO_FAILED.to_owned())),
    }
}

/// Destroy: nothing was made outside, so it succeeds whatever is absent, any number of times.
pub fn destroy(request: Option<&DuplicationRequest>, resource: Option<&DuplicatedData>) -> (r:
    Result<(), ProviderError>)
    ensures
        r is Ok,
{
    Ok(())
}

} // verus!
