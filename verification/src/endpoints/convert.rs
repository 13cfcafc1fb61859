//! Conversion between assets.

use vstd::prelude::*;
use vstd::string::*;
use crate::endpoints::{with_base, BaseRequest, Endpoint, EndpointRequest, Method, SecurityType};
use crate::errors::BinanceApiError;
use crate::json::Json;

verus! {

/// The conversion service.
#[derive(Debug, Clone, Copy, PartialEq, Eq, Structural)]
pub enum ConvertEP {
    AssetInfo,
}

impl ConvertEP {
    /// The path of the operation.
    pub open spec fn spec_path(self) -> Seq<char> {
        match self {
            ConvertEP::AssetInfo => "/sapi/v1/convert/assetInfo"@,
        }
    }

    pub fn path(&self) -> (path: &'static str)
        ensures
            path@ == self.spec_path(),
    {
        match self {
            ConvertEP::AssetInfo => "/sapi/v1/convert/assetInfo",
        }
    }
}

impl Endpoint for ConvertEP {
    open spec fn spec_is_implemented(&self) -> bool {
        true
    }

    open spec fn spec_action_params(&self) -> (Method, SecurityType, Seq<char>) {
        match self {
            ConvertEP::AssetInfo => (Method::GET, SecurityType::UserData, self.spec_path()),
        }
    }

    fn is_implemented(&self) -> (r: bool) {
        true
    }

    fn action_params(&self) -> (r: (Method, SecurityType, String)) {
        let path = String::from_str(self.path());
        match self {
            ConvertEP::AssetInfo => (Method::GET, SecurityType::UserData, path),
        }
    }
}

/// The precision of every asset that can be converted.
#[derive(Debug)]
pub struct AssetInfoRequest(pub BaseRequest);

impl EndpointRequest for AssetInfoRequest {
    type Response = Json;

    open spec fn spec_query(&self) -> Seq<char> {
        with_base(Seq::empty(), self.0)
    }

    open spec fn spec_is_valid(&self) -> bool {
        true
    }

    fn to_string(&self) -> (query: String) {
        self.0.to_string()
    }

    fn validate(&self) -> (r: Result<(), BinanceApiError>) {
        Ok(())
    }
}

} // verus!
