//! The application-version record exchanged during the channel handshake,
//! and the choice of bulk-transfer protocol generation it gates.
use vstd::prelude::*;
use crate::error::TransferError;
use crate::json::Json;

verus! {

/// The application-specific version information of this protocol.
///
/// It currently carries no options; decoding it tolerates any unknown
/// fields a newer peer may advertise.
#[derive(Clone, Copy, Debug, PartialEq, Eq, Structural)]
pub struct AppVersion {}

/// The bulk-transfer protocol generation used once transit is connected.
#[derive(Clone, Copy, Debug, PartialEq, Eq, Structural)]
pub enum ProtocolGeneration {
    V1,
    V2,
}

impl AppVersion {
    /// The version record this implementation advertises.
    pub fn new() -> (r: AppVersion)
        ensures
            r == (AppVersion {}),
    {
        AppVersion {}
    }

    /// This record as advertised in the handshake: an object with no fields.
    pub fn encode(&self) -> (r: Json)
        ensures
            r matches Json::Object(es) && es@.len() == 0,
    {
        Json::Object(Vec::new())
    }

    /// Reads a peer's version record. Any object is accepted, whatever
    /// fields it carries, as is an empty list; anything else is malformed.
    pub fn decode(j: &Json) -> (r: Result<AppVersion, TransferError>)
        ensures
            (j is Object || (j matches Json::Array(a) && a@.len() == 0)) ==> r == Ok::<
                AppVersion,
                TransferError,
            >(AppVersion {}),
            !(j is Object || (j matches Json::Array(a) && a@.len() == 0)) ==> r matches Err(
                TransferError::ProtocolJson(_),
            ),
    {
        match j {
            Json::Object(_) => Ok(AppVersion {}),
            Json::Array(a) => if a.len() == 0 {
                Ok(AppVersion {})
            } else {
                Err(TransferError::ProtocolJson("version record is not an object".to_owned()))
            },
            _ => Err(TransferError::ProtocolJson("version record is not an object".to_owned())),
        }
    }

    /// Whether the peer advertised the second transfer generation.
    /// No option for it exists yet, so this is always false.
    pub fn supports_v2(&self) -> (r: bool)
        ensures
            r == false,
    {
        false
    }
}

impl Default for AppVersion {
    fn default() -> (r: AppVersion)
        ensures
            r == (AppVersion {}),
    {
        AppVersion::new()
    }
}

/// The generation that is selected against a given peer version.
pub open spec fn selected_generation(ours: AppVersion, peer: AppVersion) -> ProtocolGeneration {
    ProtocolGeneration::V1
}

/// Picks the bulk-transfer generation for a transfer with `peer`.
///
/// The second generation is reserved: it is chosen only when both sides
/// support it and it is enabled, which this generation never is.
pub fn select_generation(ours: &AppVersion, peer: &AppVersion) -> (r: ProtocolGeneration)
    ensures
        r == selected_generation(*ours, *peer),
{
    let v2_enabled = false;
    if v2_enabled && ours.supports_v2() && peer.supports_v2() {
        ProtocolGeneration::V2
    } else {
        ProtocolGeneration::V1
    }
}

} // verus!
