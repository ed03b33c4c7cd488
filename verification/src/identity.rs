//! Who the hub is: its address, and its firmware version where it tells.

use crate::codec::text_member;
use crate::error::{ClientError, ClientErrorView};
use crate::json::{json_parse_text, json_view, parse_text, Json};
use vstd::prelude::*;

verus! {

/// The hub's identity.
#[derive(Debug, Clone, PartialEq, Eq)]
pub struct Identity {
    /// The hub's hardware address.
    pub device_id: String,
    /// The firmware version, where the hub reported one.
    pub firmware_version: Option<String>,
}

/// An identity as a mathematical value.
pub struct IdentityView {
    pub device_id: Seq<char>,
    pub firmware_version: Option<Seq<char>>,
}

impl View for Identity {
    type V = IdentityView;

    open spec fn view(&self) -> IdentityView {
        IdentityView {
            device_id: self.device_id@,
            firmware_version: match self.firmware_version {
                Some(version) => Some(version@),
                None => None,
            },
        }
    }
}

/// The firmware version that a response reports: the string member
/// `firmware version`. A response without it reports none.
pub open spec fn firmware_version_of(doc: Json) -> Option<Seq<char>> {
    doc.member_text("firmware version"@)
}

/// What the response text to the firmware query yields for the hub at
/// `device_id`: the identity where the text is JSON, with the version that it
/// reports; else a payload error that carries the text.
pub open spec fn identified(device_id: Seq<char>, response: Seq<char>) -> Result<
    IdentityView,
    ClientErrorView,
> {
    match json_parse_text(response) {
        Some(doc) => Ok(IdentityView { device_id, firmware_version: firmware_version_of(doc) }),
        None => Err(ClientErrorView::Payload(response)),
    }
}

/// An identity or an error as a mathematical value.
pub open spec fn identity_view(r: Result<Identity, ClientError>) -> Result<
    IdentityView,
    ClientErrorView,
> {
    match r {
        Ok(identity) => Ok(identity@),
        Err(e) => Err(e@),
    }
}

impl Identity {
    /// The identity of the hub at `device_id` that gave the parsed response
    /// `doc` to the firmware query.
    pub fn from_value(device_id: String, doc: &serde_json::Value) -> (r: Identity)
        ensures
            r@ == (IdentityView {
                device_id: device_id@,
                firmware_version: firmware_version_of(json_view(*doc)),
            }),
    {
        Identity { device_id, firmware_version: text_member(doc, "firmware version") }
    }

    /// The identity of the hub at `device_id` that gave the response text
    /// `response` to the firmware query.
    pub fn from_response(device_id: String, response: &str) -> (r: Result<Identity, ClientError>)
        ensures
            identity_view(r) == identified(device_id@, response@),
    {
        match parse_text(response) {
            Ok(doc) => Ok(Identity::from_value(device_id, &doc)),
            Err(_) => Err(ClientError::Payload(response.to_owned())),
        }
    }
}

/// A response that is JSON and lacks the firmware version yields an identity
/// without one, not an error.
pub proof fn lemma_version_is_optional(device_id: Seq<char>, response: Seq<char>)
    requires
        json_parse_text(response) matches Some(doc) && doc.member("firmware version"@) is None,
    ensures
        identified(device_id, response) == Ok::<_, ClientErrorView>(
            IdentityView { device_id, firmware_version: None },
        ),
{
}

} // verus!
