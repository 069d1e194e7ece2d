//! What the daemon reports of a network.

use crate::errors::ErrorKind;
use crate::transport::json::{json_view, Json};
use crate::transport::parse::{field_text, text_field};
use serde_json::Value;
use vstd::prelude::*;

verus! {

/// The properties by which a network is known: the identifier the daemon gave
/// it, and its name.
#[derive(Debug, Clone, PartialEq, Eq)]
pub struct NetworkDetails {
    pub id: String,
    pub name: String,
}

/// [`NetworkDetails`] as mathematical values.
pub struct NetworkDetailsView {
    pub id: Seq<char>,
    pub name: Seq<char>,
}

impl View for NetworkDetails {
    type V = NetworkDetailsView;

    open spec fn view(&self) -> NetworkDetailsView {
        NetworkDetailsView { id: self.id@, name: self.name@ }
    }
}

/// The details `document` gives: the strings under `Id` and `Name`, where it
/// is an object that has both. Other members are passed over.
pub open spec fn details_of(document: Json) -> Option<NetworkDetailsView> {
    match (text_field(document, "Id"@), text_field(document, "Name"@)) {
        (Some(id), Some(name)) => Some(NetworkDetailsView { id, name }),
        _ => None,
    }
}

impl NetworkDetails {
    /// Reads the details from a document, or fails with `Decode` where the
    /// document does not have their shape.
    pub fn from_json(document: &Value) -> (result: Result<NetworkDetails, ErrorKind>)
        ensures
            match result {
                Ok(details) => details_of(json_view(*document)) == Some(details@),
                Err(error) => details_of(json_view(*document)) is None && error
                    == ErrorKind::Decode,
            },
    {
        let id = match field_text(document, "Id") {
            Some(id) => id,
            None => {
                return Err(ErrorKind::Decode);
            },
        };
        let name = match field_text(document, "Name") {
            Some(name) => name,
            None => {
                return Err(ErrorKind::Decode);
            },
        };
        Ok(NetworkDetails { id, name })
    }
}

} // verus!
