//! Domain rule violations.

use vstd::prelude::*;
use crate::text::{concat2, concat3, to_string, append_str};

verus! {

broadcast use vstd::string::group_string_axioms;

/// A domain rule violation reported to callers.
#[derive(Clone, Debug, PartialEq, Eq)]
pub enum DomainError {
    InvalidAssetId(String),
    InvalidProvenance(String),
    InvalidClip(String),
    UnknownTrack(String),
    InvalidRecordingTransition { from: String, to: String },
}

/// The lower-case display text of a domain error.
pub open spec fn domain_error_text(e: DomainError) -> Seq<char> {
    match e {
        DomainError::InvalidAssetId(m) => "invalid asset id: "@ + m@,
        DomainError::InvalidProvenance(m) => "invalid provenance: "@ + m@,
        DomainError::InvalidClip(m) => "invalid clip: "@ + m@,
        DomainError::UnknownTrack(t) => "unknown track '"@ + t@ + "'"@,
        DomainError::InvalidRecordingTransition { from, to } =>
            "recording capture cannot transition from "@ + from@ + " to "@ + to@,
    }
}

impl DomainError {
    /// The display text.
    pub fn message(&self) -> (m: String)
        ensures
            m@ == domain_error_text(*self),
    {
        match self {
            DomainError::InvalidAssetId(m) => concat2("invalid asset id: ", m.as_str()),
            DomainError::InvalidProvenance(m) => concat2("invalid provenance: ", m.as_str()),
            DomainError::InvalidClip(m) => concat2("invalid clip: ", m.as_str()),
            DomainError::UnknownTrack(t) => concat3("unknown track '", t.as_str(), "'"),
            DomainError::InvalidRecordingTransition { from, to } => {
                let mut m = concat3("recording capture cannot transition from ", from.as_str(), " to ");
                append_str(&mut m, to.as_str());
                m
            },
        }
    }
}

} // verus!
