//! Declarations of the outside types that the handler carries.
//!
//! The library never looks inside these values (identifiers and a path): it stores them and hands them
//! back unchanged in the actions it produces.

use vstd::prelude::*;
use twilight_model::id::marker::{ChannelMarker, WebhookMarker};
use twilight_model::id::Id;

verus! {

/// `twilight_model::id::Id`, a typed Discord snowflake, carried opaquely.
#[verifier::external_type_specification]
#[verifier::external_body]
#[verifier::reject_recursive_types(T)]
pub struct ExId<T>(Id<T>);

/// Marker of a channel identifier.
#[verifier::external_type_specification]
#[verifier::external_body]
pub struct ExChannelMarker(ChannelMarker);

/// Marker of a webhook identifier.
#[verifier::external_type_specification]
#[verifier::external_body]
pub struct ExWebhookMarker(WebhookMarker);

/// `std::path::PathBuf`, the file sink's path, carried opaquely.
#[verifier::external_type_specification]
#[verifier::external_body]
pub struct ExPathBuf(std::path::PathBuf);

} // verus!
