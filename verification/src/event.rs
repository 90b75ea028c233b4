//! The state-change event as the pipeline reads it.

use vstd::prelude::*;
use crate::value::NumericForms;

verus! {

/// The state that an entity has changed to.
#[derive(Debug, Clone)]
pub struct State {
    /// The identifier of the entity, `"<kind>.<name>"`.
    pub entity_id: String,
    /// The state as text.
    pub state: String,
    /// What the numeric readers made of `state`.
    pub numeric: NumericForms,
    /// When the state was last updated: an RFC 3339 timestamp.
    pub last_updated: String,
    /// The attribute `device_class`, where the event carries it as a string.
    pub device_class: Option<String>,
}

/// One state-change event.
#[derive(Debug, Clone)]
pub struct Event {
    /// The identifier of the entity that changed, `"<kind>.<name>"`.
    pub entity_id: String,
    /// The new state; absent where the entity was removed.
    pub new_state: Option<State>,
}

} // verus!
