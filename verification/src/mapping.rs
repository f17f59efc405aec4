//! The mapping from native events to the framework's input events.
use input::Input;
use vstd::prelude::*;

verus! {

/// Makes `input::Input`, the framework's input event, known to the verifier
/// as a type of which nothing is read: this crate hands such values on and
/// never looks inside one.
#[verifier::external_type_specification]
#[verifier::external_body]
pub struct ExInput(input::Input);

/// The framework event that a native event stands for, if it stands for one.
///
/// This is the whole mapping table, and it is empty: no native event is
/// surfaced to the framework yet. A table with entries would dispatch on the
/// kind of the native event here.
pub open spec fn input_event_of<E>(event: E) -> Option<Input> {
    None
}

/// Maps one native event. The native event is consumed either way.
pub fn map_input_event<E>(event: E) -> (mapped: Option<Input>)
    ensures
        mapped == input_event_of(event),
        mapped is None,
{
    None
}

/// What a poll hands to the framework for the native event it obtained, if it
/// obtained one.
pub open spec fn surfaced<E>(obtained: Option<E>) -> Option<Input> {
    match obtained {
        Some(event) => input_event_of(event),
        None => None,
    }
}

} // verus!
