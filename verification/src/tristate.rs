//! The tri-state field of a partial update: leave unchanged, reset to the
//! default, or set to a new value.

use vstd::prelude::*;

verus! {

/// One entry of a partial update. `Unset` asks for no change, `Clear`
/// resets the field to its type's default, `SetTo` replaces it.
#[derive(Debug, PartialEq, Eq)]
pub enum TriState<T> {
    Unset,
    Clear,
    SetTo(T),
}

/// Derives an entry from a raw optional command parameter of a full-replace
/// command: an absent parameter clears the field, a present one sets it.
///
/// Incremental single-field commands instead leave every untouched entry at
/// `Unset`, which the request builder starts from.
pub fn from_optional<T>(value: Option<T>) -> (r: TriState<T>)
    ensures
        match value {
            Some(v) => r == TriState::SetTo(v),
            None => r == TriState::<T>::Clear,
        },
{
    match value {
        Some(v) => TriState::SetTo(v),
        None => TriState::Clear,
    }
}

} // verus!
