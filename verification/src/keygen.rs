//! Key generation.

use crate::key::Key;
use vstd::prelude::*;

verus! {

/// Generate a random 64-byte key; the same as [`Key::random`].
#[must_use]
pub fn generate_key() -> (res: Key) {
    Key::random()
}

} // verus!
