//! Markers for the chip variants that the driver talks to.

use vstd::prelude::*;

verus! {

/// The Si4702: no RDS decoding.
pub struct Si4702(());

/// The Si4703.
pub struct Si4703(());

} // verus!
