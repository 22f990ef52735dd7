//! The manifest under its former name.

use crate::manifest::Manifest;
use vstd::prelude::*;

verus! {

/// A project's configuration: its manifest.
pub type Config = Manifest;

} // verus!
