//! The host operating-system family.
//!
//! Exactly one family is selected per deployment, at build or startup time.
//! It decides both the path syntax (which characters separate components)
//! and which file-manager utility the OS-integration operations invoke.

use vstd::prelude::*;

verus! {

/// The host operating-system family, fixed at startup.
#[derive(Clone, Copy)]
pub enum Platform {
    Windows,
    MacOs,
    Linux,
}

} // verus!
