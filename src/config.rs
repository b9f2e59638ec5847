//! Which plugins the application enables.
use vstd::prelude::*;

use crate::err::Error;

verus! {

/// Switches for the optional parts of the application.
#[derive(Debug, Clone, Copy, PartialEq, Eq, Structural)]
pub struct HyvoGridConfig {
    pub enable_hanabi: bool,
    pub enable_tweening: bool,
    pub enable_outline: bool,
    pub enable_camera: bool,
}

impl Default for HyvoGridConfig {
    fn default() -> (r: Self)
        ensures
            r.enable_hanabi && r.enable_tweening && r.enable_outline && r.enable_camera,
    {
        HyvoGridConfig { enable_hanabi: true, enable_tweening: true, enable_outline: true, enable_camera: true }
    }
}

impl HyvoGridConfig {
    /// Every combination of switches is a valid configuration.
    pub fn validate(&self) -> (r: Result<(), Error>)
        ensures
            r is Ok,
    {
        Ok(())
    }
}

} // verus!
