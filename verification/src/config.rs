//! Compile-time policy bundle for the reset class driver: which boot-mode
//! sub-interfaces to disable and which GPIO line, if any, blinks as the
//! default boot-mode activity indicator.

use vstd::prelude::*;

verus! {

/// Which of the boot ROM's two USB sub-interfaces are suppressed when the
/// device re-enters boot-select mode. The boot ROM consumes this as a small
/// integer; see [`DisableInterface::into`].
#[derive(Clone, Copy, Debug, PartialEq, Eq, Structural)]
pub enum DisableInterface {
    /// Leave both sub-interfaces enabled, as on a cold boot.
    BothEnabled,
    /// Suppress the mass-storage sub-interface.
    DisableMassStorage,
    /// Suppress the vendor "picoboot" sub-interface.
    DisablePicoBoot,
}

/// The integer encoding of a [`DisableInterface`] variant, as the boot ROM's
/// re-entry primitive expects it in its disable-mask argument.
pub open spec fn disable_encoding(d: DisableInterface) -> u32 {
    match d {
        DisableInterface::BothEnabled => 0,
        DisableInterface::DisableMassStorage => 1,
        DisableInterface::DisablePicoBoot => 2,
    }
}

impl DisableInterface {
    /// The variant's integer encoding for the boot ROM.
    pub fn into(self) -> (r: u32)
        ensures
            r == disable_encoding(self),
    {
        match self {
            DisableInterface::BothEnabled => 0,
            DisableInterface::DisableMassStorage => 1,
            DisableInterface::DisablePicoBoot => 2,
        }
    }
}

/// A configuration is a pair of compile-time policy values bound to a driver
/// instance at construction and fixed for its lifetime.
///
/// A default activity LED, when present, must name a line that fits a 32-bit
/// GPIO mask.
pub trait Config {
    /// The sub-interfaces to disable on re-entry into boot-select mode.
    spec fn spec_interface_disable_mask() -> DisableInterface;

    /// The default activity-indicator GPIO line, if the configuration has one.
    spec fn spec_bootsel_activity_led() -> Option<usize>;

    /// The sub-interfaces to disable on re-entry into boot-select mode.
    fn interface_disable_mask() -> (r: DisableInterface)
        ensures
            r == Self::spec_interface_disable_mask(),
    ;

    /// The default activity-indicator GPIO line, if the configuration has one.
    fn bootsel_activity_led() -> (r: Option<usize>)
        ensures
            r == Self::spec_bootsel_activity_led(),
            r matches Some(line) ==> line < 32,
    ;
}

/// The configuration a driver gets when the caller specifies nothing: both
/// sub-interfaces stay enabled and no default activity LED is used.
#[derive(Clone, Copy, Debug)]
pub struct DefaultConfig;

impl Config for DefaultConfig {
    open spec fn spec_interface_disable_mask() -> DisableInterface {
        DisableInterface::BothEnabled
    }

    open spec fn spec_bootsel_activity_led() -> Option<usize> {
        None
    }

    fn interface_disable_mask() -> (r: DisableInterface) {
        DisableInterface::BothEnabled
    }

    fn bootsel_activity_led() -> (r: Option<usize>) {
        None
    }
}

} // verus!
