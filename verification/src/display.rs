//! Display devices for the CHIP-8 emulation.

use vstd::prelude::*;

verus! {

/// The display device that the CHIP-8 emulation core expects. Drawing is not
/// wired up yet, so the interface asks nothing of a device.
pub trait Display {

}

} // verus!
