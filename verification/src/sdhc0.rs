//! SD/MMC Host Controller

use vcell::VolatileCell;
use vstd::prelude::*;

pub mod nisier;

verus! {

/// Normal Interrupt Signal Enable
pub struct NISIER {
    register: VolatileCell<u16>,
}

} // verus!
