//! Local resources that the UPF hands out: TEIDs and UE addresses.
use vstd::prelude::*;

use std::collections::HashMap;

verus! {

/// The TEIDs handed out, by CHOOSE ID.
pub struct ResourceManager {
    pub teids: HashMap<u8, u32>,
}

impl ResourceManager {
    pub fn new() -> (r: Self)
        ensures
            r.teids@ == Map::<u8, u32>::empty(),
    {
        Self { teids: HashMap::new() }
    }
}

} // verus!
