use vstd::prelude::*;

verus! {

/// Event sent when the configuration file changes.
#[derive(Debug, Clone, Copy)]
pub struct ConfigReloadEvent;

} // verus!
