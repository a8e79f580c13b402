use vstd::prelude::*;

verus! {

/// One entry of the surrounding shell's command/help surface.
pub struct CommandInfo {
    pub name: String,
}

} // verus!
