//! Logical scene dimensions, usable both as persistent state and as a
//! one-shot notification value.

use vstd::prelude::*;

verus! {

/// The logical pixel dimensions of the scene being rendered.
#[derive(Debug)]
pub struct SceneInfo {
    width: u32,
    height: u32,
}

impl View for SceneInfo {
    type V = (u32, u32);

    closed spec fn view(&self) -> (u32, u32) {
        (self.width, self.height)
    }
}

impl SceneInfo {
    pub fn new(width: u32, height: u32) -> (info: SceneInfo)
        ensures
            info@ == ((width, height)),
    {
        SceneInfo { width, height }
    }

    pub fn dimensions(&self) -> (dims: (u32, u32))
        ensures
            dims == self@,
    {
        (self.width, self.height)
    }
}

impl Default for SceneInfo {
    fn default() -> (info: SceneInfo)
        ensures
            info@ == ((0u32, 0u32)),
    {
        SceneInfo { width: 0, height: 0 }
    }
}

} // verus!
