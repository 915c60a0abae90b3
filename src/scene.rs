use vstd::prelude::*;

verus! {

/// An object placed in a scene; it carries no state of its own yet.
pub struct GameObject {}

/// The set of game objects that native code drives.
pub struct Scene {
    pub objects: Vec<GameObject>,
}

impl Scene {
    /// An empty scene, boxed so that its address stays put when it is handed to scripts.
    pub fn new() -> (r: Box<Scene>)
        ensures
            r.objects@.len() == 0,
    {
        let sc = Scene { objects: Vec::new() };
        Box::new(sc)
    }
}

} // verus!
