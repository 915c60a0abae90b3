use vstd::prelude::*;
use crate::error::EngineError;

verus! {

/// The two engine resources, in the order they are created.
#[derive(PartialEq, Eq, Structural, Clone, Copy, Debug)]
pub enum Resource {
    Runtime,
    Context,
}

/// Which of the engine's resources are alive. The context depends on the
/// runtime, so it is created after it and released before it.
#[derive(PartialEq, Eq, Structural, Clone, Copy, Debug)]
pub struct Lifecycle {
    pub runtime_live: bool,
    pub context_live: bool,
}

impl Lifecycle {
    /// A context never outlives its runtime.
    pub open spec fn wf(&self) -> bool {
        self.context_live ==> self.runtime_live
    }

    /// The state after trying to create the runtime, then the context.
    pub fn start(runtime_created: bool, context_created: bool) -> (r: Result<
        Lifecycle,
        EngineError,
    >)
        ensures
            runtime_created && context_created ==> r == Ok::<Lifecycle, EngineError>(
                Lifecycle { runtime_live: true, context_live: true },
            ),
            !(runtime_created && context_created) ==> r matches Err(EngineError::EngineInit),
    {
        if runtime_created && context_created {
            Ok(Lifecycle { runtime_live: true, context_live: true })
        } else {
            Err(EngineError::EngineInit)
        }
    }

    /// Whether an execution guard can be handed out: the context can be
    /// entered only while it is alive and entry itself succeeded.
    pub fn check_entry(&self, entered: bool) -> (r: Result<(), EngineError>)
        ensures
            entered && self.context_live && self.runtime_live ==> r is Ok,
            !(entered && self.context_live && self.runtime_live) ==> r matches Err(
                EngineError::ContextEntry,
            ),
    {
        if entered && self.context_live && self.runtime_live {
            Ok(())
        } else {
            Err(EngineError::ContextEntry)
        }
    }

    /// The next resource to release on teardown: the context while it lives,
    /// then the runtime.
    pub fn next_release(&self) -> (r: Option<Resource>)
        ensures
            self.context_live ==> r == Some(Resource::Context),
            !self.context_live && self.runtime_live ==> r == Some(Resource::Runtime),
            !self.context_live && !self.runtime_live ==> r is None,
    {
        if self.context_live {
            Some(Resource::Context)
        } else if self.runtime_live {
            Some(Resource::Runtime)
        } else {
            None
        }
    }

    /// Records that `res` was released; the runtime only after the context.
    pub fn release(&mut self, res: Resource)
        requires
            old(self).wf(),
            res == Resource::Runtime ==> !old(self).context_live,
        ensures
            final(self).wf(),
            res == Resource::Context ==> *final(self) == (Lifecycle {
                context_live: false,
                ..*old(self)
            }),
            res == Resource::Runtime ==> *final(self) == (Lifecycle {
                runtime_live: false,
                ..*old(self)
            }),
    {
        match res {
            Resource::Context => self.context_live = false,
            Resource::Runtime => self.runtime_live = false,
        }
    }

    /// Releases everything in dependency order and returns the order used.
    pub fn teardown(&mut self) -> (r: Vec<Resource>)
        requires
            old(self).wf(),
        ensures
            !final(self).context_live && !final(self).runtime_live,
            old(self).context_live ==> r@ == seq![Resource::Context, Resource::Runtime],
            !old(self).context_live && old(self).runtime_live ==> r@ == seq![Resource::Runtime],
            !old(self).context_live && !old(self).runtime_live ==> r@.len() == 0,
    {
        let mut order: Vec<Resource> = Vec::new();
        if let Some(res) = self.next_release() {
            self.release(res);
            order.push(res);
        }
        if let Some(res) = self.next_release() {
            self.release(res);
            order.push(res);
        }
        order
    }
}

} // verus!
