use vstd::prelude::*;

verus! {

/// Base trait of all worker handles: access to the worker's name.
pub trait Handle: Clone + Send + Sync {
    /// Returns the worker's name.
    fn name(&self) -> &'static str;
}

/// Handles of workers that can be paused and resumed (interval and cron
/// triggers and their hybrids).
pub trait Pausable: Handle {
    /// Pauses the worker's trigger until it is resumed.
    fn pause(&self);

    /// Resumes a paused worker's trigger.
    fn resume(&self);

    /// Returns `true` if the worker is currently paused.
    fn is_paused(&self) -> bool;
}

/// Handles of workers that can be triggered on demand (notify triggers and
/// the hybrids).
pub trait Notifiable: Handle {
    /// Triggers an execution of the worker.
    fn notify(&self);
}

/// Handle of a worker with `Trigger::Once`: it offers only the name.
#[derive(Clone, Copy, Debug)]
pub struct OnceHandle {
    name: &'static str,
}

impl OnceHandle {
    /// The name this handle reports.
    pub closed spec fn spec_name(&self) -> &'static str {
        self.name
    }

    pub fn new(name: &'static str) -> (h: OnceHandle)
        ensures
            h.spec_name() == name,
    {
        OnceHandle { name }
    }
}

impl Handle for OnceHandle {
    fn name(&self) -> (n: &'static str)
        ensures
            n == self.spec_name(),
    {
        self.name
    }
}

} // verus!
