//! The lifecycle a plugin implements.
use vstd::prelude::*;

verus! {

/// A plugin driven by the plugin manager. Errors are reported as text.
pub trait Plugin: Sized {
    /// Called once after the plugin is created, before it is registered.
    /// Unless a plugin overrides it, it succeeds and leaves the plugin as it is.
    fn on_load(&mut self) -> (r: Result<(), String>)
        default_ensures
            r == Ok::<(), String>(()),
            *final(self) == *old(self),
    {
        Ok(())
    }

    /// Called when the plugin is enabled; an error keeps it from being enabled.
    /// Unless a plugin overrides it, it succeeds and leaves the plugin as it is.
    fn on_enable(&mut self) -> (r: Result<(), String>)
        default_ensures
            r == Ok::<(), String>(()),
            *final(self) == *old(self),
    {
        Ok(())
    }

    /// Called when the plugin is disabled.
    fn on_disable(&mut self) {
    }

    /// Called when the plugin is removed from the manager.
    fn on_unload(&mut self);
}

} // verus!
