use vstd::prelude::*;

verus! {

/// The error of asking the process-wide sink cell for its handle before
/// the one-time initialization has stored one.
#[derive(Clone, Copy, Debug, PartialEq, Eq)]
pub enum SinkError {
    NotInitialized,
}

/// The cell behind the runtime-swappable log/trace sink: a slot that the
/// one-time startup initialization fills with a reload handle, and that
/// every later replacement goes through. Asking for the handle before
/// initialization is reported as an error, never silently ignored.
pub struct SinkCell<H> {
    pub handle: Option<H>,
}

impl<H> SinkCell<H> {
    /// An empty cell: no initialization has happened yet.
    pub fn new() -> (r: Self)
        ensures
            r.handle is None,
    {
        SinkCell { handle: None }
    }

    /// Store the reload handle; done once, at startup.
    pub fn install(&mut self, handle: H)
        ensures
            final(self).handle == Some(handle),
    {
        self.handle = Some(handle);
    }

    /// The handle a replacement must go through: the stored one when the
    /// cell was initialized, and `NotInitialized` otherwise — exactly
    /// then.
    pub fn reload_target(&self) -> (r: Result<&H, SinkError>)
        ensures
            (self.handle matches Some(h) ==> (r matches Ok(t) && *t == h)),
            self.handle is None ==> r == Err::<&H, SinkError>(SinkError::NotInitialized),
    {
        match &self.handle {
            Some(h) => Ok(h),
            None => Err(SinkError::NotInitialized),
        }
    }
}

/// The verbosity levels the startup logger can be configured with.
#[derive(Clone, Copy, Debug, PartialEq, Eq)]
pub enum LogLevel {
    Debug,
    Info,
}

/// The log level startup installs for a configuration: debug when verbose
/// logging was asked for, info otherwise.
pub fn log_level_for(verbose: bool) -> (r: LogLevel)
    ensures
        r == if verbose {
            LogLevel::Debug
        } else {
            LogLevel::Info
        },
{
    if verbose {
        LogLevel::Debug
    } else {
        LogLevel::Info
    }
}

} // verus!
