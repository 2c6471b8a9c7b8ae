//! The data of the startup task the installer registers: the executable
//! action and the logon trigger, held as plain values. Marshalling them
//! into the platform's task scheduler is the surrounding binary's work;
//! what is to be marshalled is decided — and checked — here.

use vstd::prelude::*;

verus! {

/// The executable action of the startup task: what to run, with which
/// arguments, from which directory. Each field is unset until its setter
/// is called.
#[derive(Debug, Clone, PartialEq, Eq)]
pub struct ExecAction {
    path: Option<String>,
    arguments: Option<String>,
    working_directory: Option<String>,
}

impl ExecAction {
    /// The executable the action starts, if set.
    pub closed spec fn spec_path(self) -> Option<String> {
        self.path
    }

    /// The argument string handed to the executable, if set.
    pub closed spec fn spec_arguments(self) -> Option<String> {
        self.arguments
    }

    /// The directory the executable starts in, if set.
    pub closed spec fn spec_working_directory(self) -> Option<String> {
        self.working_directory
    }

    /// An action with nothing set yet.
    pub fn new() -> (r: Self)
        ensures
            r.spec_path() is None,
            r.spec_arguments() is None,
            r.spec_working_directory() is None,
    {
        Self { path: None, arguments: None, working_directory: None }
    }

    /// Sets the executable the action starts.
    pub fn set_path(&mut self, path: String)
        ensures
            final(self).spec_path() == Some(path),
            final(self).spec_arguments() == old(self).spec_arguments(),
            final(self).spec_working_directory() == old(self).spec_working_directory(),
    {
        self.path = Some(path);
    }

    /// Sets the argument string handed to the executable.
    pub fn set_arguments(&mut self, arguments: String)
        ensures
            final(self).spec_arguments() == Some(arguments),
            final(self).spec_path() == old(self).spec_path(),
            final(self).spec_working_directory() == old(self).spec_working_directory(),
    {
        self.arguments = Some(arguments);
    }

    /// Sets the directory the executable starts in.
    pub fn set_working_directory(&mut self, working_directory: String)
        ensures
            final(self).spec_working_directory() == Some(working_directory),
            final(self).spec_path() == old(self).spec_path(),
            final(self).spec_arguments() == old(self).spec_arguments(),
    {
        self.working_directory = Some(working_directory);
    }

    /// The executable the action starts, if set.
    pub fn path(&self) -> (r: &Option<String>)
        ensures
            *r == self.spec_path(),
    {
        &self.path
    }

    /// The argument string handed to the executable, if set.
    pub fn arguments(&self) -> (r: &Option<String>)
        ensures
            *r == self.spec_arguments(),
    {
        &self.arguments
    }

    /// The directory the executable starts in, if set.
    pub fn working_directory(&self) -> (r: &Option<String>)
        ensures
            *r == self.spec_working_directory(),
    {
        &self.working_directory
    }
}

/// The logon trigger of the startup task: how long to delay after logon,
/// and which user the trigger fires for. Each field is unset until its
/// setter is called.
#[derive(Debug, Clone, PartialEq, Eq)]
pub struct LogonTrigger {
    delay: Option<String>,
    user_id: Option<String>,
}

impl LogonTrigger {
    /// The delay between logon and the start, as an ISO-8601 duration, if
    /// set.
    pub closed spec fn spec_delay(self) -> Option<String> {
        self.delay
    }

    /// The user the trigger fires for, if set.
    pub closed spec fn spec_user_id(self) -> Option<String> {
        self.user_id
    }

    /// A trigger with nothing set yet.
    pub fn new() -> (r: Self)
        ensures
            r.spec_delay() is None,
            r.spec_user_id() is None,
    {
        Self { delay: None, user_id: None }
    }

    /// Sets the delay between logon and the start.
    pub fn set_delay(&mut self, delay: String)
        ensures
            final(self).spec_delay() == Some(delay),
            final(self).spec_user_id() == old(self).spec_user_id(),
    {
        self.delay = Some(delay);
    }

    /// Sets the user the trigger fires for.
    pub fn set_user_id(&mut self, user_id: String)
        ensures
            final(self).spec_user_id() == Some(user_id),
            final(self).spec_delay() == old(self).spec_delay(),
    {
        self.user_id = Some(user_id);
    }

    /// The delay between logon and the start, if set.
    pub fn delay(&self) -> (r: &Option<String>)
        ensures
            *r == self.spec_delay(),
    {
        &self.delay
    }

    /// The user the trigger fires for, if set.
    pub fn user_id(&self) -> (r: &Option<String>)
        ensures
            *r == self.spec_user_id(),
    {
        &self.user_id
    }
}

} // verus!
