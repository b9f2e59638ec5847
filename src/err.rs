//! Error kinds of the components, resources and systems, and the error
//! manager that collects them between checks.
use vstd::prelude::*;

verus! {

/// Failures of a single component.
#[derive(Debug)]
pub enum ComponentError {
    NotFound(String),
    InitFailed(String),
    ValidationFailed(String),
    UpdateFailed(String),
    StateError(String),
    InvalidState(String),
}

/// Failures of a shared resource.
#[derive(Debug)]
pub enum ResourceError {
    NotFound(String),
    InitFailed(String),
    ValidationFailed(String),
    StateError(String),
    InvalidConfig(String),
    LoadFailed(String),
}

/// Failures of a system run.
#[derive(Debug)]
pub enum SystemError {
    InitFailed(String),
    ExecutionFailed(String),
    StateError(String),
}

/// Any error of the application.
#[derive(Debug)]
pub enum Error {
    Component(ComponentError),
    Resource(ResourceError),
    System(SystemError),
    Io(String),
    Custom(String),
}

impl Clone for ComponentError {
    fn clone(&self) -> (r: Self)
        ensures
            r == *self,
    {
        match self {
            ComponentError::NotFound(m) => ComponentError::NotFound(m.clone()),
            ComponentError::InitFailed(m) => ComponentError::InitFailed(m.clone()),
            ComponentError::ValidationFailed(m) => ComponentError::ValidationFailed(m.clone()),
            ComponentError::UpdateFailed(m) => ComponentError::UpdateFailed(m.clone()),
            ComponentError::StateError(m) => ComponentError::StateError(m.clone()),
            ComponentError::InvalidState(m) => ComponentError::InvalidState(m.clone()),
        }
    }
}

impl Clone for ResourceError {
    fn clone(&self) -> (r: Self)
        ensures
            r == *self,
    {
        match self {
            ResourceError::NotFound(m) => ResourceError::NotFound(m.clone()),
            ResourceError::InitFailed(m) => ResourceError::InitFailed(m.clone()),
            ResourceError::ValidationFailed(m) => ResourceError::ValidationFailed(m.clone()),
            ResourceError::StateError(m) => ResourceError::StateError(m.clone()),
            ResourceError::InvalidConfig(m) => ResourceError::InvalidConfig(m.clone()),
            ResourceError::LoadFailed(m) => ResourceError::LoadFailed(m.clone()),
        }
    }
}

impl Clone for SystemError {
    fn clone(&self) -> (r: Self)
        ensures
            r == *self,
    {
        match self {
            SystemError::InitFailed(m) => SystemError::InitFailed(m.clone()),
            SystemError::ExecutionFailed(m) => SystemError::ExecutionFailed(m.clone()),
            SystemError::StateError(m) => SystemError::StateError(m.clone()),
        }
    }
}

impl Clone for Error {
    fn clone(&self) -> (r: Self)
        ensures
            r == *self,
    {
        match self {
            Error::Component(e) => Error::Component(e.clone()),
            Error::Resource(e) => Error::Resource(e.clone()),
            Error::System(e) => Error::System(e.clone()),
            Error::Io(m) => Error::Io(m.clone()),
            Error::Custom(m) => Error::Custom(m.clone()),
        }
    }
}

impl Error {
    /// An error that carries only a message.
    pub fn custom(msg: &str) -> (r: Error)
        ensures
            r matches Error::Custom(m) && m@ == msg@,
    {
        Error::Custom(msg.to_owned())
    }
}

/// Collects the errors reported by the systems until they are checked and
/// cleared. The errors are kept in the order in which they were reported.
pub struct ErrorManager {
    errors: Vec<Error>,
}

impl View for ErrorManager {
    type V = Seq<Error>;

    closed spec fn view(&self) -> Seq<Error> {
        self.errors@
    }
}

impl Default for ErrorManager {
    fn default() -> (r: Self)
        ensures
            r@ == Seq::<Error>::empty(),
    {
        ErrorManager { errors: Vec::new() }
    }
}

impl ErrorManager {
    /// Records `error` after those reported before it.
    pub fn report_error(&mut self, error: Error)
        ensures
            final(self)@ == old(self)@.push(error),
    {
        self.errors.push(error);
    }

    /// Records `error`; the recovery taken is only informative and changes
    /// nothing that is kept.
    pub fn report_with_recovery(&mut self, error: Error, recovery_msg: &str)
        ensures
            final(self)@ == old(self)@.push(error),
    {
        self.report_error(error);
    }

    /// Whether any error has been reported since the last `clear`.
    pub fn has_errors(&self) -> (r: bool)
        ensures
            r == (self@.len() > 0),
    {
        self.errors.len() > 0
    }

    /// Forgets every error reported so far.
    pub fn clear(&mut self)
        ensures
            final(self)@ == Seq::<Error>::empty(),
    {
        self.errors.clear();
    }

    /// A copy of every error reported so far, oldest first.
    pub fn get_errors(&self) -> (r: Vec<Error>)
        ensures
            r@ == self@,
    {
        let r = self.errors.clone();
        assert(r@ =~= self.errors@);
        r
    }
}

/// Hands a result on as an option, reporting its error to `manager`.
pub trait ErrorExt<T>: Sized {
    fn log_to_manager(self, manager: &mut ErrorManager) -> (r: Option<T>);
}

impl<T> ErrorExt<T> for Result<T, Error> {
    fn log_to_manager(self, manager: &mut ErrorManager) -> (r: Option<T>)
        ensures
            match self {
                Ok(v) => r == Some(v) && final(manager)@ == old(manager)@,
                Err(e) => r is None && final(manager)@ == old(manager)@.push(e),
            },
    {
        match self {
            Ok(value) => Some(value),
            Err(error) => {
                manager.report_error(error);
                None
            },
        }
    }
}

} // verus!
