//! Errors of one reconcile pass: each carries the test it concerns and the operation that
//! failed, for the driving loop to log before it requeues.
use vstd::prelude::*;

verus! {

#[derive(Clone, Debug)]
pub enum Error {
    /// Writing the controller status failed.
    SetControllerStatus { test_name: String, source: String },
    /// Writing a finalizer addition failed.
    AddFinalizer { test_name: String, finalizer: String, source: String },
    /// Writing a finalizer removal failed.
    RemoveFinalizer { test_name: String, finalizer: String, source: String },
    /// Creating an agent job failed.
    CreateJob { test_name: String, job_name: String, source: String },
}

impl Error {
    pub fn set_controller_status(test_name: &str, source: String) -> (r: Error)
        ensures
            r matches Error::SetControllerStatus { test_name: t, source: s } && t@ == test_name@
                && s@ == source@,
    {
        Error::SetControllerStatus { test_name: test_name.to_owned(), source }
    }

    pub fn add_finalizer(test_name: &str, finalizer: &str, source: String) -> (r: Error)
        ensures
            r matches Error::AddFinalizer { test_name: t, finalizer: f, source: s } && t@
                == test_name@ && f@ == finalizer@ && s@ == source@,
    {
        Error::AddFinalizer {
            test_name: test_name.to_owned(),
            finalizer: finalizer.to_owned(),
            source,
        }
    }

    pub fn remove_finalizer(test_name: &str, finalizer: &str, source: String) -> (r: Error)
        ensures
            r matches Error::RemoveFinalizer { test_name: t, finalizer: f, source: s } && t@
                == test_name@ && f@ == finalizer@ && s@ == source@,
    {
        Error::RemoveFinalizer {
            test_name: test_name.to_owned(),
            finalizer: finalizer.to_owned(),
            source,
        }
    }

    pub fn create_job(test_name: &str, job_name: &str, source: String) -> (r: Error)
        ensures
            r matches Error::CreateJob { test_name: t, job_name: j, source: s } && t@
                == test_name@ && j@ == job_name@ && s@ == source@,
    {
        Error::CreateJob { test_name: test_name.to_owned(), job_name: job_name.to_owned(), source }
    }

    /// The test the failed operation concerned.
    pub fn test_name(&self) -> (r: &String)
        ensures
            match self {
                Error::SetControllerStatus { test_name, .. } => r == test_name,
                Error::AddFinalizer { test_name, .. } => r == test_name,
                Error::RemoveFinalizer { test_name, .. } => r == test_name,
                Error::CreateJob { test_name, .. } => r == test_name,
            },
    {
        match self {
            Error::SetControllerStatus { test_name, .. } => test_name,
            Error::AddFinalizer { test_name, .. } => test_name,
            Error::RemoveFinalizer { test_name, .. } => test_name,
            Error::CreateJob { test_name, .. } => test_name,
        }
    }
}

} // verus!
