//! What can go wrong on the operator's own account.

use vstd::prelude::*;

verus! {

/// Why an instance could not be reconciled.
#[derive(Debug, Clone, Copy, PartialEq, Eq, Structural)]
pub enum Error {
    /// Not exactly one kind of database is given.
    InvalidDatabase,
    /// Not exactly one kind of broker is given.
    InvalidRabbit,
    /// The URL of the instance is not known before its route has a host.
    WaitingForRoute,
    /// An object and its owner are in different namespaces.
    NamespaceMismatch,
    /// An object without a namespace was to get an owner that has one.
    ClusterScoped,
    /// An owner has no name.
    MissingName,
    /// An owner has no UID.
    MissingUid,
    /// An object is controlled by something else.
    AlreadyControlled,
}

/// What came of an attempt, as contracts see it.
pub open spec fn outcome<T: DeepView>(r: Result<T, Error>) -> Result<T::V, Error> {
    match r {
        Ok(value) => Ok(value.deep_view()),
        Err(e) => Err(e),
    }
}

impl Error {
    /// The message of the error.
    pub open spec fn text(self) -> Seq<char> {
        match self {
            Error::InvalidDatabase => "Invalid database configuration"@,
            Error::InvalidRabbit => "Invalid Rabbit configuration"@,
            Error::WaitingForRoute => "Waiting for hawkbit route to be applied"@,
            Error::NamespaceMismatch => "If both objects are namespaced, they must belong to the same namespace"@,
            Error::ClusterScoped => "Cluster scoped object must not have a namespaced owner"@,
            Error::MissingName => "Missing name"@,
            Error::MissingUid => "Missing UID"@,
            Error::AlreadyControlled => "Object already has a controller"@,
        }
    }

    /// The message of the error.
    pub fn message(self) -> (r: String)
        ensures
            r@ == self.text(),
    {
        match self {
            Error::InvalidDatabase => "Invalid database configuration".to_string(),
            Error::InvalidRabbit => "Invalid Rabbit configuration".to_string(),
            Error::WaitingForRoute => "Waiting for hawkbit route to be applied".to_string(),
            Error::NamespaceMismatch =>
                "If both objects are namespaced, they must belong to the same namespace".to_string(),
            Error::ClusterScoped => "Cluster scoped object must not have a namespaced owner".to_string(),
            Error::MissingName => "Missing name".to_string(),
            Error::MissingUid => "Missing UID".to_string(),
            Error::AlreadyControlled => "Object already has a controller".to_string(),
        }
    }
}

} // verus!
