use vstd::prelude::*;

verus! {

/// The error kinds every operation of the library can surface.
///
/// Each variant carries a human-readable message; the variant itself is the
/// machine-distinguishable kind that the transport layer maps to a status.
#[derive(Debug)]
pub enum AppError {
    DatabaseError(String),
    NotFound(String),
    Validation(String),
    InternalServerError(String),
}

impl AppError {
    /// The message carried by the error, whatever its kind.
    pub open spec fn spec_message(&self) -> Seq<char> {
        match self {
            AppError::DatabaseError(m) => m@,
            AppError::NotFound(m) => m@,
            AppError::Validation(m) => m@,
            AppError::InternalServerError(m) => m@,
        }
    }

    /// Returns the message carried by the error.
    pub fn message(&self) -> (m: &String)
        ensures
            m@ == self.spec_message(),
    {
        match self {
            AppError::DatabaseError(m) => m,
            AppError::NotFound(m) => m,
            AppError::Validation(m) => m,
            AppError::InternalServerError(m) => m,
        }
    }

    /// The HTTP-equivalent status of each kind: absent entities map to 404,
    /// rejected input to 400, and everything else to 500.
    pub open spec fn spec_status_code(&self) -> u16 {
        match self {
            AppError::DatabaseError(_) => 500,
            AppError::NotFound(_) => 404,
            AppError::Validation(_) => 400,
            AppError::InternalServerError(_) => 500,
        }
    }

    /// Returns the HTTP-equivalent status code of the error kind.
    pub fn status_code(&self) -> (c: u16)
        ensures
            c == self.spec_status_code(),
    {
        match self {
            AppError::DatabaseError(_) => 500,
            AppError::NotFound(_) => 404,
            AppError::Validation(_) => 400,
            AppError::InternalServerError(_) => 500,
        }
    }

    pub fn is_not_found(&self) -> (r: bool)
        ensures
            r == (self is NotFound),
    {
        match self {
            AppError::NotFound(_) => true,
            _ => false,
        }
    }

    pub fn is_validation(&self) -> (r: bool)
        ensures
            r == (self is Validation),
    {
        match self {
            AppError::Validation(_) => true,
            _ => false,
        }
    }

    pub fn is_database_error(&self) -> (r: bool)
        ensures
            r == (self is DatabaseError),
    {
        match self {
            AppError::DatabaseError(_) => true,
            _ => false,
        }
    }

    pub fn is_internal_server_error(&self) -> (r: bool)
        ensures
            r == (self is InternalServerError),
    {
        match self {
            AppError::InternalServerError(_) => true,
            _ => false,
        }
    }
}

/// The message of the rejection of a sparse update that carries no field.
pub open spec fn no_fields_msg() -> Seq<char> {
    "No fields provided for update"@
}

/// The rejection of a sparse update that carries no field.
pub fn no_fields_error() -> (e: AppError)
    ensures
        e is Validation,
        e.spec_message() == no_fields_msg(),
{
    AppError::Validation("No fields provided for update".to_owned())
}

/// The message of the rejection of a request with out-of-range fields.
pub open spec fn invalid_fields_msg() -> Seq<char> {
    "Invalid field values in request"@
}

/// The rejection of a request whose fields fail the per-field constraints.
pub fn invalid_fields_error() -> (e: AppError)
    ensures
        e is Validation,
        e.spec_message() == invalid_fields_msg(),
{
    AppError::Validation("Invalid field values in request".to_owned())
}

/// The message of the failure to assign one more row identifier.
pub open spec fn ids_exhausted_msg() -> Seq<char> {
    "Row identifier space exhausted"@
}

/// The failure reported when no further row identifier can be assigned.
pub fn ids_exhausted_error() -> (e: AppError)
    ensures
        e is InternalServerError,
        e.spec_message() == ids_exhausted_msg(),
{
    AppError::InternalServerError("Row identifier space exhausted".to_owned())
}

} // verus!
