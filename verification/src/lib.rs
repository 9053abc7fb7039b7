use vstd::prelude::*;

verus! {

/// Classification of a terminal failure, consumed once by the
/// termination handler to pick the process exit code.
pub enum CliError {
    /// Non-retryable failure during program logic.
    Processing(String),
    /// Transient failure; the caller may retry.
    Retryable(String),
    /// Any failure outside the known taxonomy, carried as an opaque value.
    Anyhow(anyhow::Error),
}

/// The exit code owed to each failure classification.
pub open spec fn exit_code_spec(e: CliError) -> u8 {
    match e {
        CliError::Processing(_) => 2u8,
        CliError::Retryable(_) => 100u8,
        CliError::Anyhow(_) => 1u8,
    }
}

#[verifier::external_type_specification]
#[verifier::external_body]
pub struct ExAnyhowError(anyhow::Error);

/// Relates a failure to its human-readable rendering. For the two named
/// classifications the rendering is pinned exactly; an opaque failure is
/// rendered by the crate that produced it, so nothing is claimed of it.
pub open spec fn renders(e: CliError, m: Seq<char>) -> bool {
    match e {
        CliError::Processing(s) => m == "Processing error: "@ + s@,
        CliError::Retryable(s) => m == "Retryable error: "@ + s@,
        CliError::Anyhow(_) => true,
    }
}

/// Relies on anyhow::Error's Display implementation: renders the
/// outermost message of the error it carries.
#[verifier::external_body]
fn render_anyhow(e: &anyhow::Error) -> String {
    format!("{}", e)
}

/// Relies on anyhow::Error::msg: builds an opaque error whose Display
/// rendering is the given message.
#[verifier::external_body]
fn opaque_from_message(m: String) -> anyhow::Error {
    anyhow::Error::msg(m)
}

impl CliError {
    /// The process exit code for this failure.
    pub fn exit_code(&self) -> (code: u8)
        ensures
            code == exit_code_spec(*self),
            self is Processing ==> code == 2,
            self is Retryable ==> code == 100,
            self is Anyhow ==> code == 1,
    {
        match self {
            CliError::Processing(_) => 2,
            CliError::Retryable(_) => 100,
            CliError::Anyhow(_) => 1,
        }
    }

    /// The human-readable rendering of this failure, printed to standard
    /// error by the termination handler.
    pub fn message(&self) -> (m: String)
        ensures
            renders(*self, m@),
    {
        match self {
            CliError::Processing(s) => String::from_str("Processing error: ").concat(s.as_str()),
            CliError::Retryable(s) => String::from_str("Retryable error: ").concat(s.as_str()),
            CliError::Anyhow(e) => render_anyhow(e),
        }
    }
}

impl From<CliError> for u8 {
    fn from(err: CliError) -> (code: u8) {
        err.exit_code()
    }
}

impl vstd::std_specs::convert::FromSpecImpl<CliError> for u8 {
    open spec fn obeys_from_spec() -> bool {
        true
    }

    open spec fn from_spec(err: CliError) -> u8 {
        exit_code_spec(err)
    }
}

impl From<anyhow::Error> for CliError {
    fn from(err: anyhow::Error) -> (e: CliError) {
        CliError::Anyhow(err)
    }
}

impl vstd::std_specs::convert::FromSpecImpl<anyhow::Error> for CliError {
    open spec fn obeys_from_spec() -> bool {
        true
    }

    open spec fn from_spec(err: anyhow::Error) -> CliError {
        CliError::Anyhow(err)
    }
}

/// The outcome of the fallible entry point: either a value, or a
/// classified failure bound for the termination handler.
pub enum CliResult<T> {
    Success(T),
    Failure(CliError),
}

impl<T> CliResult<T> {
    /// The process exit code owed to this outcome: 0 on success, else the
    /// code of the failure's classification.
    pub open spec fn exit_code_of(self) -> u8 {
        match self {
            CliResult::Success(_) => 0u8,
            CliResult::Failure(e) => exit_code_spec(e),
        }
    }

    /// Turns the outcome into what termination needs: the exit code, and
    /// the failure's rendering to print to standard error, if any. On
    /// success there is nothing to print.
    pub fn report(self) -> (r: (u8, Option<String>))
        ensures
            r.0 == self.exit_code_of(),
            self is Success ==> r.0 == 0 && r.1 is None,
            self matches CliResult::Failure(e) ==> r.1 matches Some(m) && renders(e, m@),
    {
        match self {
            CliResult::Success(_) => (0u8, None),
            CliResult::Failure(e) => {
                let m = e.message();
                (e.exit_code(), Some(m))
            },
        }
    }

    /// Converts the outcome into anyhow's result type, rendering a failure
    /// into an opaque error so that callers built on anyhow can consume it.
    pub fn into_anyhow_result(self) -> (r: Result<T, anyhow::Error>)
        ensures
            self matches CliResult::Success(v) ==> r matches Ok(w) && w == v,
            self is Failure ==> r is Err,
    {
        match self {
            CliResult::Success(v) => Ok(v),
            CliResult::Failure(e) => {
                let m = e.message();
                Err(opaque_from_message(m))
            },
        }
    }
}

} // verus!
