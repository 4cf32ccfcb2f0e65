use vstd::prelude::*;

verus! {

/// Why a run did not produce output.
#[derive(Clone, Debug, PartialEq, Eq)]
pub enum SniprunError {
    /// No registered backend answers to the resolved name.
    NoInterpreterFound,
    /// The build step's tool exited with a failure; carries its diagnostics.
    CompilationError(String),
    /// The executed artifact exited with a failure; carries its standard error.
    RuntimeError(String),
    /// A captured stream was not valid UTF-8 text.
    OutputDecodeError(String),
    /// Creating the working directory or writing the source file failed.
    FileSystemError(String),
}

/// The mathematical model of an error: its kind and the text it carries.
pub ghost enum Failure {
    NoInterpreterFound,
    CompilationError(Seq<char>),
    RuntimeError(Seq<char>),
    OutputDecodeError(Seq<char>),
    FileSystemError(Seq<char>),
}

impl View for SniprunError {
    type V = Failure;

    open spec fn view(&self) -> Failure {
        match self {
            SniprunError::NoInterpreterFound => Failure::NoInterpreterFound,
            SniprunError::CompilationError(m) => Failure::CompilationError(m@),
            SniprunError::RuntimeError(m) => Failure::RuntimeError(m@),
            SniprunError::OutputDecodeError(m) => Failure::OutputDecodeError(m@),
            SniprunError::FileSystemError(m) => Failure::FileSystemError(m@),
        }
    }
}

/// The model of a run's result: captured text, or a failure.
pub open spec fn outcome_view(r: Result<String, SniprunError>) -> Result<Seq<char>, Failure> {
    match r {
        Ok(s) => Ok(s@),
        Err(e) => Err(e@),
    }
}

impl SniprunError {
    /// The diagnostic text that the error carries; empty where it carries none.
    pub fn message(&self) -> (r: String)
        ensures
            match self@ {
                Failure::NoInterpreterFound => r@ == Seq::<char>::empty(),
                Failure::CompilationError(m) => r@ == m,
                Failure::RuntimeError(m) => r@ == m,
                Failure::OutputDecodeError(m) => r@ == m,
                Failure::FileSystemError(m) => r@ == m,
            },
    {
        match self {
            SniprunError::NoInterpreterFound => String::new(),
            SniprunError::CompilationError(m) => m.clone(),
            SniprunError::RuntimeError(m) => m.clone(),
            SniprunError::OutputDecodeError(m) => m.clone(),
            SniprunError::FileSystemError(m) => m.clone(),
        }
    }
}

} // verus!
