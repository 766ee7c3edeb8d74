use vstd::prelude::*;

verus! {

/// Relies on `errno::errno`: the calling thread's last OS error code.
#[verifier::external_body]
fn last_errno() -> i32 {
    errno::errno().0
}

/// Relies on errno's `Display` for `Errno`: the platform's description of `code`.
#[verifier::external_body]
fn errno_description(code: i32) -> String {
    format!("{}", errno::Errno(code))
}

/// The last OS error of the calling thread, as the platform describes it.
#[derive(Debug)]
pub struct ErrnoError(String);

impl ErrnoError {
    /// What the error says.
    pub closed spec fn message(&self) -> Seq<char> {
        self.0@
    }

    pub fn new() -> ErrnoError {
        let code = last_errno();
        ErrnoError(errno_description(code))
    }

    pub fn description(&self) -> (r: &str)
        ensures
            r@ == self.message(),
    {
        self.0.as_str()
    }
}

/// A failed platform call, described in words.
#[derive(Debug)]
pub struct Error {
    description: String,
}

impl Error {
    /// What the error says.
    pub closed spec fn message(&self) -> Seq<char> {
        self.description@
    }

    pub fn new(description: String) -> (r: Error)
        ensures
            r.message() == description@,
    {
        Error { description }
    }

    pub fn from_errno() -> (r: Error) {
        let e = ErrnoError::new();
        Self::new(e.0)
    }

    pub fn description(&self) -> (r: &str)
        ensures
            r@ == self.message(),
    {
        self.description.as_str()
    }
}

} // verus!
