//! Failure kinds surfaced by the manager.

use vstd::prelude::*;

verus! {

/// An operation failure: an external-process or I/O failure carried as its
/// captured message, a malformed manifest document, a bare message, or an
/// inner failure wrapped with a human-readable operation description.
#[derive(Debug)]
pub enum Error {
    Context(String, Box<Error>),
    Custom(String),
    Json(String),
    Io(String),
}

impl Error {
    /// Wrap an inner failure with a description of the operation that failed.
    pub fn context(ctx: String, error: Error) -> (r: Error)
        ensures
            r matches Error::Context(c, e) && c == ctx && *e == error,
    {
        Error::Context(ctx, Box::new(error))
    }

    /// A failure that carries only a message.
    pub fn custom(message: String) -> (r: Error)
        ensures
            r == Error::Custom(message),
    {
        Error::Custom(message)
    }

    /// Human-readable rendering; context frames precede the failure they wrap.
    pub fn message(&self) -> String
        decreases *self,
    {
        match self {
            Error::Context(ctx, inner) => {
                let mut r = ctx.clone();
                r.append(": ");
                r.append(inner.message().as_str());
                r
            },
            Error::Custom(m) => m.clone(),
            Error::Json(m) => m.clone(),
            Error::Io(m) => m.clone(),
        }
    }
}

} // verus!
