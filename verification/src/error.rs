use vstd::prelude::*;

verus! {

/// The closed set of resolution outcomes that are not a path. `InvalidArg`
/// and `Other` carry the platform's last-error detail as its raw code;
/// `Other` also keeps the unrecognized status code itself.
#[derive(Clone, Copy, PartialEq, Eq, Structural, Debug)]
pub enum Error {
    Virtual,
    NotFound,
    InvalidArg(u32),
    Other(u32, u32),
}

impl Error {
    /// A short human-readable summary of the error kind.
    pub fn describe(&self) -> (s: String)
        ensures
            self is Virtual ==> s@ == "virtual folders have no path"@,
            self is NotFound ==> s@ == "not found"@,
            self is InvalidArg ==> s@ == "invalid arg"@,
            self is Other ==> s@ == "other"@,
    {
        match self {
            Error::Virtual => String::from_str("virtual folders have no path"),
            Error::NotFound => String::from_str("not found"),
            Error::InvalidArg(_) => String::from_str("invalid arg"),
            Error::Other(_, _) => String::from_str("other"),
        }
    }
}

} // verus!
