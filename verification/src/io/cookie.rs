use vstd::prelude::*;

verus! {

/// A cookie instruction carried on a finalized response: the transport layer
/// sets a cookie of this name to this value. An empty value with no path is
/// how a stored credential is cleared.
#[derive(Clone, Debug, PartialEq, Eq)]
pub struct Cookie {
    pub name: String,
    pub value: String,
    pub path: Option<String>,
}

impl Cookie {
    pub fn new(name: &str, value: &str) -> (c: Cookie)
        ensures
            c.name@ == name@,
            c.value@ == value@,
            c.path is None,
    {
        Cookie { name: name.to_owned(), value: value.to_owned(), path: None }
    }

    /// Restricts the cookie to a path, as a builder step.
    pub fn path(self, path: &str) -> (c: Cookie)
        ensures
            c.name@ == self.name@,
            c.value@ == self.value@,
            c.path matches Some(p) && p@ == path@,
    {
        Cookie { path: Some(path.to_owned()), ..self }
    }
}

} // verus!
