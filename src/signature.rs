//! Method signatures as the service publishes them, and the outcome of fetching one.
use vstd::prelude::*;
use vstd::string::*;

verus! {

/// One declared argument of a method: its name and the service's type tag for it.
pub struct Argument {
    pub name: String,
    pub type_tag: String,
}

/// A method's name, return type and ordered arguments. Argument order defines the
/// positional mapping of a call.
pub struct MethodSignature {
    pub method_name: String,
    pub return_type: String,
    pub arguments: Vec<Argument>,
}

/// The names of a sequence of arguments, in order.
pub open spec fn arg_names(args: Seq<Argument>) -> Seq<Seq<char>> {
    args.map_values(|a: Argument| a.name@)
}

impl MethodSignature {
    /// The signature's argument names, in declaration order.
    pub open spec fn names(&self) -> Seq<Seq<char>> {
        arg_names(self.arguments@)
    }

    /// The argument names, in declaration order.
    pub fn argument_names(&self) -> (r: Vec<String>)
        ensures
            r@.len() == self.arguments@.len(),
            forall|i: int| 0 <= i < r@.len() ==> #[trigger] r@[i]@ == self.names()[i],
    {
        let mut r: Vec<String> = Vec::new();
        let mut i: usize = 0;
        while i < self.arguments.len()
            invariant
                i <= self.arguments@.len(),
                r@.len() == i,
                forall|k: int| 0 <= k < i ==> #[trigger] r@[k]@ == self.names()[k],
            decreases self.arguments.len() - i,
        {
            r.push(self.arguments[i].name.clone());
            i = i + 1;
        }
        r
    }
}

/// Why a method's signature could not be had.
pub enum FetchError {
    /// The service has no metadata for this method name.
    Unknown(String),
    /// The metadata call itself failed; the text describes the failure.
    Transport(String),
}

impl FetchError {
    /// The line reported to the user for this error.
    pub fn message(&self) -> (r: String)
        ensures
            r@ == fetch_error_text(*self),
    {
        match self {
            FetchError::Unknown(m) => {
                let mut s = String::from_str("No information available for method: ");
                s.append(m.as_str());
                s
            },
            FetchError::Transport(e) => {
                let mut s = String::from_str("Could not fetch method info: ");
                s.append(e.as_str());
                s
            },
        }
    }
}

pub open spec fn fetch_error_text(e: FetchError) -> Seq<char> {
    match e {
        FetchError::Unknown(m) => "No information available for method: "@ + m@,
        FetchError::Transport(t) => "Could not fetch method info: "@ + t@,
    }
}

/// Turns the service's reply to a metadata request for `method` into a signature or an
/// error: no metadata means the method is unknown, a failed call is a transport error.
pub fn fetch_outcome(method: &str, reply: Result<Option<MethodSignature>, String>) -> (r: Result<
    MethodSignature,
    FetchError,
>)
    ensures
        reply matches Ok(Some(sig)) ==> r == Ok::<MethodSignature, FetchError>(sig),
        reply matches Ok(None) ==> r matches Err(FetchError::Unknown(m)) && m@ == method@,
        reply matches Err(e) ==> r matches Err(FetchError::Transport(t)) && t@ == e@,
{
    match reply {
        Ok(Some(sig)) => Ok(sig),
        Ok(None) => Err(FetchError::Unknown(method.to_string())),
        Err(e) => Err(FetchError::Transport(e)),
    }
}

} // verus!
