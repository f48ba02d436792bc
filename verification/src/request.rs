//! The request parser: from the raw process argument list to a structured
//! request, with every absent element turned into an explicit usage error
//! instead of an unchecked access.

use vstd::prelude::*;

verus! {

/// A malformed command line, as opposed to a filesystem-level failure.
#[derive(Clone, Copy, Debug, PartialEq, Eq, Structural)]
pub enum UsageError {
    /// No flag was supplied after the program name.
    MissingFlag,
    /// The rename flag was supplied without both a source and a destination path.
    MissingPaths,
    /// The flag matches no known action.
    UnknownFlag,
}

/// A structured request: the selecting flag and, when the invocation carries
/// them, the source and destination paths of a rename.
///
/// Invariant by construction: either both paths are present (a four-element
/// invocation) or neither is (an informational query).
pub struct Request {
    pub flag: String,
    pub source: Option<String>,
    pub destination: Option<String>,
}

/// Recovers the fields of a request from the raw argument list, where element
/// 0 is the program name and is ignored.
///
/// With exactly 4 elements, element 1 is the flag, element 2 the source path
/// and element 3 the destination path. With any other count of at least 2,
/// only the flag is taken: the invocation is assumed to be an informational
/// query. With fewer than 2 elements there is no flag at all, a usage error.
pub fn parse_request(args: Vec<String>) -> (r: Result<Request, UsageError>)
    ensures
        args@.len() < 2 ==> (r matches Err(e) && e == UsageError::MissingFlag),
        args@.len() >= 2 ==> (r matches Ok(req) && {
            &&& req.flag@ == args@[1]@
            &&& if args@.len() == 4 {
                &&& req.source matches Some(s) && s@ == args@[2]@
                &&& req.destination matches Some(d) && d@ == args@[3]@
            } else {
                &&& req.source is None
                &&& req.destination is None
            }
        }),
{
    if args.len() == 4 {
        Ok(Request {
            flag: args[1].clone(),
            source: Some(args[2].clone()),
            destination: Some(args[3].clone()),
        })
    } else if args.len() >= 2 {
        Ok(Request { flag: args[1].clone(), source: None, destination: None })
    } else {
        Err(UsageError::MissingFlag)
    }
}

} // verus!
