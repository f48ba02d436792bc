//! The dispatcher: interprets a structured request and decides which single
//! terminal action the invocation performs.

use vstd::prelude::*;

use crate::asset::Asset;
use crate::flags::{classify_flag, flag_kind, FlagKind};
use crate::request::{Request, UsageError};

verus! {

/// The one terminal action of an invocation.
pub enum Action {
    /// Render the banner and the usage menu on standard output.
    ShowHelp,
    /// Render the author, license and version text on standard output.
    ShowInfo,
    /// Rename the asset to the new path.
    Rename { asset: Asset, new_path: String },
}

/// Maps a request to its action, keyed by the flag case-insensitively.
///
/// A recognized rename flag without both paths, and an unrecognized flag, are
/// usage errors; the caller reports them and shows the usage menu.
pub fn dispatch(req: Request) -> (r: Result<Action, UsageError>)
    ensures
        flag_kind(req.flag@) == FlagKind::Help ==> r matches Ok(Action::ShowHelp),
        flag_kind(req.flag@) == FlagKind::Info ==> r matches Ok(Action::ShowInfo),
        flag_kind(req.flag@) == FlagKind::Rename ==> if req.source is Some && req.destination is Some {
            r matches Ok(Action::Rename { asset, new_path })
                && asset@ == req.source->0@ && new_path@ == req.destination->0@
        } else {
            r matches Err(e) && e == UsageError::MissingPaths
        },
        flag_kind(req.flag@) == FlagKind::Unknown ==> (r matches Err(e) && e
            == UsageError::UnknownFlag),
{
    match classify_flag(req.flag.as_str()) {
        FlagKind::Help => Ok(Action::ShowHelp),
        FlagKind::Info => Ok(Action::ShowInfo),
        FlagKind::Rename => match (req.source, req.destination) {
            (Some(source), Some(destination)) => Ok(
                Action::Rename { asset: Asset::new(source), new_path: destination },
            ),
            _ => Err(UsageError::MissingPaths),
        },
        FlagKind::Unknown => Err(UsageError::UnknownFlag),
    }
}

} // verus!
