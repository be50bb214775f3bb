//! The version that the system's settings show for the installed suite: where
//! it is kept, and what a failure to write it means.

use crate::error::{OpError, OpErrorView};
use vstd::prelude::*;
use vstd::string::*;

verus! {

/// The key of the installer's entry, below the key of the user.
pub const UNINSTALL_KEY: &'static str =
    "\\SOFTWARE\\Microsoft\\Windows\\CurrentVersion\\Uninstall\\{470BC918-3740-4A97-9797-8570A7961130}_is1";

/// The name of the value that holds the version shown.
pub const DISPLAY_VERSION: &'static str = "DisplayVersion";

/// The key of the installer's entry for the user with the given security
/// identifier, below the key of all users.
pub fn installer_key_path(sid: &str) -> (path: String)
    ensures
        path@ == sid@ + UNINSTALL_KEY@,
{
    let mut path = String::from_str(sid);
    path.append(UNINSTALL_KEY);
    path
}

/// A step of writing the version.
#[derive(Clone, Copy, PartialEq, Eq, Debug, Structural)]
pub enum RegistryStep {
    /// Find the security identifier of the user.
    LookupAccount,
    /// Open the key of the installer's entry for writing.
    OpenKey,
    /// Write the version.
    SetValue,
}

impl RegistryStep {
    /// What the error of a failed step begins with.
    pub open spec fn message(self) -> Seq<char> {
        match self {
            RegistryStep::LookupAccount => "could not get user sid: "@,
            RegistryStep::OpenKey =>
                "inno installer key not detected, assuming portable adm installation: "@,
            RegistryStep::SetValue => "could not update installer version string: "@,
        }
    }

    /// Whether a failure of the step is severe. A key that cannot be opened
    /// is not: a portable installation has none.
    pub open spec fn severe(self) -> bool {
        self != RegistryStep::OpenKey
    }

    /// The error of the step when it has failed with the given description.
    pub fn failure(self, detail: &str) -> (e: OpError)
        ensures
            e@ == (OpErrorView { message: self.message() + detail@, severe: self.severe() }),
    {
        let (start, severe) = match self {
            RegistryStep::LookupAccount => ("could not get user sid: ", true),
            RegistryStep::OpenKey => (
                "inno installer key not detected, assuming portable adm installation: ",
                false,
            ),
            RegistryStep::SetValue => ("could not update installer version string: ", true),
        };
        let mut message = String::from_str(start);
        message.append(detail);
        OpError { message, severe }
    }
}

} // verus!
