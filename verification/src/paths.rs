//! Where the prompt database lives: a directory chosen from the
//! environment, and the database file in it.

use vstd::prelude::*;
use crate::text::views;

verus! {

/// The variable that names the data directory outright.
pub const DATA_DIR_VAR: &'static str = "PINPOINT_DATA_DIR";

/// The XDG variable for the user's data directory.
pub const XDG_DATA_HOME_VAR: &'static str = "XDG_DATA_HOME";

/// The directory used in place of a home directory that cannot be found.
pub const HOME_FALLBACK: &'static str = ".";

/// The database file inside the data directory.
pub const DB_FILE_NAME: &'static str = "pinpoint.db";

/// The directory that the data directory is built on.
#[derive(Debug, Clone, Copy, PartialEq, Eq, Structural)]
pub enum DataDirBase {
    /// The value of `PINPOINT_DATA_DIR`.
    PinpointDataDir,
    /// The value of `XDG_DATA_HOME`.
    XdgDataHome,
    /// The home directory, or `HOME_FALLBACK` when there is none.
    Home,
}

/// The data directory: a base directory and the components added to it.
#[derive(Debug, Clone, PartialEq, Eq)]
pub struct DataDirPlan {
    pub base: DataDirBase,
    pub subdirs: Vec<String>,
}

/// The data directory, given which of the two variables are set:
/// `PINPOINT_DATA_DIR` itself, else `$XDG_DATA_HOME/pinpoint`, else
/// `~/.local/share/pinpoint`.
pub open spec fn data_dir_of(pinpoint_set: bool, xdg_set: bool) -> (DataDirBase, Seq<Seq<char>>) {
    if pinpoint_set {
        (DataDirBase::PinpointDataDir, Seq::empty())
    } else if xdg_set {
        (DataDirBase::XdgDataHome, seq!["pinpoint"@])
    } else {
        (DataDirBase::Home, seq![".local"@, "share"@, "pinpoint"@])
    }
}

/// Chooses the data directory from which of `PINPOINT_DATA_DIR` and
/// `XDG_DATA_HOME` are set.
pub fn data_dir_plan(pinpoint_set: bool, xdg_set: bool) -> (plan: DataDirPlan)
    ensures
        (plan.base, views(plan.subdirs@)) == data_dir_of(pinpoint_set, xdg_set),
{
    let mut subdirs: Vec<String> = Vec::new();
    if pinpoint_set {
        assert(views(subdirs@) =~= Seq::empty());
        DataDirPlan { base: DataDirBase::PinpointDataDir, subdirs }
    } else if xdg_set {
        subdirs.push(String::from_str("pinpoint"));
        assert(views(subdirs@) =~= seq!["pinpoint"@]);
        DataDirPlan { base: DataDirBase::XdgDataHome, subdirs }
    } else {
        subdirs.push(String::from_str(".local"));
        subdirs.push(String::from_str("share"));
        subdirs.push(String::from_str("pinpoint"));
        assert(views(subdirs@) =~= seq![".local"@, "share"@, "pinpoint"@]);
        DataDirPlan { base: DataDirBase::Home, subdirs }
    }
}

} // verus!
