//! The executable that supervises local process groups, configured once.

use std::path::PathBuf;

use vstd::prelude::*;

verus! {

/// A path of the file system.
#[verifier::external_type_specification]
#[verifier::external_body]
pub struct ExPathBuf(PathBuf);

/// Cloning a `std::path::PathBuf` gives the same path.
pub assume_specification[ <PathBuf as Clone>::clone ](path: &PathBuf) -> (copy: PathBuf)
    ensures
        copy == *path,
;

/// The place where the path of the supervisor executable is kept.
pub struct McpProcessSupervisorExe {
    pub path: Option<PathBuf>,
}

impl McpProcessSupervisorExe {
    /// The place after a path was handed in: the first path stays.
    pub open spec fn configured(self, path: PathBuf) -> Self {
        McpProcessSupervisorExe {
            path: match self.path {
                None => Some(path),
                Some(first) => Some(first),
            },
        }
    }

    /// The place after several paths were handed in, one after the other.
    pub open spec fn configured_all(self, paths: Seq<PathBuf>) -> Self
        decreases paths.len(),
    {
        if paths.len() == 0 {
            self
        } else {
            self.configured_all(paths.drop_last()).configured(paths.last())
        }
    }

    /// A place that holds no path yet.
    pub fn new() -> (exe: Self)
        ensures
            exe.path is None,
    {
        McpProcessSupervisorExe { path: None }
    }
}

/// Configures the supervisor executable, unless it is configured already.
pub fn configure_mcp_process_supervisor_exe(exe: &mut McpProcessSupervisorExe, path: PathBuf)
    ensures
        *final(exe) == old(exe).configured(path),
        old(exe).path is None ==> final(exe).path == Some(path),
        old(exe).path is Some ==> final(exe).path == old(exe).path,
{
    if exe.path.is_none() {
        exe.path = Some(path);
    }
}

/// The configured supervisor executable.
pub fn configured_mcp_process_supervisor_exe(exe: &McpProcessSupervisorExe) -> (path: Option<
    PathBuf,
>)
    ensures
        path == exe.path,
{
    match &exe.path {
        Some(path) => Some(path.clone()),
        None => None,
    }
}

/// The executable is configured once: of the paths handed in, the first stays.
pub proof fn law_first_configuration_stays(
    exe: McpProcessSupervisorExe,
    paths: Seq<PathBuf>,
)
    requires
        exe.path is None,
        paths.len() > 0,
    ensures
        exe.configured_all(paths).path == Some(paths[0]),
    decreases paths.len(),
{
    if paths.len() > 1 {
        law_first_configuration_stays(exe, paths.drop_last());
    } else {
        assert(paths.drop_last().len() == 0);
        assert(exe.configured_all(paths.drop_last()) == exe);
    }
}

/// An executable that is configured stays as it is, whatever is handed in.
pub proof fn law_configuration_is_final(exe: McpProcessSupervisorExe, paths: Seq<PathBuf>)
    requires
        exe.path is Some,
    ensures
        exe.configured_all(paths) == exe,
    decreases paths.len(),
{
    if paths.len() > 0 {
        law_configuration_is_final(exe, paths.drop_last());
    }
}

} // verus!
