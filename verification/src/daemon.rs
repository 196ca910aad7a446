//! Detaching from the terminal: whether to, and with what settings.

use crate::config::Config;
use vstd::prelude::*;
use vstd::string::*;

verus! {

/// The directory that a detached proxy works in, and that holds its PID file.
pub const WORKING_DIRECTORY: &'static str = "/tmp";

/// The file mode mask of a detached proxy.
pub const UMASK: u32 = 0o777;

/// How the proxy detaches.
#[derive(Debug)]
pub struct DaemonPlan {
    pub pid_file: String,
    pub working_directory: String,
    pub umask: u32,
}

/// The path of the PID file of a proxy that listens on `listen`.
pub open spec fn pid_file_of(listen: Seq<char>) -> Seq<char> {
    "/tmp/http-proxy@"@ + listen + ".pid"@
}

/// Says whether the proxy is to detach and, if so, how: with a PID file
/// named after the listen address, in [`WORKING_DIRECTORY`], under [`UMASK`].
pub fn daemonize(config: &Config) -> (plan: Option<DaemonPlan>)
    ensures
        plan is Some == config@.daemon,
        plan matches Some(p) ==> p.pid_file@ == pid_file_of(config@.listen) && p.working_directory@
            == WORKING_DIRECTORY@ && p.umask == UMASK,
{
    if !config.daemon {
        return None;
    }
    let mut pid_file = String::from_str("/tmp/http-proxy@");
    pid_file.append(config.listen.as_str());
    pid_file.append(".pid");
    Some(DaemonPlan { pid_file, working_directory: String::from_str(WORKING_DIRECTORY), umask: UMASK })
}

} // verus!
