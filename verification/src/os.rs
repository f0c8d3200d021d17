//! Network namespaces as the operating system names them.
//!
//! A namespace is held through an open file descriptor and reached by
//! others through the path of that descriptor under `/proc`. This module
//! knows the names and the rules; the caller makes the system calls.

use crate::text::{decimal, decimal_string, signed_decimal, signed_decimal_string};
use crate::trusted::{einval, eperm};
use vstd::prelude::*;
use vstd::string::StringExecFns;

verus! {

/// The path under which the descriptor `fd` of the process `pid` can be
/// opened by anyone who may: `/proc/PID/fd/FD`.
pub open spec fn ns_path_text(pid: u32, fd: i32) -> Seq<char> {
    "/proc/"@ + decimal(pid as nat) + "/fd/"@ + signed_decimal(fd as int)
}

/// The line that maps the single id `id` to root in a user namespace:
/// `0 ID 1`.
pub open spec fn id_map_text(id: u32) -> Seq<char> {
    "0 "@ + decimal(id as nat) + " 1"@
}

/// What a handle on a network namespace consists of: the process and the
/// number of the descriptor that holds the namespace open, and the path that
/// leads to it. The path is good for as long as the descriptor is open.
#[derive(Debug)]
pub struct OsNs {
    pid: u32,
    fd: i32,
    fd_path: String,
}

/// A file to write and what to write into it.
#[derive(Debug)]
pub struct FileWrite {
    pub path: String,
    pub content: String,
}

/// What a list of writes says: each path with its content.
pub open spec fn writes_view(writes: Seq<FileWrite>) -> Seq<(Seq<char>, Seq<char>)> {
    Seq::new(writes.len(), |i: int| (writes[i].path@, writes[i].content@))
}

/// What a freshly unshared user namespace needs written, in this order,
/// for the user `uid` with group `gid` to be root in it: group changes are
/// shut off, then the user and the group are each mapped to id 0.
pub open spec fn new_user_writes(uid: u32, gid: u32) -> Seq<(Seq<char>, Seq<char>)> {
    seq![
        ("/proc/self/setgroups"@, "deny"@),
        ("/proc/self/uid_map"@, id_map_text(uid)),
        ("/proc/self/gid_map"@, id_map_text(gid)),
    ]
}

/// Whether a system call that answers 0 or -1 failed. Such a call gives no
/// other answer.
pub fn syscall_failed(res: i32) -> (failed: bool)
    requires
        res == 0 || res == -1,
    ensures
        failed == (res == -1),
{
    res == -1
}

/// The line that maps the single id `id` to root.
pub fn id_map_line(id: u32) -> (line: String)
    ensures
        line@ == id_map_text(id),
{
    let mut line = String::from_str("0 ");
    let digits = decimal_string(id as u64);
    line.append(digits.as_str());
    line.append(" 1");
    line
}

impl OsNs {
    /// The process that holds the namespace open.
    pub closed spec fn spec_pid(&self) -> u32 {
        self.pid
    }

    /// The number of the descriptor that holds the namespace open.
    pub closed spec fn spec_fd(&self) -> i32 {
        self.fd
    }

    /// The path that leads to the namespace.
    pub closed spec fn spec_path(&self) -> Seq<char> {
        self.fd_path@
    }

    /// The path is always that of the descriptor.
    #[verifier::type_invariant]
    pub closed spec fn wf(&self) -> bool {
        self.fd_path@ == ns_path_text(self.pid, self.fd)
    }

    /// The path at which a thread finds the network namespace it is in.
    pub fn current_path() -> (path: &'static str)
        ensures
            path@ == "/proc/thread-self/ns/net"@,
    {
        "/proc/thread-self/ns/net"
    }

    /// The writes that follow a successful unshare of the user namespace by
    /// the user `uid` with group `gid`.
    pub fn enter_new_user(uid: u32, gid: u32) -> (writes: Vec<FileWrite>)
        ensures
            writes_view(writes@) == new_user_writes(uid, gid),
    {
        let mut writes: Vec<FileWrite> = Vec::new();
        writes.push(
            FileWrite { path: "/proc/self/setgroups".to_owned(), content: "deny".to_owned() },
        );
        writes.push(
            FileWrite { path: "/proc/self/uid_map".to_owned(), content: id_map_line(uid) },
        );
        writes.push(
            FileWrite { path: "/proc/self/gid_map".to_owned(), content: id_map_line(gid) },
        );
        writes
    }

    /// The handle on the namespace that the process `pid` holds open as
    /// descriptor `fd`.
    pub fn new_net(pid: u32, fd: i32) -> (ns: OsNs)
        ensures
            ns.spec_pid() == pid,
            ns.spec_fd() == fd,
            ns.spec_path() == ns_path_text(pid, fd),
    {
        let mut fd_path = String::from_str("/proc/");
        let pid_digits = decimal_string(pid as u64);
        fd_path.append(pid_digits.as_str());
        fd_path.append("/fd/");
        let fd_digits = signed_decimal_string(fd as i64);
        fd_path.append(fd_digits.as_str());
        OsNs { pid, fd, fd_path }
    }

    /// The process that holds the namespace open.
    #[verifier::when_used_as_spec(spec_pid)]
    pub fn pid(&self) -> (pid: u32)
        ensures
            pid == self.spec_pid(),
    {
        self.pid
    }

    /// The number of the descriptor that holds the namespace open.
    #[verifier::when_used_as_spec(spec_fd)]
    pub fn fd(&self) -> (fd: i32)
        ensures
            fd == self.spec_fd(),
    {
        self.fd
    }

    /// The path that leads to the namespace.
    pub fn path(&self) -> (path: &str)
        ensures
            path@ == self.spec_path(),
            path@ == ns_path_text(self.spec_pid(), self.spec_fd()),
    {
        proof {
            use_type_invariant(self);
        }
        self.fd_path.as_str()
    }
}

/// What to do about privileges before the first namespace is made.
#[derive(Clone, Copy, Debug, PartialEq, Eq, Structural)]
pub enum Privilege {
    /// Namespaces can be made as things are.
    Sufficient,
    /// Making a namespace was not permitted: a new user namespace, in which
    /// the user is root, may help.
    TryNewUser,
    /// Making a namespace failed for another reason: there is no way on.
    Fatal,
}

/// What follows from a first attempt to make a network namespace, which
/// either went through or failed with the OS error code `failure`, where
/// `eperm` is the code that stands for a missing permission.
pub open spec fn privilege_of(failure: Option<Option<i32>>, eperm: i32) -> Privilege {
    match failure {
        None => Privilege::Sufficient,
        Some(raw_os_error) => if raw_os_error == Some(eperm) {
            Privilege::TryNewUser
        } else {
            Privilege::Fatal
        },
    }
}

/// What follows from a first attempt to make a network namespace: see
/// `privilege_of`.
pub fn privilege_with(failure: Option<Option<i32>>, eperm: i32) -> (privilege: Privilege)
    ensures
        privilege == privilege_of(failure, eperm),
{
    match failure {
        None => Privilege::Sufficient,
        Some(Some(code)) => if code == eperm {
            Privilege::TryNewUser
        } else {
            Privilege::Fatal
        },
        Some(None) => Privilege::Fatal,
    }
}

/// What follows from a first attempt to make a network namespace, on the
/// system this runs on.
pub fn privilege(failure: Option<Option<i32>>) -> (privilege: Privilege)
    ensures
        exists|eperm: i32| privilege == privilege_of(failure, eperm),
        failure is None <==> privilege is Sufficient,
{
    privilege_with(failure, eperm())
}

/// Whether entering a new user namespace failed because the process has
/// more than one thread, which the kernel reports as an argument it cannot
/// accept. `einval` is the code that stands for that.
pub fn too_late_for_new_user_with(raw_os_error: Option<i32>, einval: i32) -> (late: bool)
    ensures
        late == (raw_os_error == Some(einval)),
{
    match raw_os_error {
        Some(code) => code == einval,
        None => false,
    }
}

/// Whether entering a new user namespace failed because the process has
/// more than one thread, on the system this runs on.
pub fn too_late_for_new_user(raw_os_error: Option<i32>) -> (late: bool)
    ensures
        exists|einval: i32| late == (raw_os_error == Some(einval)),
        late ==> raw_os_error is Some,
{
    too_late_for_new_user_with(raw_os_error, einval())
}

} // verus!
