//! Backup destinations reached over a remote shell, and the exact command
//! lines issued against them.

use vstd::prelude::*;
use crate::text::dec_seq;
use crate::text::dec_string;
use crate::timestamp::Timestamp;

verus! {

/// Per-session callback state for the remote shell transport. The transport
/// itself lives with the surrounding application and keeps no state here.
pub struct SshHandler {}

impl SshHandler {
    pub fn new() -> (r: SshHandler) {
        SshHandler {  }
    }
}

/// One configured backup destination: a user and host reached over a secure
/// remote shell, and the root path under which snapshots are rotated. The
/// root path must be exclusively owned by this tool; rotation assumes no
/// concurrent external writer. Built once from configuration, immutable for
/// the rest of the run.
#[derive(Debug)]
pub struct SshRsyncTarget {
    /// The name of the user on the target.
    pub user: String,
    /// The target host.
    pub host: String,
    /// The network port. Usually 22.
    pub port: usize,
    /// The path on the target to back up to. Must be owned by this
    /// application.
    pub path: String,
}

impl Clone for SshRsyncTarget {
    fn clone(&self) -> (r: Self)
        ensures
            r == self,
    {
        SshRsyncTarget {
            user: self.user.clone(),
            host: self.host.clone(),
            port: self.port,
            path: self.path.clone(),
        }
    }
}

impl SshRsyncTarget {
    pub fn new(user: String, host: String, port: usize, path: String) -> (r: SshRsyncTarget)
        ensures
            r.user == user && r.host == host && r.port == port && r.path == path,
    {
        SshRsyncTarget { user, host, port, path }
    }

    /// The rsync-style rendering of the destination: `user@host:path`.
    pub open spec fn ssh_spec(&self) -> Seq<char> {
        self.user@ + "@"@ + self.host@ + ":"@ + self.path@
    }

    /// The session address handed to the remote shell: `user@host`.
    pub open spec fn destination_spec(&self) -> Seq<char> {
        self.user@ + "@"@ + self.host@
    }

    /// The identity string used in logs: `user@host:path, port N`. It names
    /// the destination without leaking any credential material.
    pub open spec fn display_spec(&self) -> Seq<char> {
        self.ssh_spec() + ", port "@ + dec_seq(self.port as int)
    }

    /// Render `user@host:path`.
    pub fn to_ssh(&self) -> (r: String)
        ensures
            r@ == self.ssh_spec(),
    {
        let mut s = self.user.clone();
        s.append("@");
        s.append(self.host.as_str());
        s.append(":");
        s.append(self.path.as_str());
        proof {
            assert(s@ =~= self.ssh_spec());
        }
        s
    }

    /// Render `user@host`.
    pub fn ssh_destination(&self) -> (r: String)
        ensures
            r@ == self.destination_spec(),
    {
        let mut s = self.user.clone();
        s.append("@");
        s.append(self.host.as_str());
        proof {
            assert(s@ =~= self.destination_spec());
        }
        s
    }

    /// Render the log identity, `user@host:path, port N`.
    pub fn display_string(&self) -> (r: String)
        ensures
            r@ == self.display_spec(),
    {
        let mut s = self.to_ssh();
        s.append(", port ");
        s.append(dec_string(self.port as u64).as_str());
        proof {
            assert(s@ =~= self.display_spec());
        }
        s
    }

    /// The full argument list of one remote shell invocation against this
    /// target: the fixed credential path, the connection timeout that bounds
    /// every probe and command, the port, the session address, and the
    /// command itself.
    pub fn ssh_arguments(&self, command: &String) -> (r: Vec<String>)
        ensures
            r@.len() == 8,
            r@[0]@ == "-i"@,
            r@[1]@ == "~/.ssh/id_rsa"@,
            r@[2]@ == "-o"@,
            r@[3]@ == "ConnectTimeout=3"@,
            r@[4]@ == "-p"@,
            r@[5]@ == dec_seq(self.port as int),
            r@[6]@ == self.destination_spec(),
            r@[7]@ == command@,
    {
        let mut arguments: Vec<String> = Vec::new();
        arguments.push(String::from_str("-i"));
        arguments.push(String::from_str("~/.ssh/id_rsa"));
        arguments.push(String::from_str("-o"));
        arguments.push(String::from_str("ConnectTimeout=3"));
        arguments.push(String::from_str("-p"));
        arguments.push(dec_string(self.port as u64));
        arguments.push(self.ssh_destination());
        arguments.push(command.clone());
        arguments
    }

    /// The no-op remote command of the readiness probe: it checks only that
    /// the session and credentials work.
    pub fn probe_command() -> (r: String)
        ensures
            r@ == "exit"@,
    {
        String::from_str("exit")
    }

    /// The root path stands inside single quotes in the rotation command, so
    /// it may hold spaces and other shell metacharacters — but no single
    /// quote, which would end the quoting and change the command's meaning.
    pub open spec fn shell_safe_path(path: Seq<char>) -> bool {
        forall|i: int| 0 <= i < path.len() ==> path[i] != '\''
    }

    /// The single conditional shell expression that rotates the snapshot set
    /// under `path` (embedded in single quotes), realising one `rotate`
    /// transition of the model in `snapshot`. Where no directory named by
    /// the token exists yet, one is created: a hard-link copy of the
    /// directory the `backup-latest` alias resolves to where the alias
    /// exists, an empty directory otherwise. An existing token directory —
    /// a second run within the same clock second — is treated as already
    /// satisfied and left alone, alias or no alias. Only after the step
    /// that ran succeeded is the old alias removed (`rm -f`, so its absence
    /// is no error) and a fresh one linked at the token's directory: at
    /// every intermediate point the alias either resolves to a fully formed
    /// snapshot or is absent.
    pub open spec fn rotation_command_spec(path: Seq<char>, token: Seq<char>) -> Seq<char> {
        "cd '"@ + path + "' && if [ ! -d backup-"@ + token
            + " ]; then if [ -d backup-latest ]; then cp -al $(readlink backup-latest) backup-"@
            + token + "; else mkdir backup-"@ + token
            + "; fi; fi && rm -f backup-latest && ln -s backup-"@ + token + " backup-latest"@
    }

    /// Whether the root path can stand inside the rotation command's single
    /// quotes: true exactly when it holds no single quote.
    pub fn path_is_shell_safe(&self) -> (r: bool)
        ensures
            r <==> Self::shell_safe_path(self.path@),
    {
        let s = self.path.as_str();
        let n = s.unicode_len();
        let mut k: usize = 0;
        while k < n
            invariant
                k <= n,
                n == s@.len(),
                s@ == self.path@,
                forall|i: int| 0 <= i < k ==> s@[i] != '\'',
            decreases n - k,
        {
            if s.get_char(k) == '\'' {
                return false;
            }
            k += 1;
        }
        true
    }

    /// Build the snapshot-rotation command for one capture instant.
    pub fn rotation_command(&self, timestamp: &Timestamp) -> (r: String)
        requires
            timestamp.wf(),
            Self::shell_safe_path(self.path@),
        ensures
            r@ == Self::rotation_command_spec(self.path@, timestamp.token_seq()),
    {
        let token = timestamp.token();
        let mut s = String::from_str("cd '");
        s.append(self.path.as_str());
        s.append("' && if [ ! -d backup-");
        s.append(token.as_str());
        s.append(" ]; then if [ -d backup-latest ]; then cp -al $(readlink backup-latest) backup-");
        s.append(token.as_str());
        s.append("; else mkdir backup-");
        s.append(token.as_str());
        s.append("; fi; fi && rm -f backup-latest && ln -s backup-");
        s.append(token.as_str());
        s.append(" backup-latest");
        proof {
            assert(s@ =~= Self::rotation_command_spec(self.path@, timestamp.token_seq()));
        }
        s
    }
}

/// The argument list that asks the privileged helper to notify a local user
/// of a finished backup.
pub fn notify_arguments(user: &String, message: &String) -> (r: Vec<String>)
    ensures
        r@.len() == 5,
        r@[0]@ == "-i"@,
        r@[1]@ == "-u"@,
        r@[2]@ == user@,
        r@[3]@ == "notify-send"@,
        r@[4]@ == message@,
{
    let mut arguments: Vec<String> = Vec::new();
    arguments.push(String::from_str("-i"));
    arguments.push(String::from_str("-u"));
    arguments.push(user.clone());
    arguments.push(String::from_str("notify-send"));
    arguments.push(message.clone());
    arguments
}

} // verus!
