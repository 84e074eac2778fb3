use vstd::prelude::*;

use crate::error::Error;
use crate::extract::{texts, TimeWindow};
use crate::stamp::Instant;

verus! {

/// How far, in seconds, the backup's log window reaches on each side of the
/// time that the operator gives.
pub const LOGS_MARGIN_SECS: i64 = 600;

/// The command that the operator chose.
pub enum Args {
    L1(L1Args),
    L2(L2Args),
    Backup(BackupArgs),
    Rpc(RpcArgs),
}

/// Commands on the node's service and its data.
#[derive(Clone, Copy, Debug, PartialEq, Eq, Structural)]
pub enum L1Args {
    Stop,
    Start,
    Restart,
    Status,
    ResetData { peer_store: bool },
}

/// Commands of the second level; none does anything yet.
#[derive(Clone, Copy, Debug, PartialEq, Eq, Structural)]
pub struct L2Args {}

/// What a backup captures: the logs around a time, or the peer store.
#[derive(Clone, Copy, Debug, PartialEq, Eq, Structural)]
pub struct BackupArgs {
    pub logs_around: TimeWindow,
    pub peer_store: bool,
}

/// Queries to the node's RPC endpoint.
#[derive(Clone, Copy, Debug, PartialEq, Eq, Structural)]
pub enum RpcArgs {
    GetPeers { stats: bool },
}

impl L1Args {
    /// The program that carries out the command.
    pub open spec fn program_spec(self, service_name: Seq<char>, bin_path: Seq<char>) -> Seq<char> {
        match self {
            L1Args::ResetData { .. } => bin_path,
            _ => "systemctl"@,
        }
    }

    /// The arguments handed to that program.
    pub open spec fn args_spec(self, service_name: Seq<char>, root_dir: Seq<char>) -> Seq<Seq<char>> {
        match self {
            L1Args::Start => seq!["start"@, service_name],
            L1Args::Stop => seq!["stop"@, service_name],
            L1Args::Restart => seq!["restart"@, service_name],
            L1Args::Status => seq!["status"@, service_name],
            L1Args::ResetData { peer_store } => seq![
                "reset-data"@,
                "--force"@,
                "-C"@,
                root_dir,
                if peer_store {
                    "--network-peer-store"@
                } else {
                    "--all"@
                },
            ],
        }
    }

    /// The program and the arguments that carry out the command: the init
    /// system for the service commands, the node's own binary for a reset.
    pub fn command(&self, service_name: &str, bin_path: &str, root_dir: &str) -> (r: (
        String,
        Vec<String>,
    ))
        ensures
            r.0@ == self.program_spec(service_name@, bin_path@),
            texts(r.1@) == self.args_spec(service_name@, root_dir@),
    {
        let mut args: Vec<String> = Vec::new();
        let program = match self {
            L1Args::ResetData { peer_store } => {
                args.push(String::from_str("reset-data"));
                args.push(String::from_str("--force"));
                args.push(String::from_str("-C"));
                args.push(String::from_str(root_dir));
                if *peer_store {
                    args.push(String::from_str("--network-peer-store"));
                } else {
                    args.push(String::from_str("--all"));
                }
                String::from_str(bin_path)
            },
            _ => {
                let verb = match self {
                    L1Args::Start => "start",
                    L1Args::Stop => "stop",
                    L1Args::Restart => "restart",
                    _ => "status",
                };
                args.push(String::from_str(verb));
                args.push(String::from_str(service_name));
                String::from_str("systemctl")
            },
        };
        assert(texts(args@) =~= self.args_spec(service_name@, root_dir@));
        (program, args)
    }
}

impl TimeWindow {
    /// The window from `margin` seconds before `anchor` to `margin` seconds
    /// after it; `None` where an end leaves the range of seconds.
    pub fn around(anchor: Instant, margin: i64) -> (r: Option<TimeWindow>)
        requires
            margin >= 0,
        ensures
            r is Some <==> (i64::MIN <= anchor.secs - margin && anchor.secs + margin <= i64::MAX),
            r matches Some(w) ==> w.wf(),
            r matches Some(w) ==> w.start == (Instant { secs: (anchor.secs - margin) as i64, nanos: anchor.nanos })
                && w.end == (Instant { secs: (anchor.secs + margin) as i64, nanos: anchor.nanos }),
    {
        let lo = anchor.secs.checked_sub(margin);
        let hi = anchor.secs.checked_add(margin);
        match (lo, hi) {
            (Some(lo), Some(hi)) => Some(
                TimeWindow {
                    start: Instant { secs: lo, nanos: anchor.nanos },
                    end: Instant { secs: hi, nanos: anchor.nanos },
                },
            ),
            _ => None,
        }
    }
}

/// The instant that chrono reads from an RFC 3339 date and time, as seconds
/// and nanoseconds since the epoch.
pub uninterp spec fn rfc3339_instant(s: Seq<char>) -> Option<(i64, u32)>;

/// Relies on chrono's `DateTime::parse_from_rfc3339` and on `timestamp` /
/// `timestamp_subsec_nanos` of the parsed value; an error is turned into its
/// message.
#[verifier::external_body]
fn parse_rfc3339(s: &str) -> (r: Result<(i64, u32), String>)
    ensures
        r is Ok <==> rfc3339_instant(s@) is Some,
        r matches Ok(p) ==> rfc3339_instant(s@) == Some(p),
{
    chrono::DateTime::parse_from_rfc3339(s)
        .map(|t| (t.timestamp(), t.timestamp_subsec_nanos()))
        .map_err(|e| e.to_string())
}

/// The window that a backup of the logs around the time `anchor` covers.
pub open spec fn window_around(anchor: (i64, u32)) -> TimeWindow {
    TimeWindow {
        start: Instant { secs: (anchor.0 - LOGS_MARGIN_SECS) as i64, nanos: anchor.1 },
        end: Instant { secs: (anchor.0 + LOGS_MARGIN_SECS) as i64, nanos: anchor.1 },
    }
}

impl BackupArgs {
    /// The backup of the logs around the RFC 3339 time `logs_around`, ten
    /// minutes on each side, or of the peer store where `peer_store` holds.
    pub fn from_inputs(logs_around: &str, peer_store: bool) -> (r: Result<BackupArgs, Error>)
        ensures
            r is Ok <==> (rfc3339_instant(logs_around@) matches Some(p) && i64::MIN <= p.0
                - LOGS_MARGIN_SECS && p.0 + LOGS_MARGIN_SECS <= i64::MAX),
            r matches Ok(b) ==> b.logs_around.wf(),
            r matches Ok(b) ==> b.logs_around == window_around(rfc3339_instant(logs_around@)->0)
                && b.peer_store == peer_store,
            r matches Err(e) ==> e is Arg,
            rfc3339_instant(logs_around@) is None ==> (r matches Err(e)
                && "failed to parse \"logs-around\" since "@.is_prefix_of(e.detail())),
    {
        match parse_rfc3339(logs_around) {
            Ok(p) => match TimeWindow::around(Instant { secs: p.0, nanos: p.1 }, LOGS_MARGIN_SECS) {
                Some(w) => Ok(BackupArgs { logs_around: w, peer_store }),
                None => Err(
                    Error::Arg(String::from_str("failed to parse \"logs-around\" since it is out of range")),
                ),
            },
            Err(msg) => {
                let prefix = "failed to parse \"logs-around\" since ";
                let detail = String::from_str(prefix).concat(msg.as_str());
                assert(detail@.subrange(0, prefix@.len() as int) =~= prefix@);
                Err(Error::Arg(detail))
            },
        }
    }

    /// The name of what the archive holds: the log bundle or the peer store.
    pub fn archive_member(&self) -> (r: String)
        ensures
            r@ == (if self.peer_store {
                "peer_store"@
            } else {
                "ckb.log"@
            }),
    {
        if self.peer_store {
            String::from_str("peer_store")
        } else {
            String::from_str("ckb.log")
        }
    }
}

/// The name of the archive of a backup: the host's address and the time of
/// the backup, joined by a dash, with the `.tar.gz` suffix.
pub fn archive_name(host_ip: &str, time_text: &str) -> (r: String)
    ensures
        r@ == host_ip@ + "-"@ + time_text@ + ".tar.gz"@,
{
    String::from_str(host_ip).concat("-").concat(time_text).concat(".tar.gz")
}

} // verus!
