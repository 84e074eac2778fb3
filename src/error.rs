use vstd::prelude::*;

verus! {

/// The errors of the tool, each with a human-readable detail.
#[derive(Debug)]
pub enum Error {
    /// A configuration file is missing, unreadable or incomplete.
    Cfg(String),
    /// A command-line argument is invalid.
    Arg(String),
    /// An external step (a command, a copy, a file) failed.
    Exec(String),
    /// The node's RPC endpoint could not be reached or answered with an error.
    Rpc(String),
    /// The object-storage upload failed.
    Qiniu(String),
    /// A log line starts with text of the timestamp's shape that is no valid
    /// instant; it holds that line.
    Stamp(String),
}

/// The detail of the error for an absent configuration item `name`.
pub open spec fn not_found(name: Seq<char>) -> Seq<char> {
    "["@ + name + "] not found"@
}

impl Error {
    /// The detail of the error, whatever its kind.
    pub open spec fn detail(self) -> Seq<char> {
        match self {
            Error::Cfg(s) => s@,
            Error::Arg(s) => s@,
            Error::Exec(s) => s@,
            Error::Rpc(s) => s@,
            Error::Qiniu(s) => s@,
            Error::Stamp(s) => s@,
        }
    }

    /// The kind of the error, as it opens the error's message.
    pub open spec fn kind_text(self) -> Seq<char> {
        match self {
            Error::Cfg(_) => "config error: "@,
            Error::Arg(_) => "argument error: "@,
            Error::Exec(_) => "execute error: "@,
            Error::Rpc(_) => "rpc error: "@,
            Error::Qiniu(_) => "qiniu error: "@,
            Error::Stamp(_) => "log timestamp error: "@,
        }
    }

    /// The message shown to the operator: the kind, then the detail.
    pub fn describe(&self) -> (r: String)
        ensures
            r@ == self.kind_text() + self.detail(),
    {
        match self {
            Error::Cfg(s) => String::from_str("config error: ").concat(s.as_str()),
            Error::Arg(s) => String::from_str("argument error: ").concat(s.as_str()),
            Error::Exec(s) => String::from_str("execute error: ").concat(s.as_str()),
            Error::Rpc(s) => String::from_str("rpc error: ").concat(s.as_str()),
            Error::Qiniu(s) => String::from_str("qiniu error: ").concat(s.as_str()),
            Error::Stamp(s) => String::from_str("log timestamp error: ").concat(s.as_str()),
        }
    }

    /// The error for a configuration key that is absent.
    pub fn config_not_found(key: &str) -> (r: Error)
        ensures
            r is Cfg,
            r.detail() == not_found(key@),
    {
        let msg = String::from_str("[").concat(key).concat("] not found");
        Error::Cfg(msg)
    }
}

} // verus!
