use vstd::prelude::*;

use crate::config::{parse_url, parsed_url};
use crate::error::Error;

verus! {

/// The parts of the node's own configuration file that the tool reads.
#[derive(Debug)]
pub struct AppConfig {
    /// The node's data directory, relative to its root directory or absolute.
    pub data_dir: String,
    pub rpc: RpcConfig,
}

/// The node's RPC section.
#[derive(Debug)]
pub struct RpcConfig {
    /// The `host:port` the node's RPC server listens on.
    pub listen_address: String,
}

impl AppConfig {
    /// The error for a failed `step` on the node's configuration file at
    /// `path`, with the cause where there is one.
    pub fn create_error(path: &str, step: &str, error_opt: Option<&str>) -> (r: Error)
        ensures
            r is Cfg,
            r.detail() == "failed to "@ + step@ + " the ckb config file \""@ + path@ + "\""@ + match error_opt {
                Some(e) => " since "@ + e@,
                None => Seq::<char>::empty(),
            },
    {
        let msg = String::from_str("failed to ").concat(step).concat(" the ckb config file \"").concat(
            path,
        ).concat("\"");
        let msg = match error_opt {
            Some(e) => msg.concat(" since ").concat(e),
            None => {
                assert(msg@ + Seq::<char>::empty() =~= msg@);
                msg
            },
        };
        Error::Cfg(msg)
    }

    /// The URL text of the node's RPC endpoint.
    pub fn rpc_url_text(&self) -> (r: String)
        ensures
            r@ == "http://"@ + self.rpc.listen_address@,
    {
        String::from_str("http://").concat(self.rpc.listen_address.as_str())
    }

    /// The node's RPC endpoint as a URL, written as the url crate writes it.
    pub fn rpc_url(&self) -> (r: Result<String, Error>)
        ensures
            r is Ok <==> parsed_url("http://"@ + self.rpc.listen_address@) is Some,
            r matches Ok(u) ==> u@ == (parsed_url("http://"@ + self.rpc.listen_address@)->0).0,
            r matches Err(e) ==> e is Cfg && ("failed to parse CKB RPC URL ["@ + "http://"@
                + self.rpc.listen_address@ + "] since "@).is_prefix_of(e.detail()),
    {
        let text = self.rpc_url_text();
        match parse_url(text.as_str()) {
            Ok(u) => Ok(u.0),
            Err(msg) => {
                let head = String::from_str("failed to parse CKB RPC URL [").concat(text.as_str()).concat(
                    "] since ",
                );
                let detail = head.clone().concat(msg.as_str());
                assert(detail@.subrange(0, head@.len() as int) =~= head@);
                Err(Error::Cfg(detail))
            },
        }
    }
}

} // verus!
