use vstd::prelude::*;

verus! {

/// The two addresses the proxy works between.
#[derive(Clone, Debug, PartialEq, Eq)]
pub struct ProxyConfig {
    /// Where WebSocket clients are accepted, as `host:port`.
    pub source_addr: String,
    /// The TCP service each client is bridged to, as `host:port`.
    pub target_addr: String,
}

/// The command line did not hold exactly two addresses.
#[derive(Clone, Copy, Debug, PartialEq, Eq, Structural)]
pub struct UsageError;

/// Reads the command line, program name first: exactly two arguments follow it,
/// the source address and then the target address.
pub fn parse_args(args: &Vec<String>) -> (r: Result<ProxyConfig, UsageError>)
    ensures
        r is Ok <==> args@.len() == 3,
        r matches Ok(c) ==> c.source_addr@ == args@[1]@ && c.target_addr@ == args@[2]@,
{
    if args.len() != 3 {
        return Err(UsageError);
    }
    Ok(ProxyConfig { source_addr: args[1].clone(), target_addr: args[2].clone() })
}

} // verus!
