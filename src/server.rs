//! The plain HTTP server: its address and its one resource.
use vstd::prelude::*;

verus! {

/// The value set, or the default when none is.
pub open spec fn or_default(v: Option<String>, default: Seq<char>) -> Seq<char> {
    match v {
        Some(s) => s@,
        None => default,
    }
}

/// The address `host:port` to bind to, from the host and port that were set;
/// they default to `0.0.0.0` and `3000`.
pub fn addr(host: Option<String>, port: Option<String>) -> (r: String)
    ensures
        r@ == or_default(host, "0.0.0.0"@) + ":"@ + or_default(port, "3000"@),
{
    let mut out = match host {
        Some(h) => h,
        None => String::from_str("0.0.0.0"),
    };
    out.append(":");
    match port {
        Some(p) => out.append(p.as_str()),
        None => out.append("3000"),
    }
    out
}

/// The body of the index resource.
pub fn index() -> (r: &'static str)
    ensures
        r@ == "Hello world!"@,
{
    "Hello world!"
}

} // verus!
