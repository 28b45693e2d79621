//! A small greeting gate: refuses to greet the world, under any
//! capitalisation, and accepts every other name.

use vstd::prelude::*;
use vstd::string::StringExecFns;

verus! {

#[derive(Debug, PartialEq, Eq)]
pub enum BandwidthMonitorError {
    HelloWorldError(String),
    Unknown,
}

pub type ResultT<T> = Result<T, BandwidthMonitorError>;

/// What `str::to_lowercase` returns for a string with these characters.
pub uninterp spec fn lower_of(s: Seq<char>) -> Seq<char>;

/// Relies on str::to_lowercase: Unicode lowercasing, a function of the
/// characters alone.
#[verifier::external_body]
fn lowercase(s: &str) -> (r: String)
    ensures
        r@ == lower_of(s@),
{
    s.to_lowercase()
}

/// Decides the greeting for `name`, given the lowercased form of the
/// name: the greeting is refused exactly when `lowered` is "world", with
/// `HelloWorldError` carrying the name as given.
pub fn hello_with_lowered(name: &str, lowered: &str) -> (r: ResultT<()>)
    ensures
        r is Ok <==> lowered@ != "world"@,
        r matches Err(e) ==> e matches BandwidthMonitorError::HelloWorldError(n) && n@ == name@,
{
    let is_world = lowered.to_owned() == String::from_str("world");
    if is_world {
        Err(BandwidthMonitorError::HelloWorldError(name.to_owned()))
    } else {
        Ok(())
    }
}

/// Greets everybody but the world: returns `HelloWorldError` exactly when
/// `name` lowercases to "world". On `Ok` the caller prints the greeting.
pub fn hello(name: &str) -> (r: ResultT<()>)
    ensures
        r is Ok <==> lower_of(name@) != "world"@,
        r matches Err(e) ==> e matches BandwidthMonitorError::HelloWorldError(n) && n@ == name@,
{
    let lowered = lowercase(name);
    hello_with_lowered(name, lowered.as_str())
}

} // verus!
