//! The run configuration and the per-hostname resolution record.

use vstd::prelude::*;

use std::collections::HashSet;
use std::time::Instant;

use crate::nmap::Port;

verus! {

/// `std::time::Instant` carried opaquely, so a run can record when it
/// started; the library never reads it. Relies on `std::time::Instant`
/// being an ordinary opaque value type.
#[verifier::external_type_specification]
#[verifier::external_body]
pub struct ExInstant(Instant);

/// Everything one run was configured with. Built outside the library from
/// the command line and handed in read-only.
#[derive(Debug)]
pub struct Args {
    pub target: String,
    pub file_name: String,
    pub version: String,
    pub logs_dir: String,
    pub threads: usize,
    pub ports: String,
    pub with_output: bool,
    pub unique_output_flag: bool,
    pub min_rate: String,
    pub from_file_flag: bool,
    pub quiet_flag: bool,
    pub custom_resolvers: bool,
    pub custom_ports_range: bool,
    pub no_keep_nmap_logs: bool,
    pub raw_output: bool,
    pub fast_scan: bool,
    pub files: Vec<String>,
    pub resolvers: Vec<String>,
    pub targets: HashSet<String>,
    pub time_wasted: Instant,
}

/// What one hostname resolved to, and the open ports its address showed.
#[derive(Debug, PartialEq, Eq, Hash)]
pub struct ResolvData {
    pub ip: String,
    pub ports_data: Vec<Port>,
}

impl ResolvData {
    /// The record of a hostname that resolved to nothing: empty address,
    /// no ports.
    pub fn default() -> (r: ResolvData)
        ensures
            r.ip@.len() == 0,
            r.ports_data@.len() == 0,
    {
        ResolvData { ip: String::new(), ports_data: Vec::new() }
    }
}

impl Clone for ResolvData {
    fn clone(&self) -> (res: ResolvData)
        ensures
            res.ip == self.ip,
            res.ports_data@ == self.ports_data@,
    {
        let ports = self.ports_data.clone();
        proof {
            assert(ports@ =~= self.ports_data@);
        }
        ResolvData { ip: self.ip.clone(), ports_data: ports }
    }
}

} // verus!
