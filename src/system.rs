//! Decisions around the operating-system commands that check, start and
//! stop the service.
use crate::errors::SurgeError;
use crate::text::{
    chars_of, contains_exec, contains_seq, parse_unsigned, parse_unsigned_exec, subvec, trim,
    trim_bounds,
};
use vstd::prelude::*;
use vstd::string::*;

verus! {

/// Process-level control of the service.
#[derive(Debug, Clone, Copy)]
pub struct SurgeSystemClient;

impl SurgeSystemClient {
    pub fn new() -> (r: Self) {
        SurgeSystemClient
    }

    /// The result of the launch command: failure carries its error output.
    pub fn start_outcome(success: bool, stderr: &str) -> (r: Result<(), SurgeError>)
        ensures
            success ==> r is Ok,
            !success ==> (r matches Err(SurgeError::Unknown { message }) && message@
                == "Failed to start Surge: "@ + stderr@),
    {
        if success {
            Ok(())
        } else {
            let mut m = String::from_str("Failed to start Surge: ");
            m.append(stderr);
            Err(SurgeError::Unknown { message: m })
        }
    }

    /// The result of the terminate command: "no matching processes" counts
    /// as success, as the service is then stopped already.
    pub fn stop_outcome(success: bool, stderr: &str) -> (r: Result<(), SurgeError>)
        ensures
            (success || contains_seq(stderr@, "No matching processes"@)) ==> r is Ok,
            !(success || contains_seq(stderr@, "No matching processes"@)) ==> (r matches Err(
                SurgeError::Unknown { message },
            ) && message@ == "Failed to stop Surge: "@ + stderr@),
    {
        if success {
            return Ok(());
        }
        let e = chars_of(stderr);
        let needle = chars_of("No matching processes");
        if contains_exec(&e, &needle) {
            Ok(())
        } else {
            let mut m = String::from_str("Failed to stop Surge: ");
            m.append(stderr);
            Err(SurgeError::Unknown { message: m })
        }
    }

    /// The process id in the output of the process query, if it is one number.
    pub fn parse_pid(stdout: &str) -> (r: Option<u32>)
        ensures
            match parse_unsigned(trim(stdout@), u32::MAX as nat) {
                Some(v) => r == Some(v as u32),
                None => r is None,
            },
    {
        let v = chars_of(stdout);
        let (a, b) = trim_bounds(&v);
        let t = subvec(&v, a, b);
        match parse_unsigned_exec(&t, 4294967295u64) {
            Some(n) => Some(n as u32),
            None => None,
        }
    }
}

impl Default for SurgeSystemClient {
    fn default() -> (r: Self) {
        SurgeSystemClient::new()
    }
}

} // verus!
