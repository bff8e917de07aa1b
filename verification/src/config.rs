//! Typed configuration built from environment-sourced settings.

use vstd::prelude::*;
use vstd::string::StringExecFns;

verus! {

/// The lower-cased settings key that names the target security group.
pub open spec fn group_key() -> Seq<char> {
    "awssecgroup"@
}

/// Why configuration loading failed; either aborts the run before any
/// provider call is made.
#[derive(Clone, Copy, PartialEq, Eq, Structural, Debug)]
pub enum ConfigError {
    /// No setting under the security-group key.
    MissingGroupId,
    /// The security-group setting is present but empty.
    EmptyGroupId,
}

/// The settings pair at `i` is the first one keyed by the group key.
pub open spec fn first_group_entry(settings: Seq<(String, String)>, i: int) -> bool {
    &&& 0 <= i < settings.len()
    &&& settings[i].0@ == group_key()
    &&& forall|j: int| 0 <= j < i ==> settings[j].0@ != group_key()
}

/// The fixed ports every run opens: SSH, the database, and the app.
pub open spec fn default_ports() -> Seq<i32> {
    seq![22i32, 3306i32, 5000i32]
}

/// What one run needs to know: the group to rewrite and the ports to
/// open. Built once at startup, immutable afterwards.
#[derive(Debug)]
pub struct AppConfig {
    pub security_group_id: String,
    pub ports: Vec<i32>,
}

/// The default port list as a vector.
pub fn default_port_vec() -> (v: Vec<i32>)
    ensures
        v@ == default_ports(),
{
    let mut v: Vec<i32> = Vec::new();
    v.push(22);
    v.push(3306);
    v.push(5000);
    proof {
        assert(v@ =~= default_ports());
    }
    v
}

impl AppConfig {
    /// Builds the configuration from the environment-sourced settings
    /// pairs: the security-group identifier must be present under the
    /// group key and non-empty; the port list is the fixed default.
    pub fn from_settings(settings: &Vec<(String, String)>) -> (r: Result<AppConfig, ConfigError>)
        ensures
            match r {
                Ok(c) => {
                    &&& exists|i: int|
                        first_group_entry(settings@, i) && c.security_group_id@ == settings@[i].1@
                    &&& c.security_group_id@.len() > 0
                    &&& c.ports@ == default_ports()
                },
                Err(ConfigError::MissingGroupId) => forall|j: int|
                    0 <= j < settings@.len() ==> settings@[j].0@ != group_key(),
                Err(ConfigError::EmptyGroupId) => exists|i: int|
                    first_group_entry(settings@, i) && settings@[i].1@.len() == 0,
            },
    {
        let key: String = String::from_str("awssecgroup");
        let n: usize = settings.len();
        let mut i: usize = 0;
        while i < n
            invariant
                n == settings@.len(),
                i <= n,
                key@ == group_key(),
                forall|j: int| 0 <= j < i ==> settings@[j].0@ != group_key(),
            decreases n - i,
        {
            if settings[i].0 == key {
                proof {
                    assert(first_group_entry(settings@, i as int));
                }
                if settings[i].1.as_str().is_empty() {
                    return Err(ConfigError::EmptyGroupId);
                }
                let id = settings[i].1.clone();
                return Ok(AppConfig { security_group_id: id, ports: default_port_vec() });
            }
            i += 1;
        }
        Err(ConfigError::MissingGroupId)
    }
}

} // verus!
