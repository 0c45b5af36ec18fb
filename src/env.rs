//! Scoped overrides of an environment variable: what to restore afterwards.
use vstd::prelude::*;

verus! {

/// An override of the variable `key`, remembering the value it had before.
#[derive(Debug, Clone, PartialEq, Eq)]
pub struct ScopedEnvVar {
    key: String,
    previous: Option<String>,
}

/// How to put a variable back when its override ends.
#[derive(Debug, Clone, PartialEq, Eq)]
pub enum EnvRestore {
    /// Set the variable back to its earlier value.
    SetBack { key: String, value: String },
    /// Remove the variable: it was not set before.
    Remove { key: String },
}

impl ScopedEnvVar {
    /// Records an override of `key`, whose value before it was `previous`.
    pub fn new(key: String, previous: Option<String>) -> (r: ScopedEnvVar)
        ensures
            r.key() == key@,
            r.previous() == previous,
    {
        ScopedEnvVar { key, previous }
    }

    /// The overridden variable's name.
    pub closed spec fn key(&self) -> Seq<char> {
        self.key@
    }

    /// The value the variable had before the override.
    pub closed spec fn previous(&self) -> Option<String> {
        self.previous
    }

    /// The overridden variable's name.
    pub fn name(&self) -> (r: &str)
        ensures
            r@ == self.key(),
    {
        self.key.as_str()
    }

    /// What ends the override: the earlier value set back, or the variable
    /// removed when it had none.
    pub fn restore(&self) -> (r: EnvRestore)
        ensures
            match self.previous() {
                Some(v) => r matches EnvRestore::SetBack { key, value } && key@ == self.key() && value
                    == v,
                None => r matches EnvRestore::Remove { key } && key@ == self.key(),
            },
    {
        match &self.previous {
            Some(v) => EnvRestore::SetBack { key: self.key.clone(), value: v.clone() },
            None => EnvRestore::Remove { key: self.key.clone() },
        }
    }
}

} // verus!
