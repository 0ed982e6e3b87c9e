//! The decisions of the key recovery and configuration commands. The
//! commands themselves read the terminal and the key store; what they decide
//! from their arguments is stated here.

use vstd::prelude::*;

verus! {

/// The argument at a place, where the command line holds that many.
fn argument_at(args: &Vec<String>, index: usize) -> (r: Option<&String>)
    ensures
        index < args@.len() ==> r == Some(&args@[index as int]),
        index >= args@.len() ==> r is None,
{
    if index < args.len() {
        Some(&args[index])
    } else {
        None
    }
}

/// Recovers an Ethereum key from a mnemonic and stores it under a name.
#[derive(Clone, Debug, Default, PartialEq, Eq)]
pub struct RecoverEthKeyCmd {
    /// The name of the key, and after it the mnemonic, which may be left
    /// out.
    pub args: Vec<String>,
    /// Whether a key of that name may be replaced.
    pub overwrite: bool,
}

impl RecoverEthKeyCmd {
    /// The name under which the key is stored: the first argument. The
    /// command cannot run without it.
    pub fn name(&self) -> (r: Option<&String>)
        ensures
            self.args@.len() >= 1 ==> r == Some(&self.args@[0]),
            self.args@.len() == 0 ==> r is None,
    {
        argument_at(&self.args, 0)
    }

    /// The mnemonic given on the command line: the second argument. Where
    /// there is none, the command asks for it on the terminal.
    pub fn mnemonic(&self) -> (r: Option<&String>)
        ensures
            self.args@.len() >= 2 ==> r == Some(&self.args@[1]),
            self.args@.len() < 2 ==> r is None,
    {
        argument_at(&self.args, 1)
    }

    /// Whether the command goes on to store the key, given whether the key
    /// store holds one of that name already: an existing key is kept unless
    /// the command was told to overwrite.
    pub fn may_store(&self, key_exists: bool) -> (go_on: bool)
        ensures
            go_on == (!key_exists || self.overwrite),
    {
        !key_exists || self.overwrite
    }
}

/// Recovers a Cosmos key from a mnemonic and stores it under a name.
#[derive(Clone, Debug, Default, PartialEq, Eq)]
pub struct RecoverCosmosKeyCmd {
    /// The name of the key, and after it the mnemonic, which may be left
    /// out.
    pub args: Vec<String>,
    /// Whether a key of that name may be replaced.
    pub overwrite: bool,
}

impl RecoverCosmosKeyCmd {
    /// The name under which the key is stored: the first argument. The
    /// command cannot run without it.
    pub fn name(&self) -> (r: Option<&String>)
        ensures
            self.args@.len() >= 1 ==> r == Some(&self.args@[0]),
            self.args@.len() == 0 ==> r is None,
    {
        argument_at(&self.args, 0)
    }

    /// The mnemonic given on the command line: the second argument. Where
    /// there is none, the command asks for it on the terminal.
    pub fn mnemonic(&self) -> (r: Option<&String>)
        ensures
            self.args@.len() >= 2 ==> r == Some(&self.args@[1]),
            self.args@.len() < 2 ==> r is None,
    {
        argument_at(&self.args, 1)
    }

    /// Whether the command goes on to store the key, given whether the key
    /// store holds one of that name already: an existing key is kept unless
    /// the command was told to overwrite.
    pub fn may_store(&self, key_exists: bool) -> (go_on: bool)
        ensures
            go_on == (!key_exists || self.overwrite),
    {
        !key_exists || self.overwrite
    }
}

/// The configuration that the print command shows.
#[derive(Clone, Copy, Debug, PartialEq, Eq, Structural)]
pub enum ConfigSource {
    /// The configuration that the program starts with when it is given
    /// none.
    Default,
    /// The configuration that the program has loaded.
    Loaded,
}

/// Prints the configuration.
#[derive(Clone, Copy, Debug, Default, PartialEq, Eq)]
pub struct PrintConfigCmd {
    show_default: bool,
}

impl PrintConfigCmd {
    /// Whether the command shows the default configuration.
    pub closed spec fn shows_default(&self) -> bool {
        self.show_default
    }

    /// The command that shows the default configuration, or the loaded one.
    pub fn new(show_default: bool) -> (r: Self)
        ensures
            r.shows_default() == show_default,
    {
        PrintConfigCmd { show_default }
    }

    /// The configuration that the command prints.
    pub fn source(&self) -> (r: ConfigSource)
        ensures
            r == if self.shows_default() {
                ConfigSource::Default
            } else {
                ConfigSource::Loaded
            },
    {
        if self.show_default {
            ConfigSource::Default
        } else {
            ConfigSource::Loaded
        }
    }
}

} // verus!
