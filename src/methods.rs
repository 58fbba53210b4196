//! The authentication methods that a remote declares acceptable.

use vstd::prelude::*;

verus! {

/// Bit of the transport's method mask: plaintext user name and password.
pub const PLAINTEXT_BIT: u32 = 1;

/// Bit of the transport's method mask: an SSH key.
pub const SSH_KEY_BIT: u32 = 2;

/// Bit of the transport's method mask: default (anonymous or negotiated) credentials.
pub const DEFAULT_BIT: u32 = 8;

/// Bit of the transport's method mask: a user name alone.
pub const USERNAME_BIT: u32 = 32;

/// The methods the remote will accept for the next authentication attempt.
#[derive(Clone, Copy, Debug, PartialEq, Eq, Structural)]
pub struct AllowedMethods {
    pub username_only: bool,
    pub ssh_key: bool,
    pub plaintext: bool,
    pub default: bool,
}

impl AllowedMethods {
    /// Reads the four methods this library knows out of a transport bit mask;
    /// other bits are disregarded.
    pub fn from_bits(bits: u32) -> (r: AllowedMethods)
        ensures
            r.username_only == (bits & USERNAME_BIT != 0),
            r.ssh_key == (bits & SSH_KEY_BIT != 0),
            r.plaintext == (bits & PLAINTEXT_BIT != 0),
            r.default == (bits & DEFAULT_BIT != 0),
    {
        AllowedMethods {
            username_only: bits & USERNAME_BIT != 0,
            ssh_key: bits & SSH_KEY_BIT != 0,
            plaintext: bits & PLAINTEXT_BIT != 0,
            default: bits & DEFAULT_BIT != 0,
        }
    }

    /// How many of the four known methods are accepted.
    pub open spec fn count_spec(self) -> nat {
        (if self.username_only { 1nat } else { 0nat }) + (if self.ssh_key { 1nat } else { 0nat })
            + (if self.plaintext { 1nat } else { 0nat }) + (if self.default { 1nat } else { 0nat })
    }

    /// Whether the transport may ask for another credential during one push,
    /// given how many it has asked for already: at most one per accepted method.
    pub fn may_attempt(&self, attempts_so_far: usize) -> (r: bool)
        ensures
            r == (attempts_so_far < self.count_spec()),
    {
        let mut n: usize = 0;
        if self.username_only {
            n = n + 1;
        }
        if self.ssh_key {
            n = n + 1;
        }
        if self.plaintext {
            n = n + 1;
        }
        if self.default {
            n = n + 1;
        }
        attempts_so_far < n
    }
}

} // verus!
