use vstd::prelude::*;

verus! {

/// Length in bytes of an encoded public key.
pub const PUBLICKEYBYTES: usize = 1952;

/// Length in bytes of an encoded secret key.
pub const SECRETKEYBYTES: usize = 4032;

/// Length in bytes of a signature.
pub const SIGNBYTES: usize = 3309;

/// Length in bytes of a key-generation seed.
pub const SEEDBYTES: usize = 32;

} // verus!
