//! The kinds of namespace, with the flag bit that `clone(2)` and `setns(2)`
//! use for each of them.
use vstd::prelude::*;

verus! {

/// A namespace kind. Every kind but `NSTYPE_ANY` owns one bit of a `u8`;
/// `NSTYPE_ANY` is the empty set of bits.
#[allow(non_camel_case_types)]
#[derive(Clone, Copy, Debug, PartialEq, Eq, Structural)]
pub enum NSType {
    NSTYPE_ANY,
    CLONE_NEWCGROUP,
    CLONE_NEWIPC,
    CLONE_NEWNET,
    CLONE_NEWNS,
    CLONE_NEWPID,
    CLONE_NEWTIME,
    CLONE_NEWUSER,
    CLONE_NEWUTS,
}

/// The flag bits of a kind.
pub open spec fn ns_type_bits(t: NSType) -> u8 {
    match t {
        NSType::NSTYPE_ANY => 0,
        NSType::CLONE_NEWCGROUP => 1,
        NSType::CLONE_NEWIPC => 2,
        NSType::CLONE_NEWNET => 4,
        NSType::CLONE_NEWNS => 8,
        NSType::CLONE_NEWPID => 16,
        NSType::CLONE_NEWTIME => 32,
        NSType::CLONE_NEWUSER => 64,
        NSType::CLONE_NEWUTS => 128,
    }
}

/// The kind whose flag bits are `bits`, if there is one.
pub open spec fn ns_type_from_bits(bits: u8) -> Option<NSType> {
    if bits == 0 {
        Some(NSType::NSTYPE_ANY)
    } else if bits == 1 {
        Some(NSType::CLONE_NEWCGROUP)
    } else if bits == 2 {
        Some(NSType::CLONE_NEWIPC)
    } else if bits == 4 {
        Some(NSType::CLONE_NEWNET)
    } else if bits == 8 {
        Some(NSType::CLONE_NEWNS)
    } else if bits == 16 {
        Some(NSType::CLONE_NEWPID)
    } else if bits == 32 {
        Some(NSType::CLONE_NEWTIME)
    } else if bits == 64 {
        Some(NSType::CLONE_NEWUSER)
    } else if bits == 128 {
        Some(NSType::CLONE_NEWUTS)
    } else {
        None
    }
}

impl NSType {
    /// The flag bits of this kind.
    pub fn bits(&self) -> (r: u8)
        ensures
            r == ns_type_bits(*self),
    {
        match self {
            NSType::NSTYPE_ANY => 0,
            NSType::CLONE_NEWCGROUP => 1,
            NSType::CLONE_NEWIPC => 2,
            NSType::CLONE_NEWNET => 4,
            NSType::CLONE_NEWNS => 8,
            NSType::CLONE_NEWPID => 16,
            NSType::CLONE_NEWTIME => 32,
            NSType::CLONE_NEWUSER => 64,
            NSType::CLONE_NEWUTS => 128,
        }
    }

    /// The kind whose flag bits are exactly `bits`; `None` for any other
    /// value, such as a union of several flags.
    pub fn from_bits(bits: u8) -> (r: Option<NSType>)
        ensures
            r == ns_type_from_bits(bits),
    {
        if bits == 0 {
            Some(NSType::NSTYPE_ANY)
        } else if bits == 1 {
            Some(NSType::CLONE_NEWCGROUP)
        } else if bits == 2 {
            Some(NSType::CLONE_NEWIPC)
        } else if bits == 4 {
            Some(NSType::CLONE_NEWNET)
        } else if bits == 8 {
            Some(NSType::CLONE_NEWNS)
        } else if bits == 16 {
            Some(NSType::CLONE_NEWPID)
        } else if bits == 32 {
            Some(NSType::CLONE_NEWTIME)
        } else if bits == 64 {
            Some(NSType::CLONE_NEWUSER)
        } else if bits == 128 {
            Some(NSType::CLONE_NEWUTS)
        } else {
            None
        }
    }
}

/// Reading a kind back from its flag bits gives the same kind, so distinct
/// kinds have distinct bits.
pub proof fn lemma_ns_type_bits_roundtrip(t: NSType)
    ensures
        ns_type_from_bits(ns_type_bits(t)) == Some(t),
{
}

/// A value that some kind reads back from is that kind's bits.
pub proof fn lemma_ns_type_from_bits_exact(bits: u8)
    ensures
        ns_type_from_bits(bits) matches Some(t) ==> ns_type_bits(t) == bits,
{
}

} // verus!
