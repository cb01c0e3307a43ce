//! Decoding of a characteristic's raw property bitmask.
//!
//! The bit of each capability is the one that GATT assigns to it. Bits that
//! stand for nothing here are ignored.

use vstd::prelude::*;

verus! {

/// The characteristic's value may be broadcast.
pub const PROPERTY_BROADCAST: i32 = 0x01;

/// The characteristic's value may be read.
pub const PROPERTY_READ: i32 = 0x02;

/// The characteristic's value may be written.
pub const PROPERTY_WRITE: i32 = 0x08;

/// The device may push the value without asking for an acknowledgement.
pub const PROPERTY_NOTIFY: i32 = 0x10;

/// The device may push the value and ask for an acknowledgement.
pub const PROPERTY_INDICATE: i32 = 0x20;

/// What a characteristic can do, as its bitmask declares it.
#[derive(Debug, Clone, Copy, PartialEq, Eq, Structural)]
pub struct Properties {
    pub read: bool,
    pub write: bool,
    pub notify: bool,
    pub indicate: bool,
    pub broadcast: bool,
}

impl Properties {
    /// The capabilities that `mask` declares: each one is there exactly if
    /// its bit is set.
    pub open spec fn spec_from_mask(mask: i32) -> Properties {
        Properties {
            read: mask & PROPERTY_READ != 0,
            write: mask & PROPERTY_WRITE != 0,
            notify: mask & PROPERTY_NOTIFY != 0,
            indicate: mask & PROPERTY_INDICATE != 0,
            broadcast: mask & PROPERTY_BROADCAST != 0,
        }
    }

    /// The bitmask that declares these capabilities and nothing else.
    pub open spec fn spec_mask(self) -> i32 {
        (if self.broadcast {
            PROPERTY_BROADCAST
        } else {
            0i32
        }) | (if self.read {
            PROPERTY_READ
        } else {
            0i32
        }) | (if self.write {
            PROPERTY_WRITE
        } else {
            0i32
        }) | (if self.notify {
            PROPERTY_NOTIFY
        } else {
            0i32
        }) | (if self.indicate {
            PROPERTY_INDICATE
        } else {
            0i32
        })
    }

    /// Decodes a raw property bitmask.
    pub fn from_mask(mask: i32) -> (flags: Properties)
        ensures
            flags == Properties::spec_from_mask(mask),
    {
        Properties {
            read: mask & PROPERTY_READ != 0,
            write: mask & PROPERTY_WRITE != 0,
            notify: mask & PROPERTY_NOTIFY != 0,
            indicate: mask & PROPERTY_INDICATE != 0,
            broadcast: mask & PROPERTY_BROADCAST != 0,
        }
    }
}

/// Decoding what was decoded changes nothing: the bitmask of the decoded
/// capabilities declares these same capabilities.
pub proof fn lemma_decoding_is_idempotent(mask: i32)
    ensures
        Properties::spec_from_mask(Properties::spec_from_mask(mask).spec_mask())
            == Properties::spec_from_mask(mask),
{
    let flags = Properties::spec_from_mask(mask);
    lemma_mask_declares(flags);
}

/// The bitmask of some capabilities declares exactly these.
pub proof fn lemma_mask_declares(flags: Properties)
    ensures
        Properties::spec_from_mask(flags.spec_mask()) == flags,
{
    let b = flags.broadcast;
    let r = flags.read;
    let w = flags.write;
    let n = flags.notify;
    let i = flags.indicate;
    let m = (if b { 0x01i32 } else { 0i32 }) | (if r { 0x02i32 } else { 0i32 }) | (if w {
        0x08i32
    } else {
        0i32
    }) | (if n { 0x10i32 } else { 0i32 }) | (if i { 0x20i32 } else { 0i32 });
    assert(flags.spec_mask() == m);
    assert((m & 0x01i32 != 0) == b && (m & 0x02i32 != 0) == r && (m & 0x08i32 != 0) == w && (m
        & 0x10i32 != 0) == n && (m & 0x20i32 != 0) == i) by (bit_vector)
        requires
            m == (if b { 0x01i32 } else { 0i32 }) | (if r { 0x02i32 } else { 0i32 }) | (if w {
                0x08i32
            } else {
                0i32
            }) | (if n { 0x10i32 } else { 0i32 }) | (if i { 0x20i32 } else { 0i32 }),
    ;
}

/// Bits that stand for no capability do not matter.
pub proof fn lemma_unknown_bits_are_ignored(mask: i32, other: i32)
    requires
        mask & 0x3b == other & 0x3b,
    ensures
        Properties::spec_from_mask(mask) == Properties::spec_from_mask(other),
{
    assert((mask & 0x01i32 != 0) == (other & 0x01i32 != 0) && (mask & 0x02i32 != 0) == (other
        & 0x02i32 != 0) && (mask & 0x08i32 != 0) == (other & 0x08i32 != 0) && (mask & 0x10i32
        != 0) == (other & 0x10i32 != 0) && (mask & 0x20i32 != 0) == (other & 0x20i32 != 0))
        by (bit_vector)
        requires
            mask & 0x3bi32 == other & 0x3bi32,
    ;
}

} // verus!
