use vstd::prelude::*;
use crate::security::{BLESecurity, PAIR_KEY_DIST_ENC, PAIR_KEY_DIST_ID};

verus! {

/// The address type this device advertises and connects with.
#[derive(Clone, Copy, PartialEq, Eq, Structural, Debug)]
pub enum OwnAddrType {
    Public,
    Random,
    RpaPublicDefault,
    RpaRandomDefault,
}

/// Lifecycle of the host stack.
#[derive(Clone, Copy, PartialEq, Eq, Structural, Debug)]
pub enum StackState {
    Uninitialized,
    Initializing,
    Synced,
}

/// The device: stack lifecycle, security configuration and own address type.
#[derive(Debug)]
pub struct BLEDevice {
    state: StackState,
    security: BLESecurity,
    own_addr_type: OwnAddrType,
    use_nrpa: bool,
}

impl BLEDevice {
    pub closed spec fn spec_state(&self) -> StackState {
        self.state
    }

    pub closed spec fn spec_security(&self) -> BLESecurity {
        self.security
    }

    pub closed spec fn spec_own_addr_type(&self) -> OwnAddrType {
        self.own_addr_type
    }

    pub closed spec fn spec_use_nrpa(&self) -> bool {
        self.use_nrpa
    }

    /// A device whose stack is not initialized, with a public address.
    pub fn new() -> (r: BLEDevice)
        ensures
            r.spec_state() == StackState::Uninitialized,
            r.spec_own_addr_type() == OwnAddrType::Public,
            !r.spec_use_nrpa(),
    {
        BLEDevice {
            state: StackState::Uninitialized,
            security: BLESecurity::new(),
            own_addr_type: OwnAddrType::Public,
            use_nrpa: false,
        }
    }

    /// The stack's lifecycle state.
    pub fn state(&self) -> (r: StackState)
        ensures
            r == self.spec_state(),
    {
        self.state
    }

    /// Starts initialization; returns false (and changes nothing) unless uninitialized.
    pub fn begin_init(&mut self) -> (r: bool)
        ensures
            r == (old(self).spec_state() == StackState::Uninitialized),
            r ==> final(self).spec_state() == StackState::Initializing,
            !r ==> final(self).spec_state() == old(self).spec_state(),
            final(self).spec_security() == old(self).spec_security(),
            final(self).spec_own_addr_type() == old(self).spec_own_addr_type(),
    {
        if self.state == StackState::Uninitialized {
            self.state = StackState::Initializing;
            true
        } else {
            false
        }
    }

    /// The stack reported that it is synced with the controller.
    pub fn on_sync(&mut self)
        ensures
            old(self).spec_state() == StackState::Initializing ==> final(self).spec_state()
                == StackState::Synced,
            old(self).spec_state() != StackState::Initializing ==> final(self).spec_state()
                == old(self).spec_state(),
            final(self).spec_security() == old(self).spec_security(),
            final(self).spec_own_addr_type() == old(self).spec_own_addr_type(),
    {
        if self.state == StackState::Initializing {
            self.state = StackState::Synced;
        }
    }

    /// Shuts the stack down: back to uninitialized, configuration kept.
    pub fn deinit(&mut self)
        ensures
            final(self).spec_state() == StackState::Uninitialized,
            final(self).spec_security() == old(self).spec_security(),
            final(self).spec_own_addr_type() == old(self).spec_own_addr_type(),
    {
        self.state = StackState::Uninitialized;
    }

    /// The security configuration, to change.
    pub fn security(&mut self) -> (r: &mut BLESecurity)
        ensures
            *r == old(self).spec_security(),
    {
        &mut self.security
    }

    /// The own address type.
    pub fn own_addr_type(&self) -> (r: OwnAddrType)
        ensures
            r == self.spec_own_addr_type(),
    {
        self.own_addr_type
    }

    fn set_own_addr_type_inner(&mut self, own_addr_type: OwnAddrType, use_nrpa: bool)
        ensures
            final(self).spec_security().spec_passkey() == old(self).spec_security().spec_passkey(),
            final(self).spec_security().spec_bonding() == old(self).spec_security().spec_bonding(),
            final(self).spec_security().spec_mitm() == old(self).spec_security().spec_mitm(),
            final(self).spec_security().spec_secure_connections() == old(self).spec_security().spec_secure_connections(),
            final(self).spec_security().spec_io_cap() == old(self).spec_security().spec_io_cap(),
            final(self).spec_own_addr_type() == own_addr_type,
            final(self).spec_state() == old(self).spec_state(),
            final(self).spec_use_nrpa() == (own_addr_type == OwnAddrType::Random && use_nrpa),
            own_addr_type == OwnAddrType::Random || own_addr_type == OwnAddrType::RpaPublicDefault
                || own_addr_type == OwnAddrType::RpaRandomDefault ==> final(self).spec_security().spec_our_key_dist() == PAIR_KEY_DIST_ENC | PAIR_KEY_DIST_ID && final(self).spec_security().spec_their_key_dist() == PAIR_KEY_DIST_ENC | PAIR_KEY_DIST_ID,
            own_addr_type == OwnAddrType::Public ==> final(self).spec_security() == old(self).spec_security(),
    {
        self.own_addr_type = own_addr_type;
        match own_addr_type {
            OwnAddrType::Public => {
                self.use_nrpa = false;
            },
            OwnAddrType::Random => {
                self.security.resolve_rpa();
                self.use_nrpa = use_nrpa;
            },
            _ => {
                self.security.resolve_rpa();
                self.use_nrpa = false;
            },
        }
    }

    /// Sets the own address type; a random or private one also widens key distribution to
    /// identity keys.
    pub fn set_own_addr_type(&mut self, own_addr_type: OwnAddrType)
        ensures
            final(self).spec_security().spec_passkey() == old(self).spec_security().spec_passkey(),
            final(self).spec_security().spec_bonding() == old(self).spec_security().spec_bonding(),
            final(self).spec_security().spec_mitm() == old(self).spec_security().spec_mitm(),
            final(self).spec_security().spec_secure_connections() == old(self).spec_security().spec_secure_connections(),
            final(self).spec_security().spec_io_cap() == old(self).spec_security().spec_io_cap(),
            final(self).spec_own_addr_type() == own_addr_type,
            final(self).spec_state() == old(self).spec_state(),
            !final(self).spec_use_nrpa(),
            own_addr_type != OwnAddrType::Public ==> final(self).spec_security().spec_our_key_dist()
                == PAIR_KEY_DIST_ENC | PAIR_KEY_DIST_ID && final(self).spec_security().spec_their_key_dist() == PAIR_KEY_DIST_ENC | PAIR_KEY_DIST_ID,
            own_addr_type == OwnAddrType::Public ==> final(self).spec_security() == old(self).spec_security(),
    {
        self.set_own_addr_type_inner(own_addr_type, false);
    }

    /// Uses a non-resolvable random address.
    pub fn set_own_addr_type_to_non_resolvable_random(&mut self)
        ensures
            final(self).spec_security().spec_passkey() == old(self).spec_security().spec_passkey(),
            final(self).spec_security().spec_bonding() == old(self).spec_security().spec_bonding(),
            final(self).spec_security().spec_mitm() == old(self).spec_security().spec_mitm(),
            final(self).spec_security().spec_secure_connections() == old(self).spec_security().spec_secure_connections(),
            final(self).spec_security().spec_io_cap() == old(self).spec_security().spec_io_cap(),
            final(self).spec_own_addr_type() == OwnAddrType::Random,
            final(self).spec_use_nrpa(),
            final(self).spec_state() == old(self).spec_state(),
            final(self).spec_security().spec_our_key_dist() == PAIR_KEY_DIST_ENC | PAIR_KEY_DIST_ID,
            final(self).spec_security().spec_their_key_dist() == PAIR_KEY_DIST_ENC | PAIR_KEY_DIST_ID,
    {
        self.set_own_addr_type_inner(OwnAddrType::Random, true);
    }
}

} // verus!
