use vstd::prelude::*;
use crate::error::{BLE_ERR_PINKEY_MISSING, BLE_HS_ERR_HCI_BASE};

verus! {

/// Authentication requirement: bonding.
pub const AUTH_REQ_BOND: u8 = 0b001;
/// Authentication requirement: man-in-the-middle protection.
pub const AUTH_REQ_MITM: u8 = 0b010;
/// Authentication requirement: secure connections.
pub const AUTH_REQ_SC: u8 = 0b100;

/// Key distribution: encryption key.
pub const PAIR_KEY_DIST_ENC: u8 = 0x01;
/// Key distribution: identity key.
pub const PAIR_KEY_DIST_ID: u8 = 0x02;
/// Key distribution: signing key.
pub const PAIR_KEY_DIST_SIGN: u8 = 0x04;
/// Key distribution: link key.
pub const PAIR_KEY_DIST_LINK: u8 = 0x08;

/// Passkey action requested by the security manager: none.
pub const IOACT_NONE: u8 = 0;
/// Passkey action: out-of-band data.
pub const IOACT_OOB: u8 = 1;
/// Passkey action: the user types a passkey.
pub const IOACT_INPUT: u8 = 2;
/// Passkey action: display a passkey.
pub const IOACT_DISP: u8 = 3;
/// Passkey action: numeric comparison.
pub const IOACT_NUMCMP: u8 = 4;

/// Answer to a repeat-pairing event: keep the old bond and refuse.
pub const REPEAT_PAIRING_IGNORE: u8 = 0;
/// Answer to a repeat-pairing event: the old bond was deleted, pair again.
pub const REPEAT_PAIRING_RETRY: u8 = 1;

/// The largest passkey: six decimal digits.
pub const MAX_PASSKEY: u32 = 999999;

/// Input/output capabilities of this device.
#[derive(Clone, Copy, PartialEq, Eq, Structural, Debug)]
pub enum SecurityIOCap {
    DisplayOnly,
    DisplayYesNo,
    KeyboardOnly,
    NoInputNoOutput,
    KeyboardDisplay,
}

/// Pairing and bonding configuration.
#[derive(Clone, Copy, Debug)]
pub struct BLESecurity {
    bonding: bool,
    mitm: bool,
    secure_connections: bool,
    io_cap: SecurityIOCap,
    our_key_dist: u8,
    their_key_dist: u8,
    passkey: u32,
}

impl BLESecurity {
    pub closed spec fn spec_bonding(&self) -> bool {
        self.bonding
    }

    pub closed spec fn spec_mitm(&self) -> bool {
        self.mitm
    }

    pub closed spec fn spec_secure_connections(&self) -> bool {
        self.secure_connections
    }

    pub closed spec fn spec_io_cap(&self) -> SecurityIOCap {
        self.io_cap
    }

    pub closed spec fn spec_our_key_dist(&self) -> u8 {
        self.our_key_dist
    }

    pub closed spec fn spec_their_key_dist(&self) -> u8 {
        self.their_key_dist
    }

    pub closed spec fn spec_passkey(&self) -> u32 {
        self.passkey
    }

    /// The configuration the stack starts with: no bonding, no MITM protection, secure
    /// connections, no input or output, the encryption key distributed by us and the
    /// encryption and identity keys accepted from the peer, passkey 000000.
    pub fn new() -> (r: BLESecurity)
        ensures
            !r.spec_bonding() && !r.spec_mitm() && r.spec_secure_connections(),
            r.spec_io_cap() == SecurityIOCap::NoInputNoOutput,
            r.spec_our_key_dist() == PAIR_KEY_DIST_ENC,
            r.spec_their_key_dist() == PAIR_KEY_DIST_ENC | PAIR_KEY_DIST_ID,
            r.spec_passkey() == 0,
    {
        BLESecurity {
            bonding: false,
            mitm: false,
            secure_connections: true,
            io_cap: SecurityIOCap::NoInputNoOutput,
            our_key_dist: PAIR_KEY_DIST_ENC,
            their_key_dist: PAIR_KEY_DIST_ENC | PAIR_KEY_DIST_ID,
            passkey: 0,
        }
    }

    /// Sets bonding, MITM protection and secure connections from authentication bits.
    pub fn set_auth(&mut self, auth_req: u8)
        ensures
            final(self).spec_bonding() == (auth_req & AUTH_REQ_BOND != 0),
            final(self).spec_mitm() == (auth_req & AUTH_REQ_MITM != 0),
            final(self).spec_secure_connections() == (auth_req & AUTH_REQ_SC != 0),
            final(self).spec_io_cap() == old(self).spec_io_cap(),
            final(self).spec_our_key_dist() == old(self).spec_our_key_dist(),
            final(self).spec_their_key_dist() == old(self).spec_their_key_dist(),
            final(self).spec_passkey() == old(self).spec_passkey(),
    {
        self.bonding = auth_req & AUTH_REQ_BOND != 0;
        self.mitm = auth_req & AUTH_REQ_MITM != 0;
        self.secure_connections = auth_req & AUTH_REQ_SC != 0;
    }

    pub fn bonding(&self) -> (r: bool)
        ensures
            r == self.spec_bonding(),
    {
        self.bonding
    }

    pub fn mitm(&self) -> (r: bool)
        ensures
            r == self.spec_mitm(),
    {
        self.mitm
    }

    pub fn secure_connections(&self) -> (r: bool)
        ensures
            r == self.spec_secure_connections(),
    {
        self.secure_connections
    }

    pub fn io_cap(&self) -> (r: SecurityIOCap)
        ensures
            r == self.spec_io_cap(),
    {
        self.io_cap
    }

    pub fn our_key_dist(&self) -> (r: u8)
        ensures
            r == self.spec_our_key_dist(),
    {
        self.our_key_dist
    }

    pub fn their_key_dist(&self) -> (r: u8)
        ensures
            r == self.spec_their_key_dist(),
    {
        self.their_key_dist
    }

    /// The static passkey used for pairing.
    pub fn get_passkey(&self) -> (r: u32)
        ensures
            r == self.spec_passkey(),
    {
        self.passkey
    }

    /// Sets the static passkey; it is always shown as six digits (1234 is `001234`).
    pub fn set_passkey(&mut self, passkey: u32)
        requires
            passkey <= MAX_PASSKEY,
        ensures
            final(self).spec_passkey() == passkey,
            final(self).spec_bonding() == old(self).spec_bonding(),
            final(self).spec_mitm() == old(self).spec_mitm(),
            final(self).spec_secure_connections() == old(self).spec_secure_connections(),
            final(self).spec_io_cap() == old(self).spec_io_cap(),
            final(self).spec_our_key_dist() == old(self).spec_our_key_dist(),
            final(self).spec_their_key_dist() == old(self).spec_their_key_dist(),
    {
        self.passkey = passkey;
    }

    /// Sets the input/output capabilities.
    pub fn set_io_cap(&mut self, iocap: SecurityIOCap)
        ensures
            final(self).spec_io_cap() == iocap,
            final(self).spec_bonding() == old(self).spec_bonding(),
            final(self).spec_mitm() == old(self).spec_mitm(),
            final(self).spec_secure_connections() == old(self).spec_secure_connections(),
            final(self).spec_our_key_dist() == old(self).spec_our_key_dist(),
            final(self).spec_their_key_dist() == old(self).spec_their_key_dist(),
            final(self).spec_passkey() == old(self).spec_passkey(),
    {
        self.io_cap = iocap;
    }

    /// Sets the keys distributed when this device initiates pairing.
    pub fn set_security_init_key(&mut self, init_key: u8)
        ensures
            final(self).spec_our_key_dist() == init_key,
            final(self).spec_their_key_dist() == old(self).spec_their_key_dist(),
            final(self).spec_bonding() == old(self).spec_bonding(),
            final(self).spec_mitm() == old(self).spec_mitm(),
            final(self).spec_secure_connections() == old(self).spec_secure_connections(),
            final(self).spec_io_cap() == old(self).spec_io_cap(),
            final(self).spec_passkey() == old(self).spec_passkey(),
    {
        self.our_key_dist = init_key;
    }

    /// Sets the keys accepted from the peer.
    pub fn set_security_resp_key(&mut self, resp_key: u8)
        ensures
            final(self).spec_their_key_dist() == resp_key,
            final(self).spec_our_key_dist() == old(self).spec_our_key_dist(),
            final(self).spec_bonding() == old(self).spec_bonding(),
            final(self).spec_mitm() == old(self).spec_mitm(),
            final(self).spec_secure_connections() == old(self).spec_secure_connections(),
            final(self).spec_io_cap() == old(self).spec_io_cap(),
            final(self).spec_passkey() == old(self).spec_passkey(),
    {
        self.their_key_dist = resp_key;
    }

    /// Sets up pairing with resolvable private addresses: both sides distribute the
    /// encryption and identity keys.
    pub fn resolve_rpa(&mut self)
        ensures
            final(self).spec_our_key_dist() == PAIR_KEY_DIST_ENC | PAIR_KEY_DIST_ID,
            final(self).spec_their_key_dist() == PAIR_KEY_DIST_ENC | PAIR_KEY_DIST_ID,
            final(self).spec_bonding() == old(self).spec_bonding(),
            final(self).spec_mitm() == old(self).spec_mitm(),
            final(self).spec_secure_connections() == old(self).spec_secure_connections(),
            final(self).spec_io_cap() == old(self).spec_io_cap(),
            final(self).spec_passkey() == old(self).spec_passkey(),
    {
        self.set_security_init_key(PAIR_KEY_DIST_ENC | PAIR_KEY_DIST_ID);
        self.set_security_resp_key(PAIR_KEY_DIST_ENC | PAIR_KEY_DIST_ID);
    }
}

/// What to inject into the security manager for a passkey action.
#[derive(Clone, Copy, PartialEq, Eq, Structural, Debug)]
pub enum PasskeyResponse {
    /// Nothing to inject.
    NoAction,
    /// Inject this passkey.
    Passkey(u32),
    /// Inject whether the compared numbers match.
    NumericAccept(bool),
    /// An action this library does not handle.
    Unsupported(u8),
}

/// Answers a passkey action. `requested` is what the application's passkey callback
/// returned, `confirmed` what its comparison callback returned, each `None` when the
/// application has none. A displayed passkey falls back to the static one; a missing
/// comparison callback rejects; a missing passkey callback for typed input injects 0.
pub fn passkey_response(action: u8, requested: Option<u32>, confirmed: Option<bool>, static_passkey: u32) -> (r:
    PasskeyResponse)
    ensures
        action == IOACT_DISP ==> r == PasskeyResponse::Passkey(
            match requested {
                Some(p) => p,
                None => static_passkey,
            },
        ),
        action == IOACT_NUMCMP ==> r == PasskeyResponse::NumericAccept(
            match confirmed {
                Some(c) => c,
                None => false,
            },
        ),
        action == IOACT_INPUT ==> r == PasskeyResponse::Passkey(
            match requested {
                Some(p) => p,
                None => 0,
            },
        ),
        action == IOACT_NONE ==> r == PasskeyResponse::NoAction,
        action != IOACT_DISP && action != IOACT_NUMCMP && action != IOACT_INPUT && action
            != IOACT_NONE ==> r == PasskeyResponse::Unsupported(action),
{
    if action == IOACT_DISP {
        match requested {
            Some(p) => PasskeyResponse::Passkey(p),
            None => PasskeyResponse::Passkey(static_passkey),
        }
    } else if action == IOACT_NUMCMP {
        match confirmed {
            Some(c) => PasskeyResponse::NumericAccept(c),
            None => PasskeyResponse::NumericAccept(false),
        }
    } else if action == IOACT_INPUT {
        match requested {
            Some(p) => PasskeyResponse::Passkey(p),
            None => PasskeyResponse::Passkey(0),
        }
    } else if action == IOACT_NONE {
        PasskeyResponse::NoAction
    } else {
        PasskeyResponse::Unsupported(action)
    }
}

/// Answers a repeat-pairing event: with the connection still known, its old bond is to be
/// deleted and pairing retried; otherwise the event is ignored.
pub fn repeat_pairing_response(conn_known: bool) -> (r: u8)
    ensures
        r == (if conn_known {
            REPEAT_PAIRING_RETRY
        } else {
            REPEAT_PAIRING_IGNORE
        }),
{
    if conn_known {
        REPEAT_PAIRING_RETRY
    } else {
        REPEAT_PAIRING_IGNORE
    }
}

/// Whether an encryption-change status means the peer lost its bond ("PIN or key
/// missing"), so that the stale bond is to be deleted.
pub fn enc_change_needs_bond_delete(status: u32) -> (r: bool)
    ensures
        r == (status == BLE_HS_ERR_HCI_BASE + BLE_ERR_PINKEY_MISSING),
{
    status == BLE_HS_ERR_HCI_BASE + BLE_ERR_PINKEY_MISSING
}

} // verus!
