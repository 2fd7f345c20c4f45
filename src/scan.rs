use vstd::prelude::*;
use crate::error::{BLEError, BLE_HS_EALREADY};

verus! {

/// Scan filter policy: accept all advertisements (no white list).
pub const SCAN_FILT_NO_WL: u8 = 0;

/// A time in milliseconds as a count of 0.625 ms units, saturated at the largest `u16`.
pub open spec fn ms_to_units(ms: u16) -> u16 {
    let u = (ms as int * 8) / 5;
    if u > 65535 {
        65535
    } else {
        u as u16
    }
}

/// Scan parameters and the state of the current discovery session.
#[derive(Debug)]
pub struct BLEScan {
    passive: bool,
    filter_duplicates: bool,
    limited: bool,
    filter_policy: u8,
    itvl: u16,
    window: u16,
    resolved: bool,
}

/// What to do after the application's callback looked at one advertisement.
#[derive(Clone, Copy, PartialEq, Eq, Structural, Debug)]
pub enum ScanAction {
    /// Keep scanning.
    Continue,
    /// Stop the discovery and release the waiting task with the callback's result.
    StopWithResult,
    /// The session is already over: ignore the advertisement.
    Ignore,
}

fn ms_to_units_exec(ms: u16) -> (r: u16)
    ensures
        r == ms_to_units(ms),
{
    let u: u32 = (ms as u32 * 8) / 5;
    if u > 65535 {
        65535
    } else {
        u as u16
    }
}

impl BLEScan {
    pub closed spec fn spec_passive(&self) -> bool {
        self.passive
    }

    pub closed spec fn spec_filter_duplicates(&self) -> bool {
        self.filter_duplicates
    }

    pub closed spec fn spec_limited(&self) -> bool {
        self.limited
    }

    pub closed spec fn spec_filter_policy(&self) -> u8 {
        self.filter_policy
    }

    pub closed spec fn spec_interval(&self) -> u16 {
        self.itvl
    }

    pub closed spec fn spec_window(&self) -> u16 {
        self.window
    }

    pub closed spec fn spec_resolved(&self) -> bool {
        self.resolved
    }

    /// Passive scanning, duplicates filtered, not limited, no white list, interval and
    /// window of 100 ms.
    pub fn new() -> (r: BLEScan)
        ensures
            r.spec_passive(),
            r.spec_filter_duplicates(),
            !r.spec_limited(),
            r.spec_filter_policy() == SCAN_FILT_NO_WL,
            r.spec_interval() == ms_to_units(100),
            r.spec_window() == ms_to_units(100),
            !r.spec_resolved(),
    {
        BLEScan {
            passive: true,
            filter_duplicates: true,
            limited: false,
            filter_policy: SCAN_FILT_NO_WL,
            itvl: ms_to_units_exec(100),
            window: ms_to_units_exec(100),
            resolved: false,
        }
    }

    /// Active scanning asks for scan responses; passive does not.
    pub fn active_scan(&mut self, active: bool)
        ensures
            final(self).spec_passive() == !active,
            final(self).spec_interval() == old(self).spec_interval(),
            final(self).spec_window() == old(self).spec_window(),
            final(self).spec_resolved() == old(self).spec_resolved(),
    {
        self.passive = !active;
    }

    /// Whether the controller drops duplicate advertisements.
    pub fn filter_duplicates(&mut self, val: bool)
        ensures
            final(self).spec_filter_duplicates() == val,
            final(self).spec_passive() == old(self).spec_passive(),
            final(self).spec_resolved() == old(self).spec_resolved(),
    {
        self.filter_duplicates = val;
    }

    /// Whether only devices in limited discoverable mode are reported.
    pub fn limited(&mut self, val: bool)
        ensures
            final(self).spec_limited() == val,
            final(self).spec_passive() == old(self).spec_passive(),
            final(self).spec_resolved() == old(self).spec_resolved(),
    {
        self.limited = val;
    }

    /// The scan filter policy.
    pub fn filter_policy(&mut self, val: u8)
        ensures
            final(self).spec_filter_policy() == val,
            final(self).spec_passive() == old(self).spec_passive(),
            final(self).spec_resolved() == old(self).spec_resolved(),
    {
        self.filter_policy = val;
    }

    /// The scan interval, given in milliseconds.
    pub fn interval(&mut self, interval_msecs: u16)
        ensures
            final(self).spec_interval() == ms_to_units(interval_msecs),
            final(self).spec_window() == old(self).spec_window(),
            final(self).spec_passive() == old(self).spec_passive(),
            final(self).spec_resolved() == old(self).spec_resolved(),
    {
        self.itvl = ms_to_units_exec(interval_msecs);
    }

    /// The scan window, given in milliseconds.
    pub fn window(&mut self, window_msecs: u16)
        ensures
            final(self).spec_window() == ms_to_units(window_msecs),
            final(self).spec_interval() == old(self).spec_interval(),
            final(self).spec_passive() == old(self).spec_passive(),
            final(self).spec_resolved() == old(self).spec_resolved(),
    {
        self.window = ms_to_units_exec(window_msecs);
    }

    /// The interval in 0.625 ms units.
    pub fn interval_units(&self) -> (r: u16)
        ensures
            r == self.spec_interval(),
    {
        self.itvl
    }

    /// The window in 0.625 ms units.
    pub fn window_units(&self) -> (r: u16)
        ensures
            r == self.spec_window(),
    {
        self.window
    }

    /// Whether scanning is passive.
    pub fn is_passive(&self) -> (r: bool)
        ensures
            r == self.spec_passive(),
    {
        self.passive
    }

    /// Starts a discovery session.
    pub fn begin_session(&mut self)
        ensures
            !final(self).spec_resolved(),
            final(self).spec_passive() == old(self).spec_passive(),
            final(self).spec_interval() == old(self).spec_interval(),
            final(self).spec_window() == old(self).spec_window(),
    {
        self.resolved = false;
    }

    /// The application's callback looked at one advertisement and found (or not) what it
    /// wanted. The first match ends the session; later results are ignored.
    pub fn on_result(&mut self, matched: bool) -> (r: ScanAction)
        ensures
            old(self).spec_resolved() ==> r == ScanAction::Ignore && final(self).spec_resolved(),
            !old(self).spec_resolved() && matched ==> r == ScanAction::StopWithResult && final(self).spec_resolved(),
            !old(self).spec_resolved() && !matched ==> r == ScanAction::Continue && !final(self).spec_resolved(),
            final(self).spec_passive() == old(self).spec_passive(),
            final(self).spec_interval() == old(self).spec_interval(),
            final(self).spec_window() == old(self).spec_window(),
    {
        if self.resolved {
            ScanAction::Ignore
        } else if matched {
            self.resolved = true;
            ScanAction::StopWithResult
        } else {
            ScanAction::Continue
        }
    }

    /// The discovery ran out its duration: the session ends with no result. Returns
    /// whether the waiting task is still to be released.
    pub fn on_discovery_complete(&mut self) -> (r: bool)
        ensures
            r == !old(self).spec_resolved(),
            final(self).spec_resolved(),
            final(self).spec_passive() == old(self).spec_passive(),
            final(self).spec_interval() == old(self).spec_interval(),
            final(self).spec_window() == old(self).spec_window(),
    {
        let r = !self.resolved;
        self.resolved = true;
        r
    }
}

/// The result of cancelling a discovery: "already" (nothing running) counts as success.
pub fn stop_result(rc: u32) -> (r: Result<(), BLEError>)
    ensures
        (rc == 0 || rc == BLE_HS_EALREADY) ==> r is Ok,
        rc != 0 && rc != BLE_HS_EALREADY ==> r == BLEError::convert_spec(rc),
{
    if rc != 0 && rc != BLE_HS_EALREADY {
        return BLEError::convert(rc);
    }
    Ok(())
}

} // verus!
