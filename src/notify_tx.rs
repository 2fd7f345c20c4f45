use vstd::prelude::*;
use crate::error::BLE_HS_EDONE;

verus! {

/// Host status: operation timed out.
pub const BLE_HS_ETIMEOUT: u32 = 13;

/// How a notification or indication ended.
#[derive(Clone, Copy, PartialEq, Eq, Structural, Debug)]
pub enum NotifyTxStatus {
    SuccessIndicate,
    SuccessNotify,
    ErrorIndicateDisabled,
    ErrorNotifyDisabled,
    ErrorGatt,
    ErrorNoClient,
    ErrorIndicateTimeout,
    ErrorIndicateFailure,
}

/// A notify-transmit event.
#[derive(Clone, Copy, Debug)]
pub struct NotifyTx {
    pub conn_handle: u16,
    pub attr_handle: u16,
    pub status: u32,
    pub indication: bool,
}

/// The outcome that a notify-transmit event reports.
pub open spec fn notify_tx_status(indication: bool, status: u32) -> NotifyTxStatus {
    if indication {
        if status == BLE_HS_EDONE {
            NotifyTxStatus::SuccessIndicate
        } else if status == BLE_HS_ETIMEOUT {
            NotifyTxStatus::ErrorIndicateTimeout
        } else {
            NotifyTxStatus::ErrorIndicateFailure
        }
    } else if status == 0 {
        NotifyTxStatus::SuccessNotify
    } else {
        NotifyTxStatus::ErrorGatt
    }
}

impl NotifyTx {
    /// An indication is confirmed when its status is "done", and timed out or failed
    /// otherwise; a notification succeeded when its status is 0.
    pub fn status(&self) -> (r: NotifyTxStatus)
        ensures
            r == notify_tx_status(self.indication, self.status),
    {
        if self.indication {
            if self.status == BLE_HS_EDONE {
                NotifyTxStatus::SuccessIndicate
            } else if self.status == BLE_HS_ETIMEOUT {
                NotifyTxStatus::ErrorIndicateTimeout
            } else {
                NotifyTxStatus::ErrorIndicateFailure
            }
        } else if self.status == 0 {
            NotifyTxStatus::SuccessNotify
        } else {
            NotifyTxStatus::ErrorGatt
        }
    }

    /// Whether the event ends an indication (so the connection's wait can be cleared):
    /// any indication status other than 0, which only reports the send.
    pub fn ends_indication(&self) -> (r: bool)
        ensures
            r == (self.indication && self.status != 0),
    {
        self.indication && self.status != 0
    }
}

} // verus!
