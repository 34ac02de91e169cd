//! A pure projection of the coordinator's state into a view description.
//!
//! The host's UI framework re-evaluates this projection after every state
//! mutation and applies the result to its widgets.  Keeping the projection a
//! plain function of the state keeps the coordinator itself agnostic of any
//! particular UI framework.

use vstd::prelude::*;
use crate::coordinator::{State, ViewState};

verus! {

/// What the window shows for a given state: the header title, which header
/// buttons are visible, which icon the devices button carries, and which
/// page of the content stack is on top.
pub struct ViewDescription {
    /// The header bar's title.
    pub title: &'static str,
    /// The "Back" button, shown everywhere but on the main view.
    pub back_visible: bool,
    /// The "Devices" button, shown on the main view only.
    pub devices_visible: bool,
    /// The devices button's icon name: it reflects the connection flag.
    pub devices_icon: &'static str,
    /// The "Open" button, shown while choosing a firmware bundle.
    pub open_visible: bool,
    /// The name of the content-stack page to show.
    pub page: &'static str,
}

impl State {
    /// Project this state into what the window should show.
    pub fn render(&self) -> (d: ViewDescription)
        ensures
            d.back_visible == (self.active_view != ViewState::Main),
            d.devices_visible == (self.active_view == ViewState::Main),
            d.open_visible == (self.active_view == ViewState::FileChooser),
            self.is_connected ==> d.devices_icon@ == "bluetooth-symbolic"@,
            !self.is_connected ==> d.devices_icon@ == "bluetooth-disconnected-symbolic"@,
            self.active_view == ViewState::Main ==> d.title@ == "WatchMate"@
                && d.page@ == "main_view"@,
            self.active_view == ViewState::Scan ==> d.title@ == "Devices"@
                && d.page@ == "scan_view"@,
            self.active_view == ViewState::FileChooser ==> d.title@ == "Choose DFU file"@
                && d.page@ == "file_view"@,
            self.active_view == ViewState::FirmwareUpdate ==> d.title@ == "Firmware Upgrade"@
                && d.page@ == "fwupd_view"@,
    {
        let title: &'static str = match self.active_view {
            ViewState::Main => "WatchMate",
            ViewState::Scan => "Devices",
            ViewState::FileChooser => "Choose DFU file",
            ViewState::FirmwareUpdate => "Firmware Upgrade",
        };
        let page: &'static str = match self.active_view {
            ViewState::Main => "main_view",
            ViewState::Scan => "scan_view",
            ViewState::FileChooser => "file_view",
            ViewState::FirmwareUpdate => "fwupd_view",
        };
        let devices_icon: &'static str = if self.is_connected {
            "bluetooth-symbolic"
        } else {
            "bluetooth-disconnected-symbolic"
        };
        let is_main = matches!(self.active_view, ViewState::Main);
        let is_chooser = matches!(self.active_view, ViewState::FileChooser);
        ViewDescription {
            title,
            back_visible: !is_main,
            devices_visible: is_main,
            devices_icon,
            open_visible: is_chooser,
            page,
        }
    }
}

} // verus!
