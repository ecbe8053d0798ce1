//! What a tray shows for each message from the event loop.

use crate::event::{identifiers_of, SinkMessage, SinkMessageView};
use crate::severity::Severity;
use vstd::prelude::*;

verus! {

/// The pictures a tray can show.
#[derive(Clone, Copy, Debug, PartialEq, Eq, Structural)]
pub enum TrayIcon {
    Checking,
    NoUpdates,
    Updates,
    UpdatesWarning,
    UpdatesCritical,
    Updating,
}

/// The picture for a severity tier.
pub open spec fn icon_of_severity(severity: Severity) -> TrayIcon {
    match severity {
        Severity::NoUpdates => TrayIcon::NoUpdates,
        Severity::Normal => TrayIcon::Updates,
        Severity::Warning => TrayIcon::UpdatesWarning,
        Severity::Critical => TrayIcon::UpdatesCritical,
    }
}

/// The picture for a message.
pub open spec fn icon_of(message: SinkMessageView) -> TrayIcon {
    match message {
        SinkMessageView::CheckingStarted => TrayIcon::Checking,
        SinkMessageView::Resolved { severity, .. } => icon_of_severity(severity),
        SinkMessageView::UpdatingStarted => TrayIcon::Updating,
    }
}

/// The list of updates that a message brings, if it brings one.
pub open spec fn menu_of(message: SinkMessageView) -> Option<Seq<Seq<char>>> {
    match message {
        SinkMessageView::Resolved { identifiers, .. } => Some(identifiers),
        _ => None,
    }
}

/// What a tray is to show: a picture and, where the list of pending
/// updates is new, the entries of its menu. Without a list the menu
/// stays as it is.
#[derive(Clone, Debug, PartialEq, Eq)]
pub struct Presentation {
    pub icon: TrayIcon,
    pub menu: Option<Vec<String>>,
}

impl Presentation {
    /// The entries of the new menu, if there is one.
    pub open spec fn menu_entries(&self) -> Option<Seq<Seq<char>>> {
        match self.menu {
            Some(entries) => Some(identifiers_of(entries@)),
            None => None,
        }
    }
}

/// The picture a tray shows before the first message.
pub fn initial_icon() -> (icon: TrayIcon)
    ensures
        icon == TrayIcon::NoUpdates,
{
    TrayIcon::NoUpdates
}

/// Decides what a tray shows for a message.
pub fn present(message: SinkMessage) -> (shown: Presentation)
    ensures
        shown.icon == icon_of(message@),
        shown.menu_entries() == menu_of(message@),
{
    match message {
        SinkMessage::CheckingStarted => Presentation { icon: TrayIcon::Checking, menu: None },
        SinkMessage::UpdatingStarted => Presentation { icon: TrayIcon::Updating, menu: None },
        SinkMessage::Resolved { severity, count: _, identifiers } => {
            let icon = match severity {
                Severity::NoUpdates => TrayIcon::NoUpdates,
                Severity::Normal => TrayIcon::Updates,
                Severity::Warning => TrayIcon::UpdatesWarning,
                Severity::Critical => TrayIcon::UpdatesCritical,
            };
            Presentation { icon, menu: Some(identifiers) }
        },
    }
}

} // verus!
