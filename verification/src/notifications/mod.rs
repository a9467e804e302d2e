//! Notifications: what the engine tells the user, and when.
//!
//! The words of every message are fixed here. A message is handed to a
//! [`NotificationSender`] only where the configuration asks for messages
//! of its category.

use crate::audio::device::{AudioDevice, DeviceType, DeviceView};
use crate::config::types::Config;
use crate::error::MonitorError;
use vstd::prelude::*;
use vstd::string::*;

verus! {

/// Why the engine switched to a device.
#[derive(Debug, Clone, Copy, PartialEq, Eq, Structural)]
pub enum SwitchReason {
    /// A device of higher priority became available.
    HigherPriority,
    /// The device in use before is gone.
    PreviousUnavailable,
    /// The user asked for it.
    Manual,
}

/// The categories of messages. The configuration filters by category.
#[derive(Debug, Clone, Copy, PartialEq, Eq, Structural)]
pub enum NotificationType {
    /// A device was connected or disconnected.
    DeviceChange,
    /// The engine switched the default device.
    SwitchAction,
    /// A switch failed.
    Error,
}

/// A message for the user.
#[derive(Debug)]
pub struct Notification {
    pub title: String,
    pub body: String,
    pub category: NotificationType,
}

/// The mathematical value of a [`Notification`].
pub struct NotificationView {
    pub title: Seq<char>,
    pub body: Seq<char>,
    pub category: NotificationType,
}

impl View for Notification {
    type V = NotificationView;

    open spec fn view(&self) -> NotificationView {
        NotificationView { title: self.title@, body: self.body@, category: self.category }
    }
}

/// The sign that stands for a type of device.
pub open spec fn device_icon(device_type: DeviceType) -> Seq<char> {
    match device_type {
        DeviceType::Input => "🎤"@,
        DeviceType::Output => "🔊"@,
        DeviceType::InputOutput => "🎧"@,
    }
}

/// The sign and the word that stand for a type of device.
pub open spec fn device_kind(device_type: DeviceType) -> Seq<char> {
    match device_type {
        DeviceType::Input => "🎤 Input"@,
        DeviceType::Output => "🔊 Output"@,
        DeviceType::InputOutput => "🎧 Input/Output"@,
    }
}

/// The message that a device has been connected.
pub open spec fn connected_notification(device: DeviceView) -> NotificationView {
    NotificationView {
        title: "Audio Device Connected"@,
        body: device_icon(device.device_type) + " "@ + device.name + " is now available"@,
        category: NotificationType::DeviceChange,
    }
}

/// The message that a device has been disconnected.
pub open spec fn disconnected_notification(device: DeviceView) -> NotificationView {
    NotificationView {
        title: "Audio Device Disconnected"@,
        body: device_icon(device.device_type) + " "@ + device.name + " is no longer available"@,
        category: NotificationType::DeviceChange,
    }
}

/// The message that the engine has switched to a device.
pub open spec fn switched_notification(
    device: DeviceView,
    reason: SwitchReason,
) -> NotificationView {
    NotificationView {
        title: "Audio Device Switched"@,
        body: match reason {
            SwitchReason::HigherPriority => device_kind(device.device_type) + " switched to "@
                + device.name + " (higher priority)"@,
            SwitchReason::PreviousUnavailable => device_kind(device.device_type) + " switched to "@
                + device.name + " (previous device unavailable)"@,
            SwitchReason::Manual => device_kind(device.device_type) + " manually switched to "@
                + device.name,
        },
        category: NotificationType::SwitchAction,
    }
}

/// The message that a switch to the device named `device_name` failed
/// with `error`.
pub open spec fn switch_failed_notification(
    device_name: Seq<char>,
    error: Seq<char>,
) -> NotificationView {
    NotificationView {
        title: "Audio Device Switch Failed"@,
        body: "Failed to switch to "@ + device_name + ": "@ + error,
        category: NotificationType::Error,
    }
}

/// The message that tries out the notification system.
pub open spec fn trial_notification() -> NotificationView {
    NotificationView {
        title: "Audio Device Monitor"@,
        body: "Notification system is working correctly!"@,
        category: NotificationType::SwitchAction,
    }
}

fn icon_for(device_type: &DeviceType) -> (icon: &'static str)
    ensures
        icon@ == device_icon(*device_type),
{
    match device_type {
        DeviceType::Input => "🎤",
        DeviceType::Output => "🔊",
        DeviceType::InputOutput => "🎧",
    }
}

fn kind_for(device_type: &DeviceType) -> (kind: &'static str)
    ensures
        kind@ == device_kind(*device_type),
{
    match device_type {
        DeviceType::Input => "🎤 Input",
        DeviceType::Output => "🔊 Output",
        DeviceType::InputOutput => "🎧 Input/Output",
    }
}

impl Notification {
    /// The message that `device` has been connected.
    pub fn connected(device: &AudioDevice) -> (notification: Self)
        ensures
            notification@ == connected_notification(device@),
    {
        let mut body = icon_for(&device.device_type).to_owned();
        body.append(" ");
        body.append(device.name.as_str());
        body.append(" is now available");
        Notification {
            title: "Audio Device Connected".to_owned(),
            body,
            category: NotificationType::DeviceChange,
        }
    }

    /// The message that `device` has been disconnected.
    pub fn disconnected(device: &AudioDevice) -> (notification: Self)
        ensures
            notification@ == disconnected_notification(device@),
    {
        let mut body = icon_for(&device.device_type).to_owned();
        body.append(" ");
        body.append(device.name.as_str());
        body.append(" is no longer available");
        Notification {
            title: "Audio Device Disconnected".to_owned(),
            body,
            category: NotificationType::DeviceChange,
        }
    }

    /// The message that the engine has switched to `device` for `reason`.
    pub fn switched(device: &AudioDevice, reason: SwitchReason) -> (notification: Self)
        ensures
            notification@ == switched_notification(device@, reason),
    {
        let mut body = kind_for(&device.device_type).to_owned();
        match reason {
            SwitchReason::HigherPriority => {
                body.append(" switched to ");
                body.append(device.name.as_str());
                body.append(" (higher priority)");
            },
            SwitchReason::PreviousUnavailable => {
                body.append(" switched to ");
                body.append(device.name.as_str());
                body.append(" (previous device unavailable)");
            },
            SwitchReason::Manual => {
                body.append(" manually switched to ");
                body.append(device.name.as_str());
            },
        }
        Notification {
            title: "Audio Device Switched".to_owned(),
            body,
            category: NotificationType::SwitchAction,
        }
    }

    /// The message that a switch to the device named `device_name` failed
    /// with `error`.
    pub fn switch_failed(device_name: &str, error: &str) -> (notification: Self)
        ensures
            notification@ == switch_failed_notification(device_name@, error@),
    {
        let mut body = "Failed to switch to ".to_owned();
        body.append(device_name);
        body.append(": ");
        body.append(error);
        Notification {
            title: "Audio Device Switch Failed".to_owned(),
            body,
            category: NotificationType::Error,
        }
    }

    /// The message that tries out the notification system.
    pub fn trial() -> (notification: Self)
        ensures
            notification@ == trial_notification(),
    {
        Notification {
            title: "Audio Device Monitor".to_owned(),
            body: "Notification system is working correctly!".to_owned(),
            category: NotificationType::SwitchAction,
        }
    }
}

/// What delivers a message to the user.
pub trait NotificationSender {
    /// Delivers a message with this title and body.
    fn send(&mut self, title: &str, body: &str) -> Result<(), MonitorError>;
}

/// A sender that shows nothing and keeps every message it is handed, in
/// the order of the calls.
#[derive(Debug)]
pub struct TestNotificationSender {
    pub sent_notifications: Vec<(String, String)>,
}

/// The titles and bodies of a list of kept messages.
pub open spec fn sent_views(sent: Seq<(String, String)>) -> Seq<(Seq<char>, Seq<char>)> {
    sent.map_values(|message: (String, String)| (message.0@, message.1@))
}

impl TestNotificationSender {
    /// A sender that has kept nothing yet.
    pub fn new() -> (sender: Self)
        ensures
            sender.sent_notifications@.len() == 0,
    {
        Self { sent_notifications: Vec::new() }
    }

    /// The titles and bodies of the messages kept so far.
    pub fn get_sent_notifications(&self) -> (sent: Vec<(String, String)>)
        ensures
            sent@ == self.sent_notifications@,
    {
        let mut sent: Vec<(String, String)> = Vec::new();
        let mut index: usize = 0;
        while index < self.sent_notifications.len()
            invariant
                index <= self.sent_notifications@.len(),
                sent@ == self.sent_notifications@.take(index as int),
            decreases self.sent_notifications@.len() - index,
        {
            let message = &self.sent_notifications[index];
            sent.push((message.0.clone(), message.1.clone()));
            assert(self.sent_notifications@.take(index + 1) == self.sent_notifications@.take(
                index as int,
            ).push(self.sent_notifications@[index as int]));
            index += 1;
        }
        assert(self.sent_notifications@.take(self.sent_notifications@.len() as int)
            == self.sent_notifications@);
        sent
    }

    /// Forgets the messages kept so far.
    pub fn clear(&mut self)
        ensures
            final(self).sent_notifications@.len() == 0,
    {
        self.sent_notifications = Vec::new();
    }
}

impl Default for TestNotificationSender {
    fn default() -> (sender: Self)
        ensures
            sender.sent_notifications@.len() == 0,
    {
        Self::new()
    }
}

impl NotificationSender for TestNotificationSender {
    /// Keeps the message and reports success.
    fn send(&mut self, title: &str, body: &str) -> (sent: Result<(), MonitorError>)
        ensures
            sent is Ok,
            sent_views(final(self).sent_notifications@) == sent_views(
                old(self).sent_notifications@,
            ).push((title@, body@)),
    {
        let ghost before = self.sent_notifications@;
        self.sent_notifications.push((title.to_owned(), body.to_owned()));
        assert(sent_views(self.sent_notifications@) =~= sent_views(before).push((title@, body@)));
        Ok(())
    }
}

/// The title and the body of a message, as they are handed to a sender.
pub open spec fn message_of(notification: NotificationView) -> (Seq<char>, Seq<char>) {
    (notification.title, notification.body)
}

/// Which messages a manager lets through.
pub struct NotificationSettings {
    /// Whether anything is let through at all.
    pub enabled: bool,
    /// Whether messages on connected and disconnected devices are wanted.
    pub show_device_availability: bool,
    /// Whether messages on switches and failed switches are wanted.
    pub show_switching_actions: bool,
}

impl NotificationSettings {
    /// Whether a message of this category is handed to the sender.
    pub open spec fn lets_through(self, category: NotificationType) -> bool {
        self.enabled && match category {
            NotificationType::DeviceChange => self.show_device_availability,
            NotificationType::SwitchAction => self.show_switching_actions,
            NotificationType::Error => self.show_switching_actions,
        }
    }

    /// What has been handed to the sender once `notification` has been
    /// dealt with: the message comes after those in `handed` where its
    /// category is let through, and nothing is added where it is not.
    pub open spec fn notified(
        self,
        handed: Seq<(Seq<char>, Seq<char>)>,
        notification: NotificationView,
    ) -> Seq<(Seq<char>, Seq<char>)> {
        if self.lets_through(notification.category) {
            handed.push(message_of(notification))
        } else {
            handed
        }
    }
}

/// Filters the engine's messages by the configuration and hands those
/// that pass to its sender.
pub struct NotificationManager<T: NotificationSender = TestNotificationSender> {
    enabled: bool,
    show_device_availability: bool,
    show_switching_actions: bool,
    sender: T,
    /// The titles and bodies that the manager has handed to its sender,
    /// in the order of the calls.
    handed: Ghost<Seq<(Seq<char>, Seq<char>)>>,
}

/// The manager that the engine uses where it is given no sender: it keeps
/// its messages in memory.
pub type DefaultNotificationManager = NotificationManager<TestNotificationSender>;

impl NotificationManager<TestNotificationSender> {
    /// A manager with the settings of `config` that keeps its messages in
    /// memory.
    pub fn new(config: &Config) -> (manager: Self)
        ensures
            manager.settings() == (NotificationSettings {
                enabled: true,
                show_device_availability: config.notifications.show_device_availability,
                show_switching_actions: config.notifications.show_switching_actions,
            }),
            manager.sender_spec().sent_notifications@.len() == 0,
            manager.handed().len() == 0,
    {
        Self {
            enabled: true,
            show_device_availability: config.notifications.show_device_availability,
            show_switching_actions: config.notifications.show_switching_actions,
            sender: TestNotificationSender::new(),
            handed: Ghost(Seq::empty()),
        }
    }
}

impl<T: NotificationSender> NotificationManager<T> {
    /// The settings of the manager.
    pub closed spec fn settings(&self) -> NotificationSettings {
        NotificationSettings {
            enabled: self.enabled,
            show_device_availability: self.show_device_availability,
            show_switching_actions: self.show_switching_actions,
        }
    }

    /// The sender of the manager.
    pub closed spec fn sender_spec(&self) -> T {
        self.sender
    }

    /// The titles and bodies that the manager has handed to its sender
    /// so far, in the order of the calls.
    pub closed spec fn handed(&self) -> Seq<(Seq<char>, Seq<char>)> {
        self.handed@
    }

    /// A manager with the settings of `config` that hands its messages to
    /// `sender`.
    pub fn with_sender(config: &Config, sender: T) -> (manager: Self)
        ensures
            manager.settings() == (NotificationSettings {
                enabled: true,
                show_device_availability: config.notifications.show_device_availability,
                show_switching_actions: config.notifications.show_switching_actions,
            }),
            manager.sender_spec() == sender,
            manager.handed().len() == 0,
    {
        Self {
            enabled: true,
            show_device_availability: config.notifications.show_device_availability,
            show_switching_actions: config.notifications.show_switching_actions,
            sender,
            handed: Ghost(Seq::empty()),
        }
    }

    /// The sender, to look at what it has been handed.
    pub fn sender(&self) -> (sender: &T)
        ensures
            *sender == self.sender_spec(),
    {
        &self.sender
    }

    /// Takes over the filter flags of `config`. Whether the manager is
    /// enabled and what its sender holds stay as they are.
    pub fn apply_config(&mut self, config: &Config)
        ensures
            final(self).settings() == (NotificationSettings {
                enabled: old(self).settings().enabled,
                show_device_availability: config.notifications.show_device_availability,
                show_switching_actions: config.notifications.show_switching_actions,
            }),
            final(self).sender_spec() == old(self).sender_spec(),
            final(self).handed() == old(self).handed(),
    {
        self.show_device_availability = config.notifications.show_device_availability;
        self.show_switching_actions = config.notifications.show_switching_actions;
    }

    /// Whether a message of this category would be handed to the sender.
    pub fn lets_through(&self, category: NotificationType) -> (passes: bool)
        ensures
            passes == self.settings().lets_through(category),
    {
        self.enabled && match category {
            NotificationType::DeviceChange => self.show_device_availability,
            NotificationType::SwitchAction => self.show_switching_actions,
            NotificationType::Error => self.show_switching_actions,
        }
    }

    /// Hands `notification` to the sender if its category is let through;
    /// else does nothing and succeeds.
    pub fn deliver(&mut self, notification: &Notification) -> (delivered: Result<(), MonitorError>)
        ensures
            old(self).settings().lets_through(notification.category) ==> exists|sender: &mut T, title_handed: &str, body_handed: &str|
                mut_ref_current(sender) == old(self).sender_spec() && mut_ref_future(sender)
                    == final(self).sender_spec() && title_handed@ == message_of(notification@).0
                    && body_handed@ == message_of(notification@).1 && #[trigger] call_ensures(
                    T::send,
                    (sender, title_handed, body_handed),
                    delivered,
                ),
            final(self).settings() == old(self).settings(),
            !old(self).settings().lets_through(notification.category) ==> delivered is Ok
                && final(self).sender_spec() == old(self).sender_spec(),
            final(self).handed() == old(self).settings().notified(old(self).handed(), notification@),
    {
        if !self.lets_through(notification.category) {
            return Ok(());
        }
        self.send_notification(
            notification.title.as_str(),
            notification.body.as_str(),
            notification.category,
        )
    }

    /// Tells the user that `device` has been connected, where messages on
    /// device availability are wanted.
    pub fn device_connected(
        &mut self,
        device: &AudioDevice,
    ) -> (delivered: Result<(), MonitorError>)
        ensures
            old(self).settings().lets_through(NotificationType::DeviceChange) ==> exists|sender: &mut T, title_handed: &str, body_handed: &str|
                mut_ref_current(sender) == old(self).sender_spec() && mut_ref_future(sender)
                    == final(self).sender_spec()
                        && title_handed@ == message_of(connected_notification(device@)).0
                    && body_handed@ == message_of(connected_notification(device@)).1
                        && #[trigger] call_ensures(
                    T::send,
                    (sender, title_handed, body_handed),
                    delivered,
                ),
            final(self).settings() == old(self).settings(),
            !old(self).settings().lets_through(NotificationType::DeviceChange) ==> delivered is Ok
                && final(self).sender_spec() == old(self).sender_spec(),
            final(self).handed() == old(self).settings().notified(
                old(self).handed(),
                connected_notification(device@),
            ),
    {
        if !self.lets_through(NotificationType::DeviceChange) {
            return Ok(());
        }
        let notification = Notification::connected(device);
        self.deliver(&notification)
    }

    /// Tells the user that `device` has been disconnected, where messages
    /// on device availability are wanted.
    pub fn device_disconnected(&mut self, device: &AudioDevice) -> (delivered: Result<
        (),
        MonitorError,
    >)
        ensures
            old(self).settings().lets_through(NotificationType::DeviceChange) ==> exists|sender: &mut T, title_handed: &str, body_handed: &str|
                mut_ref_current(sender) == old(self).sender_spec() && mut_ref_future(sender)
                    == final(self).sender_spec()
                        && title_handed@ == message_of(disconnected_notification(device@)).0
                    && body_handed@ == message_of(disconnected_notification(device@)).1
                        && #[trigger] call_ensures(
                    T::send,
                    (sender, title_handed, body_handed),
                    delivered,
                ),
            final(self).settings() == old(self).settings(),
            !old(self).settings().lets_through(NotificationType::DeviceChange) ==> delivered is Ok
                && final(self).sender_spec() == old(self).sender_spec(),
            final(self).handed() == old(self).settings().notified(
                old(self).handed(),
                disconnected_notification(device@),
            ),
    {
        if !self.lets_through(NotificationType::DeviceChange) {
            return Ok(());
        }
        let notification = Notification::disconnected(device);
        self.deliver(&notification)
    }

    /// Tells the user that the engine has switched to `device`, where
    /// messages on switches are wanted.
    pub fn device_switched(&mut self, device: &AudioDevice, reason: SwitchReason) -> (delivered:
        Result<(), MonitorError>)
        ensures
            old(self).settings().lets_through(NotificationType::SwitchAction) ==> exists|sender: &mut T, title_handed: &str, body_handed: &str|
                mut_ref_current(sender) == old(self).sender_spec() && mut_ref_future(sender)
                    == final(self).sender_spec()
                        && title_handed@ == message_of(switched_notification(device@, reason)).0
                    && body_handed@ == message_of(switched_notification(device@, reason)).1
                        && #[trigger] call_ensures(
                    T::send,
                    (sender, title_handed, body_handed),
                    delivered,
                ),
            final(self).settings() == old(self).settings(),
            !old(self).settings().lets_through(NotificationType::SwitchAction) ==> delivered is Ok
                && final(self).sender_spec() == old(self).sender_spec(),
            final(self).handed() == old(self).settings().notified(
                old(self).handed(),
                switched_notification(device@, reason),
            ),
    {
        if !self.lets_through(NotificationType::SwitchAction) {
            return Ok(());
        }
        let notification = Notification::switched(device, reason);
        self.deliver(&notification)
    }

    /// Tells the user that a switch to the device named `device_name`
    /// failed with `error`, where messages on switches are wanted.
    pub fn switch_failed(&mut self, device_name: &str, error: &str) -> (delivered: Result<
        (),
        MonitorError,
    >)
        ensures
            old(self).settings().lets_through(NotificationType::Error) ==> exists|sender: &mut T, title_handed: &str, body_handed: &str|
                mut_ref_current(sender) == old(self).sender_spec() && mut_ref_future(sender)
                    == final(self).sender_spec()
                        && title_handed@ == message_of(switch_failed_notification(device_name@, error@)).0
                    && body_handed@ == message_of(switch_failed_notification(device_name@, error@)).1
                        && #[trigger] call_ensures(
                    T::send,
                    (sender, title_handed, body_handed),
                    delivered,
                ),
            final(self).settings() == old(self).settings(),
            !old(self).settings().lets_through(NotificationType::Error) ==> delivered is Ok
                && final(self).sender_spec() == old(self).sender_spec(),
            final(self).handed() == old(self).settings().notified(
                old(self).handed(),
                switch_failed_notification(device_name@, error@),
            ),
    {
        if !self.lets_through(NotificationType::Error) {
            return Ok(());
        }
        let notification = Notification::switch_failed(device_name, error);
        self.deliver(&notification)
    }

    /// Hands a message to the sender, whatever the settings, and notes
    /// that it has done so.
    fn send_notification(
        &mut self,
        title: &str,
        body: &str,
        _notification_type: NotificationType,
    ) -> (sent: Result<(), MonitorError>)
        ensures
            exists|sender: &mut T, title_handed: &str, body_handed: &str|
                mut_ref_current(sender) == old(self).sender_spec() && mut_ref_future(sender)
                    == final(self).sender_spec() && title_handed@ == title@
                    && body_handed@ == body@ && #[trigger] call_ensures(
                    T::send,
                    (sender, title_handed, body_handed),
                    sent,
                ),
            final(self).settings() == old(self).settings(),
            final(self).handed() == old(self).handed().push((title@, body@)),
    {
        self.handed = Ghost(self.handed@.push((title@, body@)));
        self.sender.send(title, body)
    }

    /// Whether the manager lets anything through.
    pub fn is_enabled(&self) -> (enabled: bool)
        ensures
            enabled == self.settings().enabled,
    {
        self.enabled
    }

    /// Lets messages through, or none at all.
    pub fn set_enabled(&mut self, enabled: bool)
        ensures
            final(self).settings() == (NotificationSettings { enabled, ..old(self).settings() }),
            final(self).sender_spec() == old(self).sender_spec(),
            final(self).handed() == old(self).handed(),
    {
        self.enabled = enabled;
    }

    /// Hands the trial message to the sender, whatever the settings. An
    /// error of the sender comes back with the words `Failed to send
    /// notification: ` before its own.
    pub fn test_notification(&mut self) -> (sent: Result<(), MonitorError>)
        ensures
            exists|
                sender: &mut T,
                title_handed: &str,
                body_handed: &str,
                answer: Result<(), MonitorError>,
            |
                mut_ref_current(sender) == old(self).sender_spec() && mut_ref_future(sender)
                    == final(self).sender_spec() && title_handed@ == message_of(
                    trial_notification(),
                ).0 && body_handed@ == message_of(trial_notification()).1
                    && #[trigger] call_ensures(
                    T::send,
                    (sender, title_handed, body_handed),
                    answer,
                ) && match answer {
                    Ok(_) => sent is Ok,
                    Err(cause) => sent matches Err(error) && error.message@
                        == "Failed to send notification: "@ + cause.message@,
                },
            final(self).settings() == old(self).settings(),
            final(self).handed() == old(self).handed().push(message_of(trial_notification())),
            sent matches Err(error) ==> error.kind == crate::error::ErrorKind::Notification,
    {
        let notification = Notification::trial();
        match self.send_notification(
            notification.title.as_str(),
            notification.body.as_str(),
            notification.category,
        ) {
            Ok(()) => Ok(()),
            Err(error) => Err(Self::trial_failure(&error)),
        }
    }

    /// The error that a failed trial comes back with.
    pub fn trial_failure(cause: &MonitorError) -> (error: MonitorError)
        ensures
            error.kind == crate::error::ErrorKind::Notification,
            error.message@ == "Failed to send notification: "@ + cause.message@,
    {
        MonitorError::with_detail(
            crate::error::ErrorKind::Notification,
            "Failed to send notification: ",
            cause.message.as_str(),
        )
    }
}

} // verus!
