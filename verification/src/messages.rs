//! The unified event stream consumed by the main loop.

use vstd::prelude::*;

use crate::button::ButtonId;

verus! {

/// Routing label attached to a subscription and echoed back with every
/// inbound message, so that delivery needs no topic matching.
#[derive(Copy, Clone, Debug, PartialEq, Eq, Structural)]
pub enum Label {
    /// Message for controller `.0`, fact kind `.1` in that controller's
    /// label space.
    Button(usize, u32),
    /// The night-time status topic.
    NightStatus,
    /// The designated light's own status topic.
    LightStatus,
}

/// One event for the main loop, from whichever context produced it.
pub enum Message {
    MqttConnect,
    MqttDisconnect,
    /// Topic, payload and the label given at subscribe time.
    MqttReceived(String, String, Label),
    ButtonPress(ButtonId),
    ButtonRelease(ButtonId),
    /// The blank timer fired.
    BlankDisplays,
}

/// Mathematical value of a [`Message`].
pub enum MessageView {
    MqttConnect,
    MqttDisconnect,
    MqttReceived(Seq<char>, Seq<char>, Label),
    ButtonPress(ButtonId),
    ButtonRelease(ButtonId),
    BlankDisplays,
}

impl View for Message {
    type V = MessageView;

    open spec fn view(&self) -> MessageView {
        match self {
            Message::MqttConnect => MessageView::MqttConnect,
            Message::MqttDisconnect => MessageView::MqttDisconnect,
            Message::MqttReceived(topic, data, label) => MessageView::MqttReceived(
                topic@,
                data@,
                *label,
            ),
            Message::ButtonPress(id) => MessageView::ButtonPress(*id),
            Message::ButtonRelease(id) => MessageView::ButtonRelease(*id),
            Message::BlankDisplays => MessageView::BlankDisplays,
        }
    }
}

impl DeepView for Message {
    type V = MessageView;

    open spec fn deep_view(&self) -> MessageView {
        self.view()
    }
}

} // verus!
