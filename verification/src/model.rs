//! Plain data types for the bot's inbound events and outbound responses.
//!
//! Each value lives for one request/response exchange; nothing here is
//! shared or persistent. The gateway adapter converts between these types
//! and the client library's payloads at the process edge.

use vstd::prelude::*;

verus! {

/// Visual style of a button component.
#[derive(Clone, Copy, PartialEq, Eq, Structural, Debug)]
pub enum ButtonStyle {
    Primary,
    Secondary,
    Success,
    Danger,
}

/// Style of a modal input field: a single line or a multi-line paragraph.
#[derive(Clone, Copy, PartialEq, Eq, Structural, Debug)]
pub enum InputStyle {
    Short,
    Paragraph,
}

/// A button attached to an outbound message.
pub struct Button {
    pub style: ButtonStyle,
    pub label: String,
    pub custom_id: String,
}

/// One input field of a modal definition.
pub struct InputField {
    pub style: InputStyle,
    pub custom_id: String,
    pub label: String,
    pub required: bool,
    /// Text the field is pre-filled with, if any.
    pub value: Option<String>,
    /// Hint shown while the field is empty, if any.
    pub placeholder: Option<String>,
    /// Fewest characters the platform will accept, if constrained.
    pub min_length: Option<u16>,
}

/// A modal dialog: a titled, ordered list of input fields, correlated
/// back to its submission by an opaque identifier.
pub struct ModalDef {
    pub custom_id: String,
    pub title: String,
    pub fields: Vec<InputField>,
}

/// A named field of an embed.
pub struct EmbedField {
    pub name: String,
    pub value: String,
    pub inline: bool,
}

/// A message embed: a title plus named fields.
pub struct Embed {
    pub title: String,
    pub fields: Vec<EmbedField>,
}

/// A plain message with component rows, sent to a channel.
pub struct MessageAction {
    pub content: String,
    pub buttons: Vec<Button>,
}

/// How a message response answers the interaction it belongs to.
#[derive(Clone, Copy, PartialEq, Eq, Structural, Debug)]
pub enum ResponseKind {
    /// Post a new message to the channel.
    ChannelMessage,
    /// Edit the message the interaction originated from.
    UpdateMessage,
}

/// The response the bot returns for one interaction.
pub enum InteractionResponse {
    /// Open a modal dialog.
    OpenModal(ModalDef),
    /// Answer with a message carrying an embed.
    Message { kind: ResponseKind, embed: Embed },
}

/// One submitted value of a modal, keyed by its field's identifier.
pub struct SubmittedField {
    pub custom_id: String,
    pub value: String,
}

/// An inbound interaction event, reduced to the data the handler reads.
pub enum InteractionEvent {
    /// A user clicked a component (button) on a message.
    ComponentClick { custom_id: String },
    /// A user invoked a slash command.
    ApplicationCommand { name: String },
    /// A user submitted a modal; field values arrive in the modal's order.
    ModalSubmit { custom_id: String, fields: Vec<SubmittedField> },
}

/// A guild command registration record: name and description.
pub struct CommandDef {
    pub name: String,
    pub description: String,
}

} // verus!
