//! Maps each inbound event to the response the bot owes for it.
//!
//! The functions here are pure: they read an event and return a value
//! describing the outbound call the gateway adapter must make. The
//! contracts pin down every identifier, label and field of each response.

use vstd::prelude::*;

use crate::model::{
    Button, ButtonStyle, CommandDef, Embed, EmbedField, InputField, InputStyle, InteractionEvent,
    InteractionResponse, MessageAction, ModalDef, ResponseKind, SubmittedField,
};

verus! {

/// The one guild command the bot registers at startup.
pub open spec fn is_startup_command(c: CommandDef) -> bool {
    &&& c.name@ == "modal"@
    &&& c.description@ == "Trigger a modal from slash commands"@
}

/// The prompt message: one primary button that opens the modal flow.
pub open spec fn is_modal_prompt(a: MessageAction) -> bool {
    &&& a.content@ == "Press the button for modal =D"@
    &&& a.buttons@.len() == 1
    &&& a.buttons@[0].style == ButtonStyle::Primary
    &&& a.buttons@[0].label@ == "Press for Modal"@
    &&& a.buttons@[0].custom_id@ == "modal_init"@
}

/// The modal opened for a component click: a pre-filled required short
/// field and an optional paragraph field.
pub open spec fn is_component_modal(m: ModalDef) -> bool {
    &&& m.custom_id@ == "modal_comp_interaction"@
    &&& m.title@ == "Modals from Component Interaction"@
    &&& m.fields@.len() == 2
    &&& m.fields@[0].style == InputStyle::Short
    &&& m.fields@[0].custom_id@ == "input_text_one"@
    &&& m.fields@[0].label@ == "Short test"@
    &&& m.fields@[0].required == true
    &&& (m.fields@[0].value matches Some(v) && v@ == "This is pre filled for you"@)
    &&& m.fields@[0].placeholder is None
    &&& m.fields@[0].min_length is None
    &&& m.fields@[1].style == InputStyle::Paragraph
    &&& m.fields@[1].custom_id@ == "input_text_two"@
    &&& m.fields@[1].label@ == "Loooooooooong text"@
    &&& m.fields@[1].required == false
    &&& m.fields@[1].value is None
    &&& m.fields@[1].placeholder is None
    &&& m.fields@[1].min_length is None
}

/// The modal opened for a slash command: an optional short field and a
/// required paragraph field with a placeholder and a length floor.
pub open spec fn is_command_modal(m: ModalDef) -> bool {
    &&& m.custom_id@ == "modal_app_cmd"@
    &&& m.title@ == "Modals from Slash Commands"@
    &&& m.fields@.len() == 2
    &&& m.fields@[0].style == InputStyle::Short
    &&& m.fields@[0].custom_id@ == "input_text_one"@
    &&& m.fields@[0].label@ == "Short test"@
    &&& m.fields@[0].required == false
    &&& m.fields@[0].value is None
    &&& m.fields@[0].placeholder is None
    &&& m.fields@[0].min_length is None
    &&& m.fields@[1].style == InputStyle::Paragraph
    &&& m.fields@[1].custom_id@ == "input_text_two"@
    &&& m.fields@[1].label@ == "Loooooooooong text"@
    &&& m.fields@[1].required == true
    &&& m.fields@[1].value is None
    &&& (m.fields@[1].placeholder matches Some(p) && p@ == "Please write an essay"@)
    &&& m.fields@[1].min_length == Some(200u16)
}

/// How a modal submission is answered: a submission whose identifier
/// signals a slash-command origin gets a new message, any other an
/// update of the message it came from.
pub open spec fn submission_kind(modal_id: Seq<char>) -> ResponseKind {
    if modal_id == "modal_app_cmd"@ {
        ResponseKind::ChannelMessage
    } else {
        ResponseKind::UpdateMessage
    }
}

/// The embed that echoes a submission: the first field's value verbatim
/// as the title, the second field's identifier and value verbatim as a
/// non-inline embed field.
pub open spec fn is_echo_embed(e: Embed, fields: Seq<SubmittedField>) -> bool
    recommends
        fields.len() >= 2,
{
    &&& e.title@ == fields[0].value@
    &&& e.fields@.len() == 1
    &&& e.fields@[0].name@ == fields[1].custom_id@
    &&& e.fields@[0].value@ == fields[1].value@
    &&& e.fields@[0].inline == false
}

/// The command registered once per guild at startup.
pub fn startup_command() -> (c: CommandDef)
    ensures
        is_startup_command(c),
{
    CommandDef {
        name: "modal".to_owned(),
        description: "Trigger a modal from slash commands".to_owned(),
    }
}

/// Handles a plain text message: exactly the content "modal" is answered,
/// with the one-button prompt; every other message is ignored.
pub fn on_message(content: &String) -> (r: Option<MessageAction>)
    ensures
        r is Some <==> content@ == "modal"@,
        r matches Some(a) ==> is_modal_prompt(a),
{
    if *content != "modal".to_owned() {
        return None;
    }
    let mut buttons: Vec<Button> = Vec::new();
    buttons.push(
        Button {
            style: ButtonStyle::Primary,
            label: "Press for Modal".to_owned(),
            custom_id: "modal_init".to_owned(),
        },
    );
    Some(
        MessageAction { content: "Press the button for modal =D".to_owned(), buttons },
    )
}

/// Builds the modal shown after a component click.
pub fn component_modal() -> (m: ModalDef)
    ensures
        is_component_modal(m),
{
    let mut fields: Vec<InputField> = Vec::new();
    fields.push(
        InputField {
            style: InputStyle::Short,
            custom_id: "input_text_one".to_owned(),
            label: "Short test".to_owned(),
            required: true,
            value: Some("This is pre filled for you".to_owned()),
            placeholder: None,
            min_length: None,
        },
    );
    fields.push(
        InputField {
            style: InputStyle::Paragraph,
            custom_id: "input_text_two".to_owned(),
            label: "Loooooooooong text".to_owned(),
            required: false,
            value: None,
            placeholder: None,
            min_length: None,
        },
    );
    ModalDef {
        custom_id: "modal_comp_interaction".to_owned(),
        title: "Modals from Component Interaction".to_owned(),
        fields,
    }
}

/// Builds the modal shown after a slash-command invocation.
pub fn command_modal() -> (m: ModalDef)
    ensures
        is_command_modal(m),
{
    let mut fields: Vec<InputField> = Vec::new();
    fields.push(
        InputField {
            style: InputStyle::Short,
            custom_id: "input_text_one".to_owned(),
            label: "Short test".to_owned(),
            required: false,
            value: None,
            placeholder: None,
            min_length: None,
        },
    );
    fields.push(
        InputField {
            style: InputStyle::Paragraph,
            custom_id: "input_text_two".to_owned(),
            label: "Loooooooooong text".to_owned(),
            required: true,
            value: None,
            placeholder: Some("Please write an essay".to_owned()),
            min_length: Some(200),
        },
    );
    ModalDef {
        custom_id: "modal_app_cmd".to_owned(),
        title: "Modals from Slash Commands".to_owned(),
        fields,
    }
}

/// Answers a modal submission by echoing its first two field values into
/// an embed. A submission with fewer than two fields has an unexpected
/// shape and aborts the exchange with no response.
pub fn submission_response(modal_id: &String, fields: &Vec<SubmittedField>) -> (r: Option<
    InteractionResponse,
>)
    ensures
        r is Some <==> fields@.len() >= 2,
        r matches Some(resp) ==> (resp matches InteractionResponse::Message { kind, embed }
            && kind == submission_kind(modal_id@) && is_echo_embed(embed, fields@)),
{
    if fields.len() < 2 {
        return None;
    }
    let kind = if *modal_id == "modal_app_cmd".to_owned() {
        ResponseKind::ChannelMessage
    } else {
        ResponseKind::UpdateMessage
    };
    let mut embed_fields: Vec<EmbedField> = Vec::new();
    embed_fields.push(
        EmbedField {
            name: fields[1].custom_id.clone(),
            value: fields[1].value.clone(),
            inline: false,
        },
    );
    let embed = Embed { title: fields[0].value.clone(), fields: embed_fields };
    Some(InteractionResponse::Message { kind, embed })
}

/// Dispatches one interaction: component clicks and slash commands each
/// open their modal, a modal submission is echoed back as an embed.
pub fn on_interaction(event: &InteractionEvent) -> (r: Option<InteractionResponse>)
    ensures
        event is ComponentClick ==> (r matches Some(InteractionResponse::OpenModal(m))
            && is_component_modal(m)),
        event is ApplicationCommand ==> (r matches Some(InteractionResponse::OpenModal(m))
            && is_command_modal(m)),
        event matches InteractionEvent::ModalSubmit { custom_id, fields } ==> {
            &&& r is Some <==> fields@.len() >= 2
            &&& r matches Some(resp) ==> (resp matches InteractionResponse::Message {
                kind,
                embed,
            } && kind == submission_kind(custom_id@) && is_echo_embed(embed, fields@))
        },
{
    match event {
        InteractionEvent::ComponentClick { .. } => Some(
            InteractionResponse::OpenModal(component_modal()),
        ),
        InteractionEvent::ApplicationCommand { .. } => Some(
            InteractionResponse::OpenModal(command_modal()),
        ),
        InteractionEvent::ModalSubmit { custom_id, fields } => submission_response(
            custom_id,
            fields,
        ),
    }
}

} // verus!
