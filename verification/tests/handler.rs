use modal_bot::handler::{
    command_modal, component_modal, on_interaction, on_message, startup_command,
    submission_response,
};
use modal_bot::model::{
    ButtonStyle, InputStyle, InteractionEvent, InteractionResponse, ResponseKind, SubmittedField,
};

fn submit(modal_id: &str, pairs: &[(&str, &str)]) -> InteractionEvent {
    let fields = pairs
        .iter()
        .map(|(id, value)| SubmittedField {
            custom_id: id.to_string(),
            value: value.to_string(),
        })
        .collect();
    InteractionEvent::ModalSubmit {
        custom_id: modal_id.to_string(),
        fields,
    }
}

#[test]
fn startup_registers_the_modal_command() {
    let c = startup_command();
    assert_eq!(c.name, "modal");
    assert_eq!(c.description, "Trigger a modal from slash commands");
}

#[test]
fn message_modal_gets_one_button() {
    let r = on_message(&"modal".to_string()).expect("the trigger word must be answered");
    assert_eq!(r.content, "Press the button for modal =D");
    assert_eq!(r.buttons.len(), 1);
    assert_eq!(r.buttons[0].custom_id, "modal_init");
    assert_eq!(r.buttons[0].label, "Press for Modal");
    assert_eq!(r.buttons[0].style, ButtonStyle::Primary);
}

#[test]
fn other_messages_are_ignored() {
    assert!(on_message(&"hello".to_string()).is_none());
    assert!(on_message(&"Modal".to_string()).is_none());
    assert!(on_message(&"modal ".to_string()).is_none());
    assert!(on_message(&String::new()).is_none());
}

#[test]
fn component_click_opens_a_two_field_modal() {
    let event = InteractionEvent::ComponentClick {
        custom_id: "modal_init".to_string(),
    };
    let r = on_interaction(&event).expect("a component click must be answered");
    let m = match r {
        InteractionResponse::OpenModal(m) => m,
        _ => panic!("a component click must open a modal"),
    };
    assert_eq!(m.custom_id, "modal_comp_interaction");
    assert_eq!(m.title, "Modals from Component Interaction");
    assert_eq!(m.fields.len(), 2);
    assert_eq!(m.fields[0].style, InputStyle::Short);
    assert_eq!(m.fields[0].custom_id, "input_text_one");
    assert_eq!(m.fields[0].label, "Short test");
    assert!(m.fields[0].required);
    assert_eq!(
        m.fields[0].value.as_deref(),
        Some("This is pre filled for you")
    );
    assert!(m.fields[0].placeholder.is_none());
    assert!(m.fields[0].min_length.is_none());
    assert_eq!(m.fields[1].style, InputStyle::Paragraph);
    assert_eq!(m.fields[1].custom_id, "input_text_two");
    assert_eq!(m.fields[1].label, "Loooooooooong text");
    assert!(!m.fields[1].required);
    assert!(m.fields[1].value.is_none());
}

#[test]
fn slash_command_opens_a_two_field_modal() {
    let event = InteractionEvent::ApplicationCommand {
        name: "modal".to_string(),
    };
    let r = on_interaction(&event).expect("a slash command must be answered");
    let m = match r {
        InteractionResponse::OpenModal(m) => m,
        _ => panic!("a slash command must open a modal"),
    };
    assert_eq!(m.custom_id, "modal_app_cmd");
    assert_eq!(m.title, "Modals from Slash Commands");
    assert_eq!(m.fields.len(), 2);
    assert_eq!(m.fields[0].style, InputStyle::Short);
    assert_eq!(m.fields[0].custom_id, "input_text_one");
    assert!(!m.fields[0].required);
    assert!(m.fields[0].value.is_none());
    assert_eq!(m.fields[1].style, InputStyle::Paragraph);
    assert_eq!(m.fields[1].custom_id, "input_text_two");
    assert!(m.fields[1].required);
    assert_eq!(m.fields[1].placeholder.as_deref(), Some("Please write an essay"));
    assert_eq!(m.fields[1].min_length, Some(200));
}

#[test]
fn command_submission_answers_with_a_new_message() {
    let event = submit("modal_app_cmd", &[("input_text_one", "a"), ("input_text_two", "b")]);
    let r = on_interaction(&event).expect("a well-shaped submission must be answered");
    match r {
        InteractionResponse::Message { kind, .. } => {
            assert_eq!(kind, ResponseKind::ChannelMessage)
        }
        _ => panic!("a submission must be answered with a message"),
    }
}

#[test]
fn component_submission_updates_the_message() {
    let event = submit(
        "modal_comp_interaction",
        &[("input_text_one", "a"), ("input_text_two", "b")],
    );
    let r = on_interaction(&event).expect("a well-shaped submission must be answered");
    match r {
        InteractionResponse::Message { kind, .. } => {
            assert_eq!(kind, ResponseKind::UpdateMessage)
        }
        _ => panic!("a submission must be answered with a message"),
    }
}

#[test]
fn unknown_submission_identifier_updates_the_message() {
    let event = submit("something_else", &[("x", "1"), ("y", "2")]);
    let r = on_interaction(&event).expect("a well-shaped submission must be answered");
    match r {
        InteractionResponse::Message { kind, .. } => {
            assert_eq!(kind, ResponseKind::UpdateMessage)
        }
        _ => panic!("a submission must be answered with a message"),
    }
}

#[test]
fn submitted_values_round_trip_into_the_embed() {
    let event = submit(
        "modal_app_cmd",
        &[
            ("input_text_one", "An essay title"),
            ("input_text_two", "A long essay body, verbatim."),
        ],
    );
    let r = on_interaction(&event).expect("a well-shaped submission must be answered");
    let embed = match r {
        InteractionResponse::Message { embed, .. } => embed,
        _ => panic!("a submission must be answered with a message"),
    };
    assert_eq!(embed.title, "An essay title");
    assert_eq!(embed.fields.len(), 1);
    assert_eq!(embed.fields[0].name, "input_text_two");
    assert_eq!(embed.fields[0].value, "A long essay body, verbatim.");
    assert!(!embed.fields[0].inline);
}

#[test]
fn short_submissions_get_no_response() {
    assert!(on_interaction(&submit("modal_app_cmd", &[])).is_none());
    assert!(on_interaction(&submit("modal_app_cmd", &[("only", "one")])).is_none());
}

#[test]
fn modal_builders_match_the_dispatch() {
    let m = component_modal();
    assert_eq!(m.custom_id, "modal_comp_interaction");
    let m = command_modal();
    assert_eq!(m.custom_id, "modal_app_cmd");
}

#[test]
fn direct_submission_response_echoes_fields() {
    let fields = vec![
        SubmittedField {
            custom_id: "input_text_one".to_string(),
            value: "short".to_string(),
        },
        SubmittedField {
            custom_id: "input_text_two".to_string(),
            value: "long".to_string(),
        },
    ];
    let r = submission_response(&"modal_comp_interaction".to_string(), &fields)
        .expect("two fields must be answered");
    match r {
        InteractionResponse::Message { kind, embed } => {
            assert_eq!(kind, ResponseKind::UpdateMessage);
            assert_eq!(embed.title, "short");
            assert_eq!(embed.fields[0].name, "input_text_two");
            assert_eq!(embed.fields[0].value, "long");
        }
        _ => panic!("a submission must be answered with a message"),
    }
}
