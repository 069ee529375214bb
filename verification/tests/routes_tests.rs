use listen_core::routes::{
    deserialize_messages, select_chain, stream_response, Chain, ChatRequest, ChatRole,
    LoopResponse, MessageError, RawContent, RawMessage, ServerError, StreamResponse,
};

fn raw(role: &str, content: Option<&str>) -> RawMessage {
    RawMessage {
        role: role.to_string(),
        content: match content {
            Some(text) => RawContent::Text(text.to_string()),
            None => RawContent::Other,
        },
    }
}

fn error_text(r: Result<Chain, StreamResponse>) -> String {
    match r {
        Err(StreamResponse::Error(text)) => text,
        other => panic!("no error: {:?}", other),
    }
}

#[test]
fn chains_by_name() {
    assert_eq!(select_chain(Some("solana")).unwrap(), Chain::Solana);
    assert_eq!(select_chain(Some("evm")).unwrap(), Chain::Evm);
    assert_eq!(select_chain(Some("omni")).unwrap(), Chain::Omni);
}

#[test]
fn other_chains_are_not_supported() {
    assert_eq!(error_text(select_chain(Some("bitcoin"))), "Unsupported chain: bitcoin");
    assert_eq!(error_text(select_chain(Some("Solana"))), "Unsupported chain: Solana");
    assert_eq!(error_text(select_chain(Some(""))), "Unsupported chain: ");
    assert_eq!(error_text(select_chain(None)), "Chain parameter is required");
}

#[test]
fn loop_items_are_streamed_as_they_are() {
    match stream_response(LoopResponse::Message("hello".to_string())) {
        StreamResponse::Message(text) => assert_eq!(text, "hello"),
        other => panic!("{:?}", other),
    }
    let call = LoopResponse::ToolCall { name: "swap".to_string(), result: "ok".to_string() };
    match stream_response(call) {
        StreamResponse::ToolCall { name, result } => {
            assert_eq!(name, "swap");
            assert_eq!(result, "ok");
        }
        other => panic!("{:?}", other),
    }
}

#[test]
fn a_chat_history_keeps_its_order() {
    let messages = deserialize_messages(vec![
        raw("user", Some("hi")),
        raw("assistant", Some("hello")),
        raw("user", Some("")),
    ])
    .unwrap();
    assert_eq!(messages.len(), 3);
    assert_eq!((messages[0].role, messages[0].text.as_str()), (ChatRole::User, "hi"));
    assert_eq!((messages[1].role, messages[1].text.as_str()), (ChatRole::Assistant, "hello"));
    assert_eq!((messages[2].role, messages[2].text.as_str()), (ChatRole::User, ""));
    assert!(deserialize_messages(Vec::new()).unwrap().is_empty());
}

#[test]
fn the_first_bad_message_refuses_the_history() {
    assert_eq!(
        deserialize_messages(vec![raw("user", None)]).unwrap_err(),
        MessageError::InvalidUserContent
    );
    assert_eq!(
        deserialize_messages(vec![raw("assistant", None)]).unwrap_err(),
        MessageError::InvalidAssistantContent
    );
    assert_eq!(
        deserialize_messages(vec![raw("system", Some("x"))]).unwrap_err(),
        MessageError::InvalidRole
    );
    assert_eq!(
        deserialize_messages(vec![raw("system", None)]).unwrap_err(),
        MessageError::InvalidRole
    );
    assert_eq!(
        deserialize_messages(vec![
            raw("user", Some("fine")),
            raw("assistant", None),
            raw("nobody", Some("x")),
            raw("user", None),
        ])
        .unwrap_err(),
        MessageError::InvalidAssistantContent
    );
}

#[test]
fn error_texts() {
    assert_eq!(MessageError::InvalidUserContent.message(), "Invalid user content format");
    assert_eq!(MessageError::InvalidAssistantContent.message(), "Invalid assistant content format");
    assert_eq!(MessageError::InvalidRole.message(), "Invalid role");
    assert!(ServerError::WalletError != ServerError::PrivyError);
    assert!(ServerError::ChainNotSupported != ServerError::PrivyError);
}

#[test]
fn a_request_selects_its_chain() {
    let mut request = ChatRequest {
        prompt: "buy".to_string(),
        chat_history: Vec::new(),
        chain: Some("evm".to_string()),
        preamble: None,
    };
    assert_eq!(request.selected_chain().unwrap(), Chain::Evm);
    request.chain = Some("near".to_string());
    assert_eq!(error_text(request.selected_chain()), "Unsupported chain: near");
    request.chain = None;
    assert_eq!(error_text(request.selected_chain()), "Chain parameter is required");
}
