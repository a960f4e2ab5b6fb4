use threema_gateway::protocol::e2e::delivery_receipt::DeliveryReceipt;
use threema_gateway_bot::server::handler::{
    Action, ClassicReaction, CommandType, ReceiptStatus, Response,
};

#[test]
fn reactions_from_receipts() {
    assert_eq!(ClassicReaction::try_from(DeliveryReceipt::Acknowledged), Ok(ClassicReaction::ThumbsUp));
    assert_eq!(ClassicReaction::try_from(DeliveryReceipt::Declined), Ok(ClassicReaction::ThumbsDown));
    assert_eq!(
        ClassicReaction::try_from(DeliveryReceipt::Read),
        Err("Invalid delivery receipt type: Read".to_string())
    );
    assert_eq!(
        ClassicReaction::try_from(DeliveryReceipt::Received),
        Err("Invalid delivery receipt type: Received".to_string())
    );
    assert_eq!(
        ClassicReaction::try_from(DeliveryReceipt::Other(42)),
        Err("Invalid delivery receipt type: Other(42)".to_string())
    );
    // the byte of a thumbs-up, carried as an unknown code, is no reaction
    assert_eq!(
        ClassicReaction::try_from(DeliveryReceipt::Other(3)),
        Err("Invalid delivery receipt type: Other(3)".to_string())
    );
}

#[test]
fn receipt_error_names_the_receipt_as_debug_does() {
    for code in [0u8, 7, 10, 99, 100, 255] {
        let r = DeliveryReceipt::Other(code);
        assert_eq!(
            ClassicReaction::try_from(r),
            Err(format!("Invalid delivery receipt type: {r:?}"))
        );
        assert_eq!(
            ClassicReaction::from_receipt_status(ReceiptStatus::Other(code)),
            Err(format!("Invalid delivery receipt type: Other({code})"))
        );
    }
}

#[test]
fn responses() {
    match Response::text("hi") {
        Response::Text(t) => assert_eq!(t, "hi"),
        _ => panic!("expected text"),
    }
    match Response::image(vec![1, 2], "image/png", Some("cap".to_string())) {
        Response::Image(f) => {
            assert_eq!(f.data, vec![1, 2]);
            assert_eq!(f.media_type, "image/png");
            assert_eq!(f.file_name, None);
            assert_eq!(f.caption, Some("cap".to_string()));
        }
        _ => panic!("expected image"),
    }
    match Response::file(vec![3], "application/pdf", Some("a.pdf".to_string()), None) {
        Response::File(f) => {
            assert_eq!(f.data, vec![3]);
            assert_eq!(f.media_type, "application/pdf");
            assert_eq!(f.file_name, Some("a.pdf".to_string()));
            assert_eq!(f.caption, None);
        }
        _ => panic!("expected file"),
    }
}

#[test]
fn actions_and_command_types() {
    let a = Action::Respond(vec![Response::text("x")]);
    assert!(matches!(a.clone(), Action::Respond(v) if v.len() == 1));
    assert!(matches!(Action::ShowHelp { prelude: None }, Action::ShowHelp { prelude: None }));
    assert!(matches!(Action::Ignore, Action::Ignore));
    assert_ne!(CommandType::Registered, CommandType::Unknown);
}
