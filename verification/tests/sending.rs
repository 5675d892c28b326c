use fcm_push::client::fcm_endpoint;
use fcm_push::client::interpret_fcm_reply;
use fcm_push::message::FcmMessage;
use fcm_push::message::MessageType;
use fcm_push::message::SendRequest;
use fcm_push::message::SendResult;

fn request(message_type: MessageType, token: Option<&str>, topic: Option<&str>) -> SendRequest {
    SendRequest {
        message_type,
        message: FcmMessage { title: String::from("T"), body: String::from("B") },
        token: token.map(String::from),
        topic: topic.map(String::from),
        android: None,
        apns: None,
    }
}

#[test]
fn endpoint_names_the_project() {
    assert_eq!(
        fcm_endpoint("my-project"),
        "https://fcm.googleapis.com/v1/projects/my-project/messages:send"
    );
}

#[test]
fn send_result_constructors() {
    let ok = SendResult::success(String::from("d"));
    assert!(ok.success);
    assert_eq!(ok.details, "d");
    let bad = SendResult::failure(String::from("e"));
    assert!(!bad.success);
    assert_eq!(bad.details, "e");
}

#[test]
fn single_send_needs_a_device_token() {
    let r = request(MessageType::Single, Some("tok-1"), None).resolve_target();
    assert!(matches!(r, Ok(t) if t == "tok-1"));
    let r = request(MessageType::Single, None, None).resolve_target();
    assert!(matches!(r, Err(f) if !f.success && f.details == "the request carries no device token"));
    let r = request(MessageType::Single, Some(""), None).resolve_target();
    assert!(matches!(r, Err(f) if !f.success));
}

#[test]
fn topic_send_needs_a_topic_name() {
    let r = request(MessageType::Topic, None, Some("news")).resolve_target();
    assert!(matches!(r, Ok(t) if t == "news"));
    let r = request(MessageType::Topic, None, None).resolve_target();
    assert!(matches!(r, Err(f) if !f.success && f.details == "the request carries no topic name"));
    let r = request(MessageType::Topic, None, Some("")).resolve_target();
    assert!(matches!(r, Err(f) if !f.success));
}

#[test]
fn fcm_reply_classification() {
    let r = interpret_fcm_reply(
        200,
        String::from("{\"name\":\"projects/p/messages/1\"}"),
        Some(String::from("projects/p/messages/1")),
        None,
    );
    assert!(r.success);
    assert_eq!(r.details, "sent: message id projects/p/messages/1");

    let r = interpret_fcm_reply(200, String::from("???"), None, None);
    assert!(r.success);
    assert_eq!(r.details, "sent");

    let r = interpret_fcm_reply(404, String::from("raw"), None, Some(String::from("not found")));
    assert!(!r.success);
    assert_eq!(r.details, "send failed (404): not found");

    let r = interpret_fcm_reply(500, String::from("raw"), None, None);
    assert!(!r.success);
    assert_eq!(r.details, "send failed (500): raw");
}
