use hermod::errors::ApplicationError;
use hermod::user::User;
use hermod::postmark::{EmailBody, EmailJson};
use hermod::requests::{FieldCreationRequest, ForgottenPasswordQuery, FormCreationRequest, ScanQrCodeRequest};

#[test]
fn email_json_sets_only_the_three_fields() {
    let e = EmailJson::new("to@example.com", "from@example.com", "hello");
    assert_eq!(e.to, "to@example.com");
    assert_eq!(e.from, "from@example.com");
    assert_eq!(e.text_body, "hello");
    assert!(e.cc.is_none() && e.bcc.is_none() && e.subject.is_none() && e.tag.is_none());
    assert!(e.reply_to.is_none() && e.headers.is_none() && e.track_opens.is_none());
    assert!(e.track_links.is_none() && e.metadata.is_none() && e.attachments.is_none());
    assert!(e.message_stream.is_none());
    assert!(matches!(EmailBody::TextBody("x"), EmailBody::TextBody("x")));
}

#[test]
fn errors_map_to_statuses() {
    assert_eq!(ApplicationError::UnexpectedError("db".to_string()).status_code(), 500);
    assert_eq!(ApplicationError::NotFoundError("form".to_string()).status_code(), 404);
    assert_eq!(ApplicationError::NotFoundError("form".to_string()).www_authenticate(), None);
    assert_eq!(ApplicationError::UnexpectedError("db".to_string()).www_authenticate(), None);
}

#[test]
fn request_types_hold_their_fields() {
    let form = FormCreationRequest {
        title: "Survey".to_string(),
        fields: vec![FieldCreationRequest { caption: "Name".to_string(), field_type: "text".to_string() }],
    };
    assert_eq!(form.fields[0].field_type, "text");
    let scan = ScanQrCodeRequest { id: "abc".to_string() };
    assert_eq!(scan.clone().id, "abc");
}

#[test]
fn reset_reply_depends_on_the_username_only() {
    let q = ForgottenPasswordQuery { username: "ghost".to_string() };
    assert_eq!(q.reply(), "Successfully generated forgotten password request for user ghost.");
}

#[test]
fn reset_plan_replies_alike_for_known_and_unknown_names() {
    let q = ForgottenPasswordQuery { username: "alice".to_string() };
    let known = User { id: 4, username: "alice".to_string(), password: String::new(), email: Some("a@x".to_string()) };
    let no_mail = User { id: 4, username: "alice".to_string(), password: String::new(), email: None };
    let (r1, n1) = q.plan(Some(known));
    let (r2, n2) = q.plan(None);
    let (r3, n3) = q.plan(Some(no_mail));
    assert_eq!(r1, r2);
    assert_eq!(r2, r3);
    assert_eq!(n1, Some((4, "a@x".to_string())));
    assert_eq!(n2, None);
    assert_eq!(n3, None);
}
