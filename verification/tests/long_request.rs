use dynamic_launcher::long_request::{
    cancels, handle, LongRequestError, LongRequestMethod, LongRequestReply,
};

#[test]
fn cancel_is_answered_and_passed_on() {
    let reply = handle(&LongRequestMethod::Cancel);
    assert_eq!(reply, Ok(LongRequestReply::Cancel {}));
    assert!(cancels(&reply));
}

#[test]
fn errors_take_nothing_back() {
    assert!(!cancels(&Err(LongRequestError::Other)));
}
