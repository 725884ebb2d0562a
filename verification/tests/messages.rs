use axraw::message::{check_echo_reply, echo_request_ident};

#[test]
fn a_request_names_its_identifier() {
    assert_eq!(echo_request_ident(&vec![8, 0, 1, 2, 0xab, 0xcd, 0, 1]), Some(0xabcd));
    assert_eq!(echo_request_ident(&vec![8, 7, 1, 2, 0xff, 0xff, 0, 1, 9]), Some(0xffff));
}

#[test]
fn other_messages_name_none() {
    assert_eq!(echo_request_ident(&vec![8, 0, 1, 2, 0xab, 0xcd, 0]), None);
    assert_eq!(echo_request_ident(&vec![0, 0, 1, 2, 0xab, 0xcd, 0, 1]), None);
    assert_eq!(echo_request_ident(&vec![]), None);
}

#[test]
fn replies_are_told_from_other_messages() {
    assert!(check_echo_reply(&vec![0, 0, 1, 2, 0, 0, 0, 1]));
    assert!(check_echo_reply(&vec![0, 0, 1, 2, 0, 0, 0, 1, 5, 5]));
    assert!(!check_echo_reply(&vec![0, 0, 1, 2, 0, 0, 0]));
    assert!(!check_echo_reply(&vec![8, 0, 1, 2, 0, 0, 0, 1]));
    assert!(!check_echo_reply(&vec![0, 1, 1, 2, 0, 0, 0, 1]));
}
