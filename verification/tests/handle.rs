use websocket_service::{Storable, WebSocketHandle};

struct Greeting {
    name: String,
}

impl From<Greeting> for Storable {
    fn from(greeting: Greeting) -> Storable {
        if greeting.name.is_empty() {
            None
        } else {
            Some(format!("hello {}", greeting.name))
        }
    }
}

#[test]
fn a_new_handle_is_open_and_holds_its_socket() {
    let handle = WebSocketHandle::new(7u32);
    assert!(handle.is_open());
    assert_eq!(handle.socket(), Some(&7u32));
}

#[test]
fn send_gives_the_frame_body_of_the_data() {
    let mut handle = WebSocketHandle::new("socket".to_string());
    let frame = handle.send(Some("ping".to_string()));
    assert_eq!(frame, Some("ping".to_string()));
}

#[test]
fn send_of_plain_text_gives_that_text() {
    let mut handle = WebSocketHandle::new(1u8);
    assert_eq!(handle.send("plain".to_string()), Some("plain".to_string()));
    assert_eq!(handle.send(String::new()), Some(String::new()));
}

#[test]
fn send_of_data_without_text_form_gives_nothing() {
    let mut handle = WebSocketHandle::new(1u8);
    let nothing: Storable = None;
    assert_eq!(handle.send(nothing), None);
}

#[test]
fn send_converts_through_the_data_type() {
    let mut handle = WebSocketHandle::new(1u8);
    let named = Greeting { name: "world".to_string() };
    let unnamed = Greeting { name: String::new() };
    assert_eq!(handle.send(named), Some("hello world".to_string()));
    assert_eq!(handle.send(unnamed), None);
}

#[test]
fn send_leaves_the_handle_open_with_the_same_socket() {
    let mut handle = WebSocketHandle::new(42u64);
    let first = handle.send(Some("one".to_string()));
    let second = handle.send(Some("two".to_string()));
    assert_eq!(first, Some("one".to_string()));
    assert_eq!(second, Some("two".to_string()));
    assert!(handle.is_open());
    assert_eq!(handle.socket(), Some(&42u64));
}

#[test]
fn cancel_hands_out_the_socket_and_closes_the_handle() {
    let mut handle = WebSocketHandle::new("socket".to_string());
    let socket = handle.cancel();
    assert_eq!(socket, "socket".to_string());
    assert!(!handle.is_open());
    assert_eq!(handle.socket(), None);
}

#[test]
fn cancel_after_sending_hands_out_the_socket_given_at_first() {
    let mut handle = WebSocketHandle::new(vec![1u8, 2, 3]);
    let frame = handle.send(Some("bye".to_string()));
    assert_eq!(frame, Some("bye".to_string()));
    assert_eq!(handle.cancel(), vec![1u8, 2, 3]);
    assert!(!handle.is_open());
}
