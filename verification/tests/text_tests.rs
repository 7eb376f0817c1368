use relay_client::endpoints::{endpoint_address, Gettable, ListResult};
use relay_client::text::{copy_texts, decimal_text, same_text, split_text};
use relay_client::types::{Publish, RegisterResponse};

fn words(parts: &[&str]) -> Vec<String> {
    parts.iter().map(|part| String::from(*part)).collect()
}

#[test]
fn split_text_of_nothing_is_one_empty_part() {
    assert_eq!(split_text("", ' '), words(&[""]));
}

#[test]
fn split_text_cuts_at_every_separator() {
    assert_eq!(split_text("bot /embedded true", ' '), words(&["bot", "/embedded", "true"]));
    assert_eq!(split_text("a  b", ' '), words(&["a", "", "b"]));
    assert_eq!(split_text(" a ", ' '), words(&["", "a", ""]));
    assert_eq!(split_text(" ", ' '), words(&["", ""]));
    assert_eq!(split_text("no-space", ' '), words(&["no-space"]));
}

#[test]
fn split_text_agrees_with_the_standard_library() {
    for text in ["", " ", "a b", "데이터 ñ  x", "  lead", "trail  ", "a,b c,d"] {
        for separator in [' ', ',', 'ñ'] {
            let expected: Vec<String> = text.split(separator).map(String::from).collect();
            assert_eq!(split_text(text, separator), expected);
        }
    }
}

#[test]
fn split_text_parts_join_to_the_text_again() {
    let text = "one two  three ";
    let parts = split_text(text, ' ');
    assert_eq!(parts.len(), text.matches(' ').count() + 1);
    assert!(parts.iter().all(|part| !part.contains(' ')));
    assert_eq!(parts.join(" "), text);
}

#[test]
fn decimal_text_writes_numbers_without_leading_zeros() {
    assert_eq!(decimal_text(0), "0");
    assert_eq!(decimal_text(7), "7");
    assert_eq!(decimal_text(10), "10");
    assert_eq!(decimal_text(8080), "8080");
    assert_eq!(decimal_text(65535), "65535");
}

#[test]
fn decimal_text_agrees_with_the_standard_library() {
    for n in [0u16, 1, 9, 10, 11, 99, 100, 101, 999, 1000, 4096, 9999, 10000, 60000, 65535] {
        assert_eq!(decimal_text(n), n.to_string());
    }
}

#[test]
fn same_text_compares_characters() {
    assert!(same_text("ws", "ws"));
    assert!(!same_text("ws", "wss"));
    assert!(!same_text("ws", "WS"));
    assert!(same_text("", ""));
}

#[test]
fn copy_texts_copies_in_order() {
    let groups = words(&["fut_assist", "", "embedded_rpi"]);
    assert_eq!(copy_texts(&groups), groups);
    assert_eq!(copy_texts(&Vec::new()), Vec::<String>::new());
}

#[test]
fn endpoint_address_puts_host_port_and_path_together() {
    assert_eq!(
        endpoint_address("172.172.194.77", 8080, "register"),
        "http://172.172.194.77:8080/register"
    );
    assert_eq!(endpoint_address("h", 0, ""), "http://h:0/");
    assert_eq!(endpoint_address("relay.local", 65535, "publish"), "http://relay.local:65535/publish");
}

#[test]
fn endpoints_are_register_and_publish() {
    assert_eq!(<RegisterResponse as Gettable>::API_ENDPOINT, "register");
    assert_eq!(<Publish as Gettable>::API_ENDPOINT, "publish");
}

#[test]
fn list_result_holds_its_items() {
    let list = ListResult { items: vec![1u8, 2, 3] };
    assert_eq!(list.items, vec![1u8, 2, 3]);
}

#[test]
fn decimal_text_reads_back_as_the_number() {
    for n in [0u16, 5, 10, 42, 100, 8080, 65535] {
        let text = decimal_text(n);
        assert_eq!(text.parse::<u16>(), Ok(n));
        assert_eq!(text.starts_with('0'), n == 0);
    }
}
