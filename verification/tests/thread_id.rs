use agent_threads::thread_id::{new_call_id, ThreadId};

const ID: ThreadId = ThreadId { value: 0x0123_4567_89ab_cdef_0123_4567_89ab_cdef };

#[test]
fn id_is_written_in_groups() {
    assert_eq!(ID.to_text(), "01234567-89ab-cdef-0123-456789abcdef");
    assert_eq!(ID.to_short_text(), "01234567");
    assert_eq!(ThreadId { value: 0 }.to_text(), "00000000-0000-0000-0000-000000000000");
    assert_eq!(
        ThreadId { value: u128::MAX }.to_text(),
        "ffffffff-ffff-ffff-ffff-ffffffffffff"
    );
}

#[test]
fn id_is_read_back() {
    assert_eq!(ThreadId::from_string(&ID.to_text()), Some(ID));
    assert_eq!(ThreadId::from_string("01234567-89AB-CDEF-0123-456789ABCDEF"), Some(ID));
    assert_eq!(ThreadId::from_string(""), None);
    assert_eq!(ThreadId::from_string("01234567-89ab-cdef-0123"), None);
    assert_eq!(ThreadId::from_string("thread"), None);
}

#[test]
fn smaller_id_has_the_text_that_comes_first() {
    let (a, b) = (ThreadId { value: 0x9 }, ThreadId { value: 0xa });
    assert!(a.to_text() < b.to_text());
    assert!(ID.to_text() < ThreadId { value: ID.value + 1 }.to_text());
    assert_ne!(a.to_text(), b.to_text());
}

#[test]
fn call_ids_are_random() {
    let (one, two) = (new_call_id(), new_call_id());
    assert_ne!(one, two);
    let id = ThreadId::from_string(&one).expect("id");
    assert_eq!(id.to_text(), one);
    assert_eq!(one.chars().nth(14), Some('4'));
    assert!(matches!(one.chars().nth(19), Some('8' | '9' | 'a' | 'b')));
}
