use reminder_bot::id::ID;
use reminder_bot::notify::{DeliveryFailure, Notify};
use reminder_bot::reminder::Reminder;
use uuid::Uuid;

struct Notifier;

impl Notify for Notifier {
    fn notify(&self, _reminder: &Reminder) -> Result<&Self, DeliveryFailure> {
        Ok(self)
    }
}

struct Offline;

impl Notify for Offline {
    fn notify(&self, reminder: &Reminder) -> Result<&Self, DeliveryFailure> {
        Err(DeliveryFailure { reason: format!("no route to chat {}", reminder.chat_id) })
    }
}

#[test]
fn test_compilation() {
    let uuid = Uuid::new_v4();

    let id = ID {
        description: "test_id".to_string(),
        uuid: uuid,
    };

    assert!(Notifier
        .notify(&Reminder {
            id: id,
            chat_id: "1234".to_string(),
            message: "hello".to_string(),
        })
        .is_ok());
}

#[test]
fn a_failed_delivery_says_why() {
    let reminder = Reminder {
        id: ID { description: "d".to_string(), uuid: Uuid::from_u128(1) },
        chat_id: "1234".to_string(),
        message: "hello".to_string(),
    };
    match Offline.notify(&reminder) {
        Ok(_) => panic!("delivered"),
        Err(failure) => assert_eq!(failure.reason, "no route to chat 1234"),
    }
}

#[test]
fn ids_are_equal_by_their_uuid() {
    let uuid = Uuid::from_u128(0x0123_4567_89ab_cdef_0123_4567_89ab_cdef);
    let a = ID { description: "first".to_string(), uuid };
    let b = ID { description: "second".to_string(), uuid };
    assert!(a == b);
    assert!(b == a);
    assert!(a == a);
}

#[test]
fn ids_differ_by_their_uuid() {
    let a = ID { description: "same".to_string(), uuid: Uuid::from_u128(1) };
    let b = ID { description: "same".to_string(), uuid: Uuid::from_u128(2) };
    assert!(a != b);
    assert!(b != a);
    let c = ID { description: "same".to_string(), uuid: Uuid::from_u128(1u128 << 127) };
    assert!(a != c);
}

#[test]
fn fresh_ids_differ() {
    let a = ID { description: "x".to_string(), uuid: Uuid::new_v4() };
    let b = ID { description: "x".to_string(), uuid: Uuid::new_v4() };
    assert!(a != b);
    assert!(a == a);
}
