use compound_dialogue::{ConversationStore, Reply, State};

#[test]
fn new_store_holds_nothing() {
    let store = ConversationStore::new();
    assert_eq!(store.len(), 0);
    assert_eq!(store.get(0), State::Start);
    assert_eq!(store.get(42), State::Start);
    assert_eq!(store.get(i64::MIN), State::Start);
}

#[test]
fn set_and_get_by_key() {
    let mut store = ConversationStore::new();
    store.set(1, State::ReceiveInitial);
    store.set(2, State::ReceivePersent { initial: 10 });
    assert_eq!(store.get(1), State::ReceiveInitial);
    assert_eq!(store.get(2), State::ReceivePersent { initial: 10 });
    assert_eq!(store.get(3), State::Start);
    assert_eq!(store.len(), 2);
    store.set(1, State::ReceiveTime { initial: 10, persent: 3 });
    assert_eq!(store.get(1), State::ReceiveTime { initial: 10, persent: 3 });
    assert_eq!(store.len(), 2);
}

#[test]
fn start_is_not_stored() {
    let mut store = ConversationStore::new();
    store.set(1, State::Start);
    assert_eq!(store.len(), 0);
    store.set(1, State::ReceiveInitial);
    assert_eq!(store.len(), 1);
    store.set(1, State::Start);
    assert_eq!(store.len(), 0);
    assert_eq!(store.get(1), State::Start);
}

#[test]
fn remove_ends_a_conversation() {
    let mut store = ConversationStore::new();
    store.set(1, State::ReceiveInitial);
    store.set(2, State::ReceiveInitial);
    store.remove(1);
    assert_eq!(store.get(1), State::Start);
    assert_eq!(store.get(2), State::ReceiveInitial);
    assert_eq!(store.len(), 1);
    store.remove(1);
    store.remove(7);
    assert_eq!(store.len(), 1);
}

#[test]
fn turn_does_not_change_the_store() {
    let mut store = ConversationStore::new();
    store.set(5, State::ReceivePersent { initial: 1000 });
    let turn = store.turn(5, Some("5"));
    assert_eq!(turn.next, State::ReceiveTime { initial: 1000, persent: 5 });
    assert_eq!(turn.reply, Reply::AskTime);
    assert_eq!(store.get(5), State::ReceivePersent { initial: 1000 });
    assert_eq!(store.len(), 1);
}

#[test]
fn settle_moves_on_only_after_delivery() {
    let mut store = ConversationStore::new();
    let turn = store.turn(5, Some("hi"));
    store.settle(5, turn.next, false);
    assert_eq!(store.get(5), State::Start);
    assert_eq!(store.len(), 0);
    store.settle(5, turn.next, true);
    assert_eq!(store.get(5), State::ReceiveInitial);

    store.set(5, State::ReceiveTime { initial: 1000, persent: 5 });
    let turn = store.turn(5, Some("2"));
    assert_eq!(turn.reply, Reply::Report { initial: 1000, persent: 5, time: 2 });
    store.settle(5, turn.next, false);
    assert_eq!(store.get(5), State::ReceiveTime { initial: 1000, persent: 5 });
    let again = store.turn(5, Some("2"));
    assert_eq!(again, turn);
    store.settle(5, again.next, true);
    assert_eq!(store.get(5), State::Start);
    assert_eq!(store.len(), 0);
}

#[test]
fn exchange_runs_a_whole_conversation() {
    let mut store = ConversationStore::new();
    assert_eq!(store.exchange(9, Some("hi")), Reply::AskInitial);
    assert_eq!(store.get(9), State::ReceiveInitial);
    assert_eq!(store.exchange(9, Some("1000")), Reply::AskPersent);
    assert_eq!(store.get(9), State::ReceivePersent { initial: 1000 });
    assert_eq!(store.exchange(9, Some("abc")), Reply::DigitWanted);
    assert_eq!(store.get(9), State::ReceivePersent { initial: 1000 });
    assert_eq!(store.exchange(9, Some("5")), Reply::AskTime);
    assert_eq!(store.get(9), State::ReceiveTime { initial: 1000, persent: 5 });
    assert_eq!(store.exchange(9, None), Reply::NumberWanted);
    assert_eq!(store.len(), 1);
    assert_eq!(
        store.exchange(9, Some("2")),
        Reply::Report { initial: 1000, persent: 5, time: 2 }
    );
    assert_eq!(store.get(9), State::Start);
    assert_eq!(store.len(), 0);
}

#[test]
fn conversations_do_not_touch_each_other() {
    let mut store = ConversationStore::new();
    store.exchange(1, Some("hi"));
    store.exchange(1, Some("100"));
    assert_eq!(store.get(1), State::ReceivePersent { initial: 100 });

    store.exchange(2, Some("hello"));
    assert_eq!(store.get(1), State::ReceivePersent { initial: 100 });
    store.exchange(2, Some("7"));
    store.exchange(2, Some("8"));
    assert_eq!(store.get(2), State::ReceiveTime { initial: 7, persent: 8 });
    assert_eq!(store.get(1), State::ReceivePersent { initial: 100 });

    assert_eq!(store.exchange(2, Some("9")), Reply::Report { initial: 7, persent: 8, time: 9 });
    assert_eq!(store.get(2), State::Start);
    assert_eq!(store.get(1), State::ReceivePersent { initial: 100 });

    assert_eq!(store.exchange(1, Some("3")), Reply::AskTime);
    assert_eq!(store.exchange(1, Some("4")), Reply::Report { initial: 100, persent: 3, time: 4 });
    assert_eq!(store.len(), 0);
}

#[test]
fn turns_on_different_keys_commute() {
    let script_a = [Some("hi"), Some("10"), None, Some("20"), Some("30")];
    let script_b = [None, Some("x"), Some("1"), Some("2"), Some("3")];

    let mut first = ConversationStore::new();
    let mut first_replies = Vec::new();
    for i in 0..5 {
        first_replies.push(first.exchange(-1, script_a[i]));
        first_replies.push(first.exchange(1, script_b[i]));
    }

    let mut second = ConversationStore::new();
    let mut replies_b = Vec::new();
    for input in script_b {
        replies_b.push(second.exchange(1, input));
    }
    let mut replies_a = Vec::new();
    for input in script_a {
        replies_a.push(second.exchange(-1, input));
    }

    for i in 0..5 {
        assert_eq!(first_replies[2 * i], replies_a[i]);
        assert_eq!(first_replies[2 * i + 1], replies_b[i]);
    }
    assert_eq!(first.get(-1), second.get(-1));
    assert_eq!(first.get(1), second.get(1));
    assert_eq!(first.len(), second.len());
}

#[test]
fn many_conversations_side_by_side() {
    let mut store = ConversationStore::new();
    for key in 0..100i64 {
        store.exchange(key, None);
        store.exchange(key, Some(&format!("{}", key)));
    }
    assert_eq!(store.len(), 100);
    for key in 0..100i64 {
        assert_eq!(store.get(key), State::ReceivePersent { initial: key as i32 });
    }
    for key in (0..100i64).step_by(2) {
        store.exchange(key, Some("1"));
        store.exchange(key, Some("1"));
    }
    assert_eq!(store.len(), 50);
    for key in 0..100i64 {
        let expected =
            if key % 2 == 0 { State::Start } else { State::ReceivePersent { initial: key as i32 } };
        assert_eq!(store.get(key), expected);
    }
}
