use pusher_rs::channels::classify_channel;
use pusher_rs::{Channel, ChannelList, ChannelType, PusherError};
use serde_json::Value;

#[test]
fn channel_kind_follows_prefix() {
    assert_eq!(classify_channel("my-channel"), ChannelType::Public);
    assert_eq!(classify_channel("private-my-channel"), ChannelType::Private);
    assert_eq!(classify_channel("presence-my-channel"), ChannelType::Presence);
    assert_eq!(classify_channel("private-encrypted-x"), ChannelType::PrivateEncrypted);
    assert_eq!(classify_channel("private-encrypted"), ChannelType::Private);
    assert_eq!(classify_channel("presence"), ChannelType::Public);
    assert_eq!(classify_channel(""), ChannelType::Public);
}

#[test]
fn new_channel_is_unsubscribed() {
    let c = Channel::new("private-x");
    assert_eq!(c.name(), "private-x");
    assert_eq!(*c.channel_type(), ChannelType::Private);
    assert!(!c.is_subscribed());
    assert!(c.members().is_none());
    assert_eq!(c.member_count(), 0);
}

#[test]
fn set_subscribed_toggles() {
    let mut c = Channel::new("my-channel");
    c.set_subscribed(true);
    assert!(c.is_subscribed());
    c.set_subscribed(false);
    assert!(!c.is_subscribed());
    assert_eq!(c.name(), "my-channel");
}

#[test]
fn presence_members_add_replace_remove() {
    let mut c = Channel::new("presence-room");
    assert_eq!(c.member_count(), 0);
    assert!(c.members().is_some());
    c.add_member("u1".to_string(), serde_json::from_str(r#"{"name":"A"}"#).unwrap()).unwrap();
    c.add_member("u2".to_string(), Value::Null).unwrap();
    assert_eq!(c.member_count(), 2);
    c.add_member("u1".to_string(), Value::Bool(true)).unwrap();
    assert_eq!(c.member_count(), 2);
    assert_eq!(c.members().unwrap().get("u1"), Some(&Value::Bool(true)));
    c.remove_member("u1").unwrap();
    assert_eq!(c.member_count(), 1);
    assert!(!c.members().unwrap().contains_key("u1"));
    c.remove_member("nobody").unwrap();
    assert_eq!(c.member_count(), 1);
    c.clear_members();
    assert_eq!(c.member_count(), 0);
    assert!(c.members().is_some());
}

#[test]
fn members_refused_on_other_channels() {
    let mut c = Channel::new("private-x");
    match c.add_member("u".to_string(), Value::Null) {
        Err(PusherError::ChannelError(m)) => assert_eq!(m, "Not a presence channel"),
        _ => panic!("expected a channel error"),
    }
    match c.remove_member("u") {
        Err(PusherError::ChannelError(m)) => assert_eq!(m, "Not a presence channel"),
        _ => panic!("expected a channel error"),
    }
    c.clear_members();
    assert!(c.members().is_none());
    assert_eq!(c.member_count(), 0);
}

#[test]
fn channel_list_add_get_remove() {
    let mut list = ChannelList::new();
    assert!(!list.contains("a"));
    list.add(Channel::new("a"));
    list.add(Channel::new("presence-b"));
    assert!(list.contains("a"));
    assert!(list.contains("presence-b"));
    assert_eq!(list.get("presence-b").unwrap().name(), "presence-b");
    assert!(list.get("c").is_none());
    list.get_mut("a").unwrap().set_subscribed(true);
    assert!(list.get("a").unwrap().is_subscribed());
    let removed = list.remove("a").unwrap();
    assert_eq!(removed.name(), "a");
    assert!(removed.is_subscribed());
    assert!(!list.contains("a"));
    assert!(list.remove("a").is_none());
}

#[test]
fn channel_list_add_replaces_same_name() {
    let mut list = ChannelList::default();
    let mut first = Channel::new("a");
    first.set_subscribed(true);
    list.add(first);
    list.add(Channel::new("a"));
    assert_eq!(list.iter().len(), 1);
    assert_eq!(list.len(), 1);
    list.add(Channel::new("b"));
    assert_eq!(list.len(), 2);
    assert!(!list.get("a").unwrap().is_subscribed());
}

#[test]
fn channel_list_iterates_every_channel() {
    let mut list = ChannelList::new();
    list.add(Channel::new("x"));
    list.add(Channel::new("y"));
    list.add(Channel::new("z"));
    let mut names: Vec<String> = list.iter().iter().map(|c| c.name().to_string()).collect();
    names.sort();
    assert_eq!(names, vec!["x", "y", "z"]);
    for c in list.iter_mut().iter_mut() {
        c.set_subscribed(true);
    }
    assert!(list.iter().iter().all(|c| c.is_subscribed()));
}

#[test]
fn cloned_channel_keeps_members() {
    let mut c = Channel::new("presence-room");
    c.set_subscribed(true);
    c.add_member("u1".to_string(), Value::Bool(true)).unwrap();
    let d = c.clone();
    assert_eq!(d.name(), "presence-room");
    assert!(d.is_subscribed());
    assert_eq!(d.member_count(), 1);
    assert_eq!(d.members().unwrap().get("u1"), Some(&Value::Bool(true)));
}
