use lansend::messages::{WsMessageToClient};
use lansend::presence::ConnectionHandle;
use lansend::registry::OnlineUsers;
use lansend::user::User;

fn profile(id: &str, name: &str) -> User {
    User { id: id.to_string(), user_name: name.to_string() }
}

fn h(id: u64) -> ConnectionHandle {
    ConnectionHandle { id }
}

fn listed_ids(reg: &OnlineUsers) -> Vec<String> {
    reg.get_user_list().into_iter().map(|u| u.id).collect()
}

#[test]
fn new_registry_is_empty_and_clean() {
    let reg = OnlineUsers::new();
    assert!(!reg.is_modified());
    assert!(reg.get_user_list().is_empty());
    assert!(reg.all_connections().is_empty());
}

#[test]
fn user_listed_only_while_connected() {
    let mut reg = OnlineUsers::new();
    reg.update_user_info(profile("u1", "Alice"));
    assert!(listed_ids(&reg).is_empty());
    reg.add_session("u1", "c1", h(1));
    assert_eq!(listed_ids(&reg), vec!["u1".to_string()]);
    reg.add_session("u1", "c2", h(2));
    reg.remove_session("u1", "c1");
    assert_eq!(listed_ids(&reg), vec!["u1".to_string()]);
    reg.remove_session("u1", "c2");
    assert!(listed_ids(&reg).is_empty());
}

#[test]
fn connection_before_profile_is_not_listed() {
    let mut reg = OnlineUsers::new();
    reg.add_session("u1", "c1", h(1));
    assert!(listed_ids(&reg).is_empty());
    reg.update_user_info(profile("u1", "Alice"));
    let list = reg.get_user_list();
    assert_eq!(list.len(), 1);
    assert_eq!(list[0].user_name, "Alice");
}

#[test]
fn profile_update_keeps_connections() {
    let mut reg = OnlineUsers::new();
    reg.update_user_info(profile("u1", "Alice"));
    reg.add_session("u1", "c1", h(7));
    reg.update_user_info(profile("u1", "Alicia"));
    let list = reg.get_user_list();
    assert_eq!(list.len(), 1);
    assert_eq!(list[0].user_name, "Alicia");
    assert_eq!(reg.all_connections(), vec![h(7)]);
}

#[test]
fn repeated_connection_id_takes_new_handle() {
    let mut reg = OnlineUsers::new();
    reg.add_session("u1", "c1", h(1));
    reg.add_session("u1", "c1", h(9));
    assert_eq!(reg.all_connections(), vec![h(9)]);
}

#[test]
fn disconnect_twice_is_harmless() {
    let mut reg = OnlineUsers::new();
    reg.update_user_info(profile("u1", "Alice"));
    reg.add_session("u1", "c1", h(1));
    reg.remove_session("u1", "c1");
    reg.remove_session("u1", "c1");
    assert!(listed_ids(&reg).is_empty());
    assert!(reg.all_connections().is_empty());
}

#[test]
fn disconnect_of_unknown_pair_changes_nothing_but_flag() {
    let mut reg = OnlineUsers::new();
    reg.update_user_info(profile("u1", "Alice"));
    reg.add_session("u1", "c1", h(1));
    let _ = reg.broadcast_users_if_needed();
    reg.remove_session("nobody", "c9");
    reg.remove_session("u1", "c9");
    assert!(reg.is_modified());
    assert!(reg.get_online_user("nobody").is_none());
    assert_eq!(listed_ids(&reg), vec!["u1".to_string()]);
    assert_eq!(reg.all_connections(), vec![h(1)]);
}

#[test]
fn swap_removal_moves_last_connection() {
    let mut reg = OnlineUsers::new();
    reg.add_session("u1", "a", h(1));
    reg.add_session("u1", "b", h(2));
    reg.add_session("u1", "c", h(3));
    reg.remove_session("u1", "a");
    assert_eq!(reg.all_connections(), vec![h(3), h(2)]);
}

#[test]
fn broadcast_once_per_burst() {
    let mut reg = OnlineUsers::new();
    reg.update_user_info(profile("u1", "Alice"));
    reg.add_session("u1", "c1", h(1));
    reg.update_user_info(profile("u2", "Bob"));
    reg.add_session("u2", "c2", h(2));
    reg.add_session("u2", "c3", h(3));
    let first = reg.broadcast_users_if_needed().expect("presence changed");
    assert_eq!(first.targets, vec![h(1), h(2), h(3)]);
    match first.message {
        WsMessageToClient::Users(users) => {
            let ids: Vec<String> = users.into_iter().map(|u| u.id).collect();
            assert_eq!(ids, vec!["u1".to_string(), "u2".to_string()]);
        }
        other => panic!("unexpected message {:?}", other),
    }
    assert!(reg.broadcast_users_if_needed().is_none());
    assert!(!reg.is_modified());
}

#[test]
fn no_broadcast_without_change() {
    let mut reg = OnlineUsers::new();
    assert!(reg.broadcast_users_if_needed().is_none());
}

#[test]
fn message_to_user_reaches_all_its_connections() {
    let mut reg = OnlineUsers::new();
    reg.add_session("u1", "c1", h(1));
    reg.add_session("u1", "c2", h(2));
    reg.add_session("u2", "c3", h(3));
    let d = reg.send_message_to_uid("u1", WsMessageToClient::Users(vec![]));
    assert_eq!(d.targets, vec![h(1), h(2)]);
    let none = reg.send_message_to_uid("u3", WsMessageToClient::Users(vec![]));
    assert!(none.targets.is_empty());
}

#[test]
fn mail_targets_follow_receivers_in_order() {
    let mut reg = OnlineUsers::new();
    reg.add_session("a", "ca", h(1));
    reg.add_session("b", "cb", h(2));
    reg.remove_session("b", "cb");
    reg.add_session("c", "cc1", h(3));
    reg.add_session("c", "cc2", h(4));
    let receivers = vec!["a".to_string(), "b".to_string(), "c".to_string(), "a".to_string()];
    assert_eq!(reg.mail_targets(&receivers), vec![h(1), h(3), h(4), h(1)]);
}
