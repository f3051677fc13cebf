use user_service::store::UserStore;
use user_service::user::User;

fn user(id: &str, name: &str, email: &str, created_at: &str) -> User {
    User {
        id: id.to_string(),
        name: name.to_string(),
        email: email.to_string(),
        created_at: created_at.to_string(),
    }
}

fn sorted_ids(listing: &[User]) -> Vec<String> {
    let mut ids: Vec<String> = listing.iter().map(|u| u.id.clone()).collect();
    ids.sort();
    ids
}

#[test]
fn new_store_is_empty() {
    let store = UserStore::new();
    assert_eq!(store.len(), 0);
    assert!(store.list().is_empty());
    assert!(!store.contains(&"a".to_string()));
    assert_eq!(store.get(&"a".to_string()), None);
}

#[test]
fn insert_then_get_returns_every_field() {
    let mut store = UserStore::new();
    let ann = user("u-1", "Ann", "ann@x.com", "2024-01-02T03:04:05+00:00");
    store.insert(ann.clone());
    assert_eq!(store.get(&"u-1".to_string()), Some(&ann));
    let found = store.get(&"u-1".to_string()).unwrap();
    assert_eq!(found.id, "u-1");
    assert_eq!(found.name, "Ann");
    assert_eq!(found.email, "ann@x.com");
    assert_eq!(found.created_at, "2024-01-02T03:04:05+00:00");
    assert_eq!(store.len(), 1);
    assert!(store.contains(&"u-1".to_string()));
}

#[test]
fn get_distinguishes_ids() {
    let mut store = UserStore::new();
    store.insert(user("a", "Ann", "ann@x.com", "t1"));
    store.insert(user("b", "Bob", "bob@x.com", "t2"));
    assert_eq!(store.get(&"a".to_string()).unwrap().name, "Ann");
    assert_eq!(store.get(&"b".to_string()).unwrap().name, "Bob");
    assert_eq!(store.get(&"c".to_string()), None);
    assert_eq!(store.get(&"".to_string()), None);
    assert_eq!(store.get(&"A".to_string()), None);
    assert_eq!(store.get(&"ab".to_string()), None);
}

#[test]
fn insert_under_stored_id_overwrites() {
    let mut store = UserStore::new();
    store.insert(user("a", "Ann", "ann@x.com", "t1"));
    store.insert(user("b", "Bob", "bob@x.com", "t2"));
    store.insert(user("a", "Anna", "anna@x.com", "t3"));
    assert_eq!(store.len(), 2);
    assert_eq!(store.get(&"a".to_string()), Some(&user("a", "Anna", "anna@x.com", "t3")));
    assert_eq!(store.get(&"b".to_string()), Some(&user("b", "Bob", "bob@x.com", "t2")));
    assert_eq!(sorted_ids(&store.list()), vec!["a".to_string(), "b".to_string()]);
}

#[test]
fn remove_reports_whether_a_record_existed() {
    let mut store = UserStore::new();
    store.insert(user("a", "Ann", "ann@x.com", "t1"));
    store.insert(user("b", "Bob", "bob@x.com", "t2"));
    assert!(store.remove(&"a".to_string()));
    assert_eq!(store.get(&"a".to_string()), None);
    assert_eq!(store.len(), 1);
    assert_eq!(store.get(&"b".to_string()).unwrap().name, "Bob");
}

#[test]
fn second_remove_of_same_id_returns_false() {
    let mut store = UserStore::new();
    store.insert(user("a", "Ann", "ann@x.com", "t1"));
    assert!(store.remove(&"a".to_string()));
    assert!(!store.remove(&"a".to_string()));
    assert!(!store.remove(&"a".to_string()));
    assert_eq!(store.len(), 0);
}

#[test]
fn get_and_remove_of_unknown_id_find_nothing() {
    let mut store = UserStore::new();
    assert_eq!(store.get(&"ghost".to_string()), None);
    assert!(!store.remove(&"ghost".to_string()));
    store.insert(user("a", "Ann", "ann@x.com", "t1"));
    assert_eq!(store.get(&"ghost".to_string()), None);
    assert!(!store.remove(&"ghost".to_string()));
    assert_eq!(store.len(), 1);
    assert_eq!(store.get(&"a".to_string()).unwrap().email, "ann@x.com");
}

#[test]
fn reinsert_after_remove_is_visible_again() {
    let mut store = UserStore::new();
    store.insert(user("a", "Ann", "ann@x.com", "t1"));
    assert!(store.remove(&"a".to_string()));
    store.insert(user("a", "Ann2", "ann2@x.com", "t2"));
    assert_eq!(store.get(&"a".to_string()), Some(&user("a", "Ann2", "ann2@x.com", "t2")));
    assert!(store.remove(&"a".to_string()));
    assert!(!store.remove(&"a".to_string()));
}

#[test]
fn list_is_a_snapshot_copy() {
    let mut store = UserStore::new();
    store.insert(user("a", "Ann", "ann@x.com", "t1"));
    let mut snapshot = store.list();
    snapshot[0].name = "changed".to_string();
    store.insert(user("b", "Bob", "bob@x.com", "t2"));
    assert_eq!(snapshot.len(), 1);
    assert_eq!(store.get(&"a".to_string()).unwrap().name, "Ann");
    assert_eq!(store.list().len(), 2);
}

#[test]
fn list_after_a_sequence_shows_inserted_minus_removed() {
    let mut store = UserStore::new();
    store.insert(user("a", "Ann", "ann@x.com", "t1"));
    store.insert(user("b", "Bob", "bob@x.com", "t2"));
    store.insert(user("c", "Cyd", "cyd@x.com", "t3"));
    assert!(store.remove(&"b".to_string()));
    store.insert(user("d", "Dee", "dee@x.com", "t4"));
    store.insert(user("a", "Ann", "ann@y.com", "t5"));
    assert!(!store.remove(&"zzz".to_string()));
    assert!(store.remove(&"d".to_string()));
    store.insert(user("b", "Bea", "bea@x.com", "t6"));
    assert!(store.remove(&"b".to_string()));

    let listing = store.list();
    assert_eq!(sorted_ids(&listing), vec!["a".to_string(), "c".to_string()]);
    assert_eq!(listing.len(), store.len());
    for shown in listing.iter() {
        assert_eq!(store.get(&shown.id), Some(shown));
    }
    assert_eq!(store.get(&"a".to_string()).unwrap().email, "ann@y.com");
}

#[test]
fn inserts_with_distinct_ids_are_all_visible_in_any_order() {
    let users = vec![
        user("a", "Ann", "ann@x.com", "t1"),
        user("b", "Bob", "bob@x.com", "t2"),
        user("c", "Cyd", "cyd@x.com", "t3"),
        user("d", "Dee", "dee@x.com", "t4"),
    ];
    let mut forward = UserStore::new();
    for u in users.iter() {
        forward.insert(u.clone());
    }
    let mut backward = UserStore::new();
    for u in users.iter().rev() {
        backward.insert(u.clone());
    }
    assert_eq!(forward.len(), 4);
    assert_eq!(backward.len(), 4);
    assert_eq!(sorted_ids(&forward.list()), sorted_ids(&backward.list()));
    for u in users.iter() {
        assert_eq!(forward.get(&u.id), Some(u));
        assert_eq!(backward.get(&u.id), Some(u));
    }
}

#[test]
fn many_records_keep_one_entry_per_id() {
    let mut store = UserStore::new();
    for round in 0..3 {
        for n in 0..50 {
            store.insert(user(&format!("id-{n}"), &format!("name-{round}"), "e", "t"));
        }
    }
    assert_eq!(store.len(), 50);
    let ids = sorted_ids(&store.list());
    let mut unique = ids.clone();
    unique.dedup();
    assert_eq!(ids, unique);
    assert_eq!(store.get(&"id-7".to_string()).unwrap().name, "name-2");
    for n in 0..50 {
        assert!(store.remove(&format!("id-{n}")));
    }
    assert_eq!(store.len(), 0);
    assert!(store.list().is_empty());
}

#[test]
fn user_clone_keeps_every_field() {
    let ann = user("a", "Ann", "ann@x.com", "t1");
    let copy = ann.clone();
    assert_eq!(copy, ann);
    assert_eq!(copy.id, "a");
    assert_eq!(copy.name, "Ann");
    assert_eq!(copy.email, "ann@x.com");
    assert_eq!(copy.created_at, "t1");
}
