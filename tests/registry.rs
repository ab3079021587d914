use qsp_agent::registry::{RegistryError, WebrtcSessionManager};

#[test]
fn added_sessions_get_distinct_identifiers() {
    let mut r: WebrtcSessionManager<u8> = WebrtcSessionManager::new();
    let mut ids: Vec<String> = Vec::new();
    for k in 0..20u8 {
        let id = r.add_session(k).unwrap();
        assert_eq!(id.len(), 36);
        assert!(!ids.contains(&id));
        ids.push(id);
    }
    assert_eq!(r.len(), 20);
    assert!(ids.iter().all(|id| r.contains(id)));
}

#[test]
fn deleting_an_unknown_session_changes_nothing() {
    let mut r: WebrtcSessionManager<u8> = WebrtcSessionManager::new();
    let id = r.add_session(1).unwrap();
    assert!(!r.delete_session(&"no-such-session".to_string()));
    assert_eq!(r.len(), 1);
    assert!(r.contains(&id));
    let mut empty: WebrtcSessionManager<u8> = WebrtcSessionManager::new();
    assert!(!empty.delete_session(&id));
    assert_eq!(empty.len(), 0);
}

#[test]
fn deleting_a_session_removes_only_it() {
    let mut r: WebrtcSessionManager<u8> = WebrtcSessionManager::new();
    let a = r.add_session(1).unwrap();
    let b = r.add_session(2).unwrap();
    assert!(r.delete_session(&a));
    assert_eq!(r.len(), 1);
    assert!(!r.contains(&a));
    assert!(r.contains(&b));
    assert!(!r.delete_session(&a));
    assert_eq!(r.len(), 1);
}

#[test]
fn an_identifier_is_never_issued_twice() {
    let mut r: WebrtcSessionManager<u8> = WebrtcSessionManager::new();
    assert_eq!(r.insert_session("fixed".to_string(), 1), Ok(()));
    assert!(r.was_issued(&"fixed".to_string()));
    assert_eq!(r.insert_session("fixed".to_string(), 2), Err(RegistryError::DuplicateSessionId));
    assert!(r.delete_session(&"fixed".to_string()));
    assert_eq!(r.insert_session("fixed".to_string(), 3), Err(RegistryError::DuplicateSessionId));
    assert_eq!(r.len(), 0);
    assert_eq!(r.position(&"fixed".to_string()), None);
}
