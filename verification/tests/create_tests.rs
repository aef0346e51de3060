use std::collections::HashMap;

use linkie::codegen::{generate_code, CODE_LEN};
use linkie::create::{
    create_begin, on_store_put, CreateError, CreateStep, StorePutReply, MAX_GENERATION_ATTEMPTS,
};
use linkie::resolve::{resolve_with_replies, CacheGetReply, CacheSetReply, RedirectOutcome, StoreGetReply};

#[test]
fn generated_codes_are_short_lowercase_hex() {
    for _ in 0..32 {
        let code = generate_code();
        assert_eq!(code.chars().count(), CODE_LEN);
        assert!(code.chars().all(|c| c.is_ascii_hexdigit() && !c.is_ascii_uppercase()));
    }
}

#[test]
fn rejected_url_fails_creation_at_once() {
    let s = create_begin("not a url");
    assert!(matches!(
        s,
        CreateStep::Finished(Err(CreateError::InvalidLink))
    ));
}

#[test]
fn third_code_succeeds_after_two_conflicts() {
    let s = create_begin("https://example.com/target");
    let s = match s {
        CreateStep::NeedPut { code: _, rejected } => {
            assert_eq!(rejected, 0);
            on_store_put(s, StorePutReply::Conflict)
        }
        _ => panic!("an accepted URL must offer a first code"),
    };
    let s = match s {
        CreateStep::NeedPut { code: _, rejected } => {
            assert_eq!(rejected, 1);
            on_store_put(s, StorePutReply::Conflict)
        }
        _ => panic!("the first conflict must regenerate"),
    };
    let third_code = match &s {
        CreateStep::NeedPut { code, rejected } => {
            assert_eq!(*rejected, 2);
            code.clone()
        }
        _ => panic!("the second conflict must regenerate"),
    };
    let s = on_store_put(s, StorePutReply::Accepted);
    match s {
        CreateStep::Finished(Ok(code)) => {
            assert_eq!(code, third_code);
            assert_eq!(code.chars().count(), CODE_LEN);
        }
        _ => panic!("acceptance must finish with the offered code"),
    }
}

#[test]
fn three_conflicts_exhaust_generation() {
    assert_eq!(MAX_GENERATION_ATTEMPTS, 3);
    let mut s = create_begin("https://example.com/target");
    for _ in 0..3 {
        assert!(matches!(s, CreateStep::NeedPut { .. }));
        s = on_store_put(s, StorePutReply::Conflict);
    }
    assert!(matches!(
        s,
        CreateStep::Finished(Err(CreateError::GenerationExhausted))
    ));
}

#[test]
fn unreachable_store_surfaces_during_creation() {
    let s = create_begin("https://example.com/target");
    let s = on_store_put(s, StorePutReply::Unavailable);
    assert!(matches!(
        s,
        CreateStep::Finished(Err(CreateError::StoreUnavailable))
    ));
}

#[test]
fn created_code_resolves_back_to_its_url() {
    // The store simulated as a plain map, the way the adapters see it.
    let url = String::from("https://example.com/destination");
    let mut store: HashMap<String, String> = HashMap::new();

    let s = create_begin(url.as_str());
    let code = match s {
        CreateStep::NeedPut { ref code, .. } => code.clone(),
        _ => panic!("an accepted URL must offer a code"),
    };
    let put_reply = if store.contains_key(&code) {
        StorePutReply::Conflict
    } else {
        store.insert(code.clone(), url.clone());
        StorePutReply::Accepted
    };
    let s = on_store_put(s, put_reply);
    let recorded = match s {
        CreateStep::Finished(Ok(c)) => c,
        _ => panic!("creation against an empty store must succeed"),
    };

    let store_reply = match store.get(&recorded) {
        Some(u) => StoreGetReply::Hit(u.clone()),
        None => StoreGetReply::Miss,
    };
    let r = resolve_with_replies(CacheGetReply::Miss, store_reply, CacheSetReply::Stored);
    match r {
        Ok(RedirectOutcome::Found(u)) => assert_eq!(u, url),
        _ => panic!("a just-created code must resolve to its URL"),
    }
}
