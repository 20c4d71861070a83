use mq_usage_viewer::api::StoreError;
use mq_usage_viewer::cache::{
    on_cached, CacheAction, CacheEvent, CachePhase, ReferenceCache, FUNCTIONS_CACHE_KEY,
};
use mq_usage_viewer::dto::ApiResponse;

fn list(items: &[&str]) -> Vec<String> {
    items.iter().map(|s| s.to_string()).collect()
}

struct Outside {
    entry: Option<String>,
    reachable: bool,
    write_fails: bool,
    source: Result<Vec<String>, String>,
    reads: u32,
    loads: u32,
    writes: u32,
}

fn outside(entry: Option<&str>, source: &[&str]) -> Outside {
    Outside {
        entry: entry.map(|s| s.to_string()),
        reachable: true,
        write_fails: false,
        source: Ok(list(source)),
        reads: 0,
        loads: 0,
        writes: 0,
    }
}

fn get_or_load(cache: &ReferenceCache, world: &mut Outside) -> ApiResponse<Vec<String>> {
    let mut phase = CachePhase::Idle;
    let mut event = CacheEvent::Started;
    loop {
        let (next_phase, action) = cache.step(phase, event);
        phase = next_phase;
        event = match action {
            CacheAction::Read { key } => {
                assert_eq!(key, cache.key);
                world.reads += 1;
                CacheEvent::ReadDone(if world.reachable { world.entry.clone() } else { None })
            }
            CacheAction::Load => {
                world.loads += 1;
                CacheEvent::LoadDone(match &world.source {
                    Ok(l) => Ok(l.clone()),
                    Err(e) => Err(StoreError::QueryFailed(e.clone())),
                })
            }
            CacheAction::Write { key, json } => {
                assert_eq!(key, cache.key);
                world.writes += 1;
                if world.reachable && !world.write_fails {
                    world.entry = Some(json);
                    CacheEvent::WriteDone(true)
                } else {
                    CacheEvent::WriteDone(false)
                }
            }
            CacheAction::Reply(resp) => {
                assert!(matches!(phase, CachePhase::Finished));
                return resp;
            }
            CacheAction::Nothing => panic!("the protocol stalled"),
        };
    }
}

#[test]
fn functions_cache_key() {
    assert_eq!(FUNCTIONS_CACHE_KEY, "mq_functions");
    let cache = ReferenceCache::for_functions(true);
    assert_eq!(cache.key, "mq_functions");
    assert!(cache.configured);
    assert!(!ReferenceCache::for_functions(false).configured);
}

#[test]
fn miss_returns_the_loaders_list_and_writes_once() {
    let cache = ReferenceCache::for_functions(true);
    let mut world = outside(None, &["alpha", "beta"]);
    let resp = get_or_load(&cache, &mut world);
    assert!(resp.success);
    assert_eq!(resp.status_code, 200);
    assert_eq!(resp.message, "Success");
    assert_eq!(resp.data, Some(list(&["alpha", "beta"])));
    assert_eq!((world.reads, world.loads, world.writes), (1, 1, 1));
    assert_eq!(world.entry.as_deref(), Some("[\"alpha\",\"beta\"]"));
}

#[test]
fn failed_write_does_not_alter_the_result() {
    let cache = ReferenceCache::for_functions(true);
    let mut world = outside(None, &["alpha", "beta"]);
    world.write_fails = true;
    let resp = get_or_load(&cache, &mut world);
    assert!(resp.success);
    assert_eq!(resp.message, "Success");
    assert_eq!(resp.data, Some(list(&["alpha", "beta"])));
    assert_eq!((world.reads, world.loads, world.writes), (1, 1, 1));
    assert_eq!(world.entry, None);
}

#[test]
fn unreachable_cache_falls_through() {
    let cache = ReferenceCache::for_functions(true);
    let mut world = outside(Some("[\"stale\"]"), &["fresh"]);
    world.reachable = false;
    let resp = get_or_load(&cache, &mut world);
    assert_eq!(resp.data, Some(list(&["fresh"])));
    assert_eq!((world.reads, world.loads, world.writes), (1, 1, 1));
}

#[test]
fn hit_is_served_without_asking_the_loader() {
    let cache = ReferenceCache::for_functions(true);
    let mut world = outside(Some("[\"old\",\"list\"]"), &["new"]);
    let resp = get_or_load(&cache, &mut world);
    assert!(resp.success);
    assert_eq!(resp.status_code, 200);
    assert_eq!(resp.message, "Success (cache)");
    assert_eq!(resp.data, Some(list(&["old", "list"])));
    assert_eq!((world.reads, world.loads, world.writes), (1, 0, 0));
}

#[test]
fn entry_once_written_is_served_forever() {
    let cache = ReferenceCache::for_functions(true);
    let mut world = outside(None, &["v1"]);
    assert_eq!(get_or_load(&cache, &mut world).data, Some(list(&["v1"])));
    world.source = Ok(list(&["v2", "v3"]));
    for _ in 0..3 {
        let resp = get_or_load(&cache, &mut world);
        assert_eq!(resp.message, "Success (cache)");
        assert_eq!(resp.data, Some(list(&["v1"])));
    }
    assert_eq!((world.reads, world.loads, world.writes), (4, 1, 1));
}

#[test]
fn unparsable_entry_falls_through_and_is_overwritten() {
    let cache = ReferenceCache::for_functions(true);
    for bad in ["not json", "{\"a\":1}", "[1,2]", "[\"a\",", "", "\"a\"", "null"] {
        let mut world = outside(Some(bad), &["x"]);
        let resp = get_or_load(&cache, &mut world);
        assert_eq!(resp.message, "Success");
        assert_eq!(resp.data, Some(list(&["x"])));
        assert_eq!((world.reads, world.loads, world.writes), (1, 1, 1));
        assert_eq!(world.entry.as_deref(), Some("[\"x\"]"));
    }
}

#[test]
fn empty_list_is_a_hit() {
    let cache = ReferenceCache::for_functions(true);
    let mut world = outside(Some("[]"), &["x"]);
    let resp = get_or_load(&cache, &mut world);
    assert_eq!(resp.message, "Success (cache)");
    assert_eq!(resp.data, Some(Vec::<String>::new()));
    assert_eq!(world.loads, 0);
}

#[test]
fn unconfigured_cache_is_never_touched() {
    let cache = ReferenceCache::for_functions(false);
    let mut world = outside(Some("[\"cached\"]"), &["loaded"]);
    let resp = get_or_load(&cache, &mut world);
    assert_eq!(resp.message, "Success");
    assert_eq!(resp.data, Some(list(&["loaded"])));
    assert_eq!((world.reads, world.loads, world.writes), (0, 1, 0));
}

#[test]
fn failed_load_is_replied_and_not_cached() {
    let cache = ReferenceCache::for_functions(true);
    let mut world = outside(None, &[]);
    world.source = Err("no such table: mq_data".to_string());
    let resp = get_or_load(&cache, &mut world);
    assert!(!resp.success);
    assert_eq!(resp.status_code, 500);
    assert_eq!(resp.message, "Error: no such table: mq_data");
    assert_eq!(resp.data, None);
    assert_eq!((world.reads, world.loads, world.writes), (1, 1, 0));
}

#[test]
fn written_text_is_json_with_escapes() {
    let cache = ReferenceCache { key: "k".to_string(), configured: true };
    let names = list(&["a\"b", "c\\d", "é"]);
    let (phase, action) = cache.step(CachePhase::Loading, CacheEvent::LoadDone(Ok(names.clone())));
    match (phase, action) {
        (CachePhase::Writing(kept), CacheAction::Write { key, json }) => {
            assert_eq!(kept, names);
            assert_eq!(key, "k");
            assert_eq!(json, "[\"a\\\"b\",\"c\\\\d\",\"é\"]");
            let back = cache.step(CachePhase::Reading, CacheEvent::ReadDone(Some(json)));
            match back {
                (CachePhase::Finished, CacheAction::Reply(resp)) => {
                    assert_eq!(resp.data, Some(names))
                }
                _ => panic!("expected a hit"),
            }
        }
        _ => panic!("expected a write"),
    }
}

#[test]
fn unawaited_events_are_ignored() {
    let cache = ReferenceCache::for_functions(true);
    assert!(matches!(
        cache.step(CachePhase::Idle, CacheEvent::WriteDone(true)),
        (CachePhase::Idle, CacheAction::Nothing)
    ));
    assert!(matches!(
        cache.step(CachePhase::Idle, CacheEvent::ReadDone(Some("[]".to_string()))),
        (CachePhase::Idle, CacheAction::Nothing)
    ));
    assert!(matches!(
        cache.step(CachePhase::Reading, CacheEvent::Started),
        (CachePhase::Reading, CacheAction::Nothing)
    ));
    assert!(matches!(
        cache.step(CachePhase::Loading, CacheEvent::ReadDone(None)),
        (CachePhase::Loading, CacheAction::Nothing)
    ));
    assert!(matches!(
        cache.step(CachePhase::Finished, CacheEvent::Started),
        (CachePhase::Finished, CacheAction::Nothing)
    ));
    assert!(matches!(
        cache.step(CachePhase::Finished, CacheEvent::LoadDone(Ok(list(&["a"])))),
        (CachePhase::Finished, CacheAction::Nothing)
    ));
    match cache.step(CachePhase::Writing(list(&["a"])), CacheEvent::Started) {
        (CachePhase::Writing(kept), CacheAction::Nothing) => assert_eq!(kept, list(&["a"])),
        _ => panic!("expected no action"),
    }
}

#[test]
fn on_cached_decides_between_hit_and_load() {
    match on_cached(Some(list(&["a", "b"]))) {
        (CachePhase::Finished, CacheAction::Reply(resp)) => {
            assert!(resp.success);
            assert_eq!(resp.message, "Success (cache)");
            assert_eq!(resp.status_code, 200);
            assert_eq!(resp.data, Some(list(&["a", "b"])));
        }
        _ => panic!("expected a reply"),
    }
    assert!(matches!(on_cached(None), (CachePhase::Loading, CacheAction::Load)));
}

#[test]
fn written_entry_is_served_as_the_same_list_by_the_next_hit() {
    let cache = ReferenceCache::for_functions(true);
    for names in [
        list(&[]),
        list(&[""]),
        list(&["plain"]),
        list(&["a", "a", "b"]),
        list(&["quote\"d", "back\\slash", "tab\there", "line\nbreak", "nul\u{0}", "bell\u{7}"]),
        list(&["ünïcödé", "日本語", "emoji 🚀", "[\"looks\",\"like\",\"json\"]", "</script>"]),
    ] {
        let mut world = outside(None, &[]);
        world.source = Ok(names.clone());
        let first = get_or_load(&cache, &mut world);
        assert_eq!(first.message, "Success");
        assert_eq!(first.data, Some(names.clone()));
        world.source = Ok(list(&["changed"]));
        let second = get_or_load(&cache, &mut world);
        assert_eq!(second.message, "Success (cache)");
        assert_eq!(second.data, Some(names));
        assert_eq!((world.reads, world.loads, world.writes), (2, 1, 1));
    }
}

#[test]
fn both_kinds_of_store_failure_are_replied_with_their_cause() {
    let cache = ReferenceCache::for_functions(true);
    for error in [
        StoreError::QueryFailed("database is locked".to_string()),
        StoreError::DecodeError("Invalid column type".to_string()),
    ] {
        let cause = error.message().to_string();
        match cache.step(CachePhase::Loading, CacheEvent::LoadDone(Err(error))) {
            (CachePhase::Finished, CacheAction::Reply(resp)) => {
                assert!(!resp.success);
                assert_eq!(resp.status_code, 500);
                assert_eq!(resp.message, format!("Error: {}", cause));
                assert_eq!(resp.data, None);
            }
            _ => panic!("expected a reply"),
        }
    }
}
