use crossbeam_utils::thread::scope;
use metrics_registry::key::{Key, Label};
use metrics_registry::registry::Registry;
use std::sync::atomic::{AtomicUsize, Ordering};

fn key(name: &'static str) -> Key {
    Key::from_name(name)
}

fn numbered(n: usize) -> Key {
    Key::from_name(format!("metric.{}", n))
}

#[test]
fn second_registration_returns_first_handle() {
    let registry: Registry<String> = Registry::new();
    let (id1, h1) = registry.get_or_create_handle(key("requests"), |_, _| "f1".to_string());
    let mut called = false;
    let (id2, h2) = registry.get_or_create_handle(key("requests"), |_, _| {
        called = true;
        "f2".to_string()
    });
    assert_eq!(id1, 0);
    assert_eq!(id2, 0);
    assert_eq!(h1, "f1");
    assert_eq!(h2, "f1");
    assert!(std::ptr::eq(h1, h2));
    assert!(!called);
}

#[test]
fn factory_of_a_registered_key_is_never_called() {
    let registry: Registry<u64> = Registry::new();
    registry.get_or_create_handle(key("requests"), |_, _| 11u64);
    let f2 = |_: usize, _: &Key| -> u64 { panic!("f2 ran") };
    let (id, handle) = registry.get_or_create_handle(key("requests"), f2);
    assert_eq!(id, 0);
    assert_eq!(*handle, 11);
}

#[test]
fn ids_follow_order_of_first_registration() {
    let registry: Registry<u32> = Registry::new();
    let (a, _) = registry.get_or_create_handle(key("a"), |id, _| id as u32 + 10);
    let (b, _) = registry.get_or_create_handle(key("b"), |id, _| id as u32 + 10);
    let (a2, ha) = registry.get_or_create_handle(key("a"), |id, _| id as u32 + 100);
    assert_eq!((a, b, a2), (0, 1, 0));
    assert_eq!(*ha, 10);
    assert_eq!(registry.get_handles().len(), 2);
    assert_eq!(registry.with_handle(1, |k, h| (k.clone(), *h)), Some((key("b"), 11)));
    assert_eq!(registry.with_handle(2, |_, h| *h), None);
}

#[test]
fn factory_gets_the_new_id_and_the_key() {
    let registry: Registry<(usize, String)> = Registry::new();
    registry.get_or_create_handle(key("zero"), |id, k| (id, k.name().into_owned()));
    let (id, handle) = registry.get_or_create_handle(key("one"), |id, k| (id, k.name().into_owned()));
    assert_eq!(id, 1);
    assert_eq!(*handle, (1, String::from("one")));
}

#[test]
fn label_order_makes_distinct_keys() {
    let registry: Registry<u32> = Registry::new();
    let plain = key("a");
    let region = Key::from_name_and_labels("a", vec![Label::new("region", "us")]);
    let xy = Key::from_name_and_labels(
        "a",
        vec![Label::new("x", "1"), Label::new("y", "2")],
    );
    let yx = Key::from_name_and_labels(
        "a",
        vec![Label::new("y", "2"), Label::new("x", "1")],
    );
    assert_ne!(plain, region);
    assert_ne!(xy, yx);
    let ids: Vec<usize> = [plain, region, xy.clone(), yx.clone()]
        .into_iter()
        .map(|k| registry.get_or_create_handle(k, |id, _| id as u32).0)
        .collect();
    assert_eq!(ids, vec![0, 1, 2, 3]);
    assert_eq!(registry.get_or_create_handle(yx, |_, _| 99), (3, &3));
    assert_eq!(registry.get_or_create_handle(xy, |_, _| 99), (2, &2));
    assert_eq!(registry.get_handles().len(), 4);
}

#[test]
fn with_handle_is_absent_for_ids_never_given() {
    let registry: Registry<u32> = Registry::new();
    assert_eq!(registry.with_handle(0, |_, h| *h), None);
    registry.get_or_create_handle(key("a"), |_, _| 5);
    assert_eq!(registry.with_handle(0, |_, h| *h), Some(5));
    assert_eq!(registry.with_handle(1, |_, h| *h), None);
    assert_eq!(registry.with_handle(usize::MAX, |_, h| *h), None);
}

#[test]
fn with_handle_sees_the_registered_key_and_handle() {
    let registry: Registry<String> = Registry::new();
    let (id, handle) = registry.get_or_create_handle(key("a"), |_, _| String::from("h"));
    let same = registry.with_handle(id, |k, h| *k == key("a") && std::ptr::eq(h, handle));
    assert_eq!(same, Some(true));
}

#[test]
fn ids_are_dense_over_many_keys() {
    let registry: Registry<usize> = Registry::new();
    for n in 0..200 {
        let (id, handle) = registry.get_or_create_handle(numbered(n), |id, _| id * 2);
        assert_eq!(id, n);
        assert_eq!(*handle, n * 2);
    }
    for n in (0..200).rev() {
        let (id, handle) = registry.get_or_create_handle(numbered(n), |_, _| usize::MAX);
        assert_eq!(id, n);
        assert_eq!(*handle, n * 2);
        assert_eq!(registry.with_handle(n, |k, h| (k.clone(), *h)), Some((numbered(n), n * 2)));
    }
    assert_eq!(registry.with_handle(200, |_, h| *h), None);
    let handles = registry.get_handles();
    assert_eq!(handles.len(), 200);
    for n in 0..200 {
        assert_eq!(handles.get(&numbered(n)), Some(&&(n * 2)));
    }
}

#[test]
fn get_handles_of_a_new_registry_is_empty() {
    let registry: Registry<u64> = Registry::new();
    assert!(registry.get_handles().is_empty());
}

#[test]
fn get_handles_maps_each_key_to_its_handle() {
    let registry: Registry<u64> = Registry::new();
    let k1 = Key::from_name("a");
    let k2 = Key::from_name_and_labels("a", vec![Label::new("region", "us")]);
    registry.get_or_create_handle(k1.clone(), |_, _| 1u64);
    registry.get_or_create_handle(k2.clone(), |_, _| 2u64);
    let m = registry.get_handles();
    assert_eq!(m.len(), 2);
    assert_eq!(*m[&k1], 1);
    assert_eq!(*m[&k2], 2);
}

#[test]
fn get_handles_after_a_repeated_registration() {
    let registry: Registry<u64> = Registry::new();
    let (_, first) = registry.get_or_create_handle(key("a"), |_, _| 1u64);
    registry.get_or_create_handle(key("b"), |_, _| 2u64);
    registry.get_or_create_handle(key("a"), |_, _| 3u64);
    let m = registry.get_handles();
    assert_eq!(m.len(), 2);
    assert_eq!(*m[&key("a")], 1);
    assert_eq!(*m[&key("b")], 2);
    assert!(std::ptr::eq(m[&key("a")], first));
}

#[test]
fn get_handles_is_a_point_in_time_copy() {
    let registry: Registry<u32> = Registry::new();
    assert!(registry.get_handles().is_empty());
    registry.get_or_create_handle(key("a"), |_, _| 1);
    let first = registry.get_handles();
    registry.get_or_create_handle(key("b"), |_, _| 2);
    let second = registry.get_handles();
    assert_eq!(first.len(), 1);
    assert_eq!(first.get(&key("a")), Some(&&1));
    assert_eq!(first.get(&key("b")), None);
    assert_eq!(second.len(), 2);
    assert_eq!(second.get(&key("b")), Some(&&2));
}

#[test]
fn racing_threads_agree_on_one_entry() {
    let registry: Registry<usize> = Registry::new();
    let calls = AtomicUsize::new(0);
    let results = scope(|s| {
        let workers: Vec<_> = (0..8)
            .map(|n| {
                let registry = &registry;
                let calls = &calls;
                s.spawn(move |_| {
                    let (id, handle) = registry.get_or_create_handle(key("shared"), |_, _| {
                        calls.fetch_add(1, Ordering::SeqCst);
                        n
                    });
                    (id, handle)
                })
            })
            .collect();
        workers.into_iter().map(|w| w.join().unwrap()).collect::<Vec<_>>()
    })
    .unwrap();
    assert_eq!(calls.load(Ordering::SeqCst), 1);
    assert_eq!(results.len(), 8);
    for r in &results {
        assert_eq!(r.0, 0);
        assert_eq!(r.1, results[0].1);
        assert!(std::ptr::eq(r.1, results[0].1));
    }
    assert_eq!(registry.get_handles().len(), 1);
}

#[test]
fn concurrent_registrations_give_dense_ids() {
    let registry: Registry<usize> = Registry::new();
    let calls = AtomicUsize::new(0);
    scope(|s| {
        for t in 0..4 {
            let registry = &registry;
            let calls = &calls;
            s.spawn(move |_| {
                for n in 0..50 {
                    let k = numbered((n + t * 13) % 50);
                    let (id, handle) = registry.get_or_create_handle(k.clone(), |id, _| {
                        calls.fetch_add(1, Ordering::SeqCst);
                        id
                    });
                    assert_eq!(*handle, id);
                    assert_eq!(registry.with_handle(id, |found, h| (found.clone(), *h)), Some((k, id)));
                    let handles = registry.get_handles();
                    assert!(handles.len() <= 50);
                    for (_, h) in handles {
                        assert!(*h < 50);
                    }
                }
            });
        }
    })
    .unwrap();
    assert_eq!(calls.load(Ordering::SeqCst), 50);
    let mut ids: Vec<usize> = registry.get_handles().values().map(|h| **h).collect();
    ids.sort();
    assert_eq!(ids, (0..50).collect::<Vec<_>>());
    assert_eq!(registry.with_handle(49, |_, h| *h), Some(49));
    assert_eq!(registry.with_handle(50, |_, h| *h), None);
}
