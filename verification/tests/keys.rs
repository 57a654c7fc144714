use metrics_registry::common::{scoped_clone, scoped_str, ScopedString};
use metrics_registry::key::{IntoLabels, Key, Label, ToLabel, ToScoped};
use std::borrow::Cow;
use std::collections::hash_map::DefaultHasher;
use std::hash::{Hash, Hasher};

fn hash_of(key: &Key) -> u64 {
    let mut hasher = DefaultHasher::new();
    key.hash(&mut hasher);
    hasher.finish()
}

fn label(key: &'static str, value: &'static str) -> Label {
    Label::new(key, value)
}

#[test]
fn label_new_keeps_key_and_value() {
    let l = Label::new("region", String::from("us-east"));
    assert_eq!(l.key(), "region");
    assert_eq!(l.value(), "us-east");
    let (k, v) = l.into_parts();
    assert_eq!(k, "region");
    assert_eq!(v, "us-east");
}

#[test]
fn label_from_pairs() {
    let borrowed = Label::from(("a", "b"));
    let owned_pair: (ScopedString, ScopedString) = (String::from("a").into(), String::from("b").into());
    let owned = Label::from(owned_pair);
    assert_eq!(borrowed, owned);
    assert_eq!(borrowed.key(), "a");
    assert_eq!(owned.value(), "b");
}

#[test]
fn label_from_pairs_of_any_strings() {
    let expected = label("a", "b");
    assert_eq!(Label::from((String::from("a"), "b")), expected);
    assert_eq!(Label::from(("a", String::from("b"))), expected);
    assert_eq!(Label::from((String::from("a"), String::from("b"))), expected);
    let scoped: ScopedString = Cow::Owned(String::from("a"));
    assert_eq!(Label::from((scoped, "b")), expected);
}

#[test]
fn label_from_a_borrowed_pair_leaves_the_pair() {
    let statics = ("a", "b");
    let owned = (String::from("a"), String::from("b"));
    assert_eq!(Label::from(&statics), label("a", "b"));
    assert_eq!(Label::from(&owned), label("a", "b"));
    assert_eq!(owned, (String::from("a"), String::from("b")));
}

#[test]
fn to_label_and_to_scoped_keep_the_characters() {
    assert!(matches!("a".to_scoped(), Cow::Borrowed("a")));
    assert_eq!(String::from("a").to_scoped(), "a");
    let scoped: ScopedString = Cow::Borrowed("a");
    assert_eq!(scoped.to_scoped(), "a");
    assert_eq!(("a", String::from("b")).to_label(), label("a", "b"));
    assert_eq!((String::from("a"), "b").to_label(), label("a", "b"));
    assert_eq!(label("a", "b").to_label(), label("a", "b"));
}

#[test]
fn into_labels_of_borrowed_collections_of_pairs() {
    let expected = vec![label("x", "1"), label("y", "2")];
    let owned = vec![(String::from("x"), String::from("1")), (String::from("y"), String::from("2"))];
    assert_eq!((&owned).into_labels(), expected);
    assert_eq!(owned.as_slice().into_labels(), expected);
    let statics = vec![("x", "1"), ("y", "2")];
    assert_eq!((&statics).into_labels(), expected);
    let mixed = [("x", String::from("1")), ("y", String::from("2"))];
    assert_eq!((&mixed).into_labels(), expected);
    assert_eq!(owned.len(), 2);
    assert_eq!(Key::from_name_and_labels("a", &owned), Key::from_name_and_labels("a", expected));
}

#[test]
fn label_clone_is_equal() {
    let l = label("k", "v");
    let c = l.clone();
    assert_eq!(l, c);
    assert_eq!(c.key(), "k");
    assert_eq!(c.value(), "v");
}

#[test]
fn key_from_name_has_no_labels() {
    let key = Key::from_name("requests");
    assert_eq!(key.name(), "requests");
    assert!(key.labels().is_empty());
    let (name, labels) = key.into_parts();
    assert_eq!(name, "requests");
    assert_eq!(labels, None);
}

#[test]
fn key_from_name_and_labels_keeps_order() {
    let key = Key::from_name_and_labels("http", vec![label("x", "1"), label("y", "2")]);
    assert_eq!(key.name(), "http");
    let labels = key.labels();
    assert_eq!(labels.len(), 2);
    assert_eq!((labels[0].key(), labels[0].value()), ("x", "1"));
    assert_eq!((labels[1].key(), labels[1].value()), ("y", "2"));
    let (name, labels) = key.into_parts();
    assert_eq!(name, "http");
    assert_eq!(labels, Some(vec![label("x", "1"), label("y", "2")]));
}

#[test]
fn key_with_empty_label_list_differs_from_key_without_labels() {
    let bare = Key::from_name("a");
    let empty = Key::from_name_and_labels("a", Vec::<Label>::new());
    assert_ne!(bare, empty);
    assert!(empty.labels().is_empty());
    assert_eq!(empty.into_parts().1, Some(Vec::new()));
}

#[test]
fn add_labels_appends_to_existing_labels() {
    let mut key = Key::from_name_and_labels("a", vec![label("x", "1")]);
    key.add_labels(vec![label("y", "2"), label("z", "3")]);
    assert_eq!(
        key,
        Key::from_name_and_labels("a", vec![label("x", "1"), label("y", "2"), label("z", "3")])
    );
    assert_eq!(key.name(), "a");
}

#[test]
fn add_labels_to_key_without_labels() {
    let mut key = Key::from_name("a");
    key.add_labels(vec![label("x", "1")]);
    assert_eq!(key, Key::from_name_and_labels("a", vec![label("x", "1")]));
    let mut other = Key::from_name("a");
    other.add_labels(Vec::<Label>::new());
    assert_eq!(other, Key::from_name_and_labels("a", Vec::<Label>::new()));
    assert_ne!(other, Key::from_name("a"));
}

#[test]
fn map_name_changes_only_the_name() {
    let key = Key::from_name_and_labels("inner", vec![label("x", "1")]);
    let mapped = key.map_name(|name| format!("outer.{}", name));
    assert_eq!(mapped, Key::from_name_and_labels("outer.inner", vec![label("x", "1")]));
    let bare = Key::from_name("n").map_name(|_| "m");
    assert_eq!(bare, Key::from_name("m"));
}

#[test]
fn key_from_strings() {
    assert_eq!(Key::from("a"), Key::from_name("a"));
    assert_eq!(Key::from(String::from("a")), Key::from_name("a"));
    let scoped: ScopedString = Cow::Borrowed("a");
    assert_eq!(Key::from(scoped), Key::from_name("a"));
}

#[test]
fn key_from_a_pair_of_name_and_labels() {
    let from_pair = Key::from(("a", vec![label("x", "1")]));
    assert_eq!(from_pair, Key::from_name_and_labels("a", vec![label("x", "1")]));
    assert_eq!(from_pair.name(), "a");
    assert_eq!(from_pair.labels().len(), 1);
    let owned = Key::from((String::from("a"), &[("x", "1")]));
    assert_eq!(owned, from_pair);
    let empty = Key::from(("a", Vec::<Label>::new()));
    assert_ne!(empty, Key::from("a"));
}

#[test]
fn parts_rebuild_an_equal_key() {
    let keys = vec![
        Key::from_name("a"),
        Key::from_name_and_labels(String::from("a"), Vec::<Label>::new()),
        Key::from_name_and_labels("a", vec![label("x", "1"), label("y", "2")]),
    ];
    for key in keys {
        let (name, labels) = key.clone().into_parts();
        let rebuilt = match labels {
            Some(labels) => Key::from_name_and_labels(name, labels),
            None => Key::from_name(name),
        };
        assert_eq!(rebuilt, key);
        assert_eq!(hash_of(&rebuilt), hash_of(&key));
    }
}

#[test]
fn parts_rebuild_an_equal_label() {
    let l = Label::new("region", String::from("us"));
    let (k, v) = l.clone().into_parts();
    assert_eq!(k, l.key());
    assert_eq!(v, l.value());
    assert_eq!(Label::new(k, v), l);
}

#[test]
fn map_name_with_the_name_unchanged() {
    let key = Key::from_name_and_labels("a", vec![label("x", "1")]);
    assert_eq!(key.clone().map_name(|name| name), key);
    assert_eq!(Key::from_name("a").map_name(|name| name), Key::from_name("a"));
}

#[test]
fn borrowed_and_owned_names_make_the_same_key() {
    let borrowed = Key::from_name(Cow::Borrowed("requests"));
    let owned = Key::from_name(Cow::Owned(String::from("requests")));
    assert_eq!(borrowed, owned);
    assert_eq!(hash_of(&borrowed), hash_of(&owned));
}

#[test]
fn key_clone_is_equal_and_independent() {
    let key = Key::from_name_and_labels("a", vec![label("x", "1")]);
    let mut copy = key.clone();
    assert_eq!(key, copy);
    assert_eq!(hash_of(&key), hash_of(&copy));
    copy.add_labels(vec![label("y", "2")]);
    assert_ne!(key, copy);
    assert_eq!(key.labels().len(), 1);
}

#[test]
fn keys_with_labels_in_another_order_differ() {
    let xy = Key::from_name_and_labels("a", vec![label("x", "1"), label("y", "2")]);
    let yx = Key::from_name_and_labels("a", vec![label("y", "2"), label("x", "1")]);
    let plain = Key::from_name("a");
    let region = Key::from_name_and_labels("a", vec![label("region", "us")]);
    assert_ne!(xy, yx);
    assert_ne!(plain, region);
    assert_ne!(Key::from_name("a"), Key::from_name("b"));
}

#[test]
fn constructors_take_static_and_owned_strings() {
    let borrowed = Key::from_name("requests");
    let owned = Key::from_name(String::from("requests"));
    let scoped: ScopedString = Cow::Owned(String::from("requests"));
    let from_scoped = Key::from_name(scoped);
    assert_eq!(borrowed, owned);
    assert_eq!(borrowed, from_scoped);
    assert!(matches!(borrowed.name(), Cow::Borrowed("requests")));
    assert!(matches!(owned.name(), Cow::Owned(_)));
    let mixed = Label::new("region", String::from("us"));
    assert_eq!((mixed.key(), mixed.value()), ("region", "us"));
    let labelled = Key::from_name_and_labels(String::from("a"), &[("region", "us")]);
    assert_eq!(labelled, Key::from_name_and_labels("a", vec![Label::new("region", "us")]));
}

#[test]
fn into_labels_of_vec_ref_and_pairs() {
    let labels = vec![label("x", "1"), label("y", "2")];
    assert_eq!((&labels).into_labels(), labels);
    assert_eq!(labels.clone().into_labels(), labels);
    let pairs: &[(&'static str, &'static str)] = &[("x", "1"), ("y", "2")];
    assert_eq!(pairs.into_labels(), labels);
    let none: &[(&'static str, &'static str)] = &[];
    assert_eq!(none.into_labels(), Vec::<Label>::new());
    let key = Key::from_name_and_labels("a", pairs);
    assert_eq!(key, Key::from_name_and_labels("a", labels.clone()));
    assert_eq!((&[("x", "1"), ("y", "2")]).into_labels(), labels);
    assert_eq!((&[] as &[(&'static str, &'static str); 0]).into_labels(), Vec::<Label>::new());
}

#[test]
fn to_string_without_labels() {
    assert_eq!(Key::from_name("requests").to_string(), "Key(requests)");
    assert_eq!(Key::from_name("").to_string(), "Key()");
}

#[test]
fn to_string_with_labels() {
    let one = Key::from_name_and_labels("a", vec![label("region", "us")]);
    assert_eq!(one.to_string(), "Key(a, [region = us])");
    let two = Key::from_name_and_labels("a", vec![label("x", "1"), label("y", "2")]);
    assert_eq!(two.to_string(), "Key(a, [x = 1, y = 2])");
    let three = Key::from_name_and_labels(
        "a",
        vec![label("x", "1"), label("y", "2"), label("z", "3")],
    );
    assert_eq!(three.to_string(), "Key(a, [x = 1, y = 2, z = 3])");
    let empty = Key::from_name_and_labels("a", Vec::<Label>::new());
    assert_eq!(empty.to_string(), "Key(a, [])");
}

#[test]
fn scoped_clone_keeps_characters_and_borrow() {
    let borrowed: ScopedString = Cow::Borrowed("static");
    let owned: ScopedString = Cow::Owned(String::from("dynamic"));
    assert!(matches!(scoped_clone(&borrowed), Cow::Borrowed("static")));
    assert_eq!(scoped_clone(&owned), "dynamic");
    assert!(matches!(scoped_clone(&owned), Cow::Owned(_)));
    assert_eq!(scoped_str(&borrowed), "static");
    assert_eq!(scoped_str(&owned), "dynamic");
}
