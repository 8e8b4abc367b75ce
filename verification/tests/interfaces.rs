use iced_winit::interfaces::build_user_interfaces;
use iced_winit::window_manager::WindowManager;
use rustc_hash::FxHashMap;
use std::cell::RefCell;

#[test]
fn only_open_windows_get_interfaces() {
    let mut windows = WindowManager::new();
    windows.insert(1, 100, false);
    windows.insert(3, 300, false);
    let mut cached: FxHashMap<u64, String> = FxHashMap::default();
    cached.insert(1, String::from("one"));
    cached.insert(2, String::from("two"));
    cached.insert(3, String::from("three"));
    let built = build_user_interfaces(&windows, cached, |id, cache: String| format!("{id}:{cache}"));
    assert_eq!(built.len(), 2);
    assert_eq!(built.get(&1).map(String::as_str), Some("1:one"));
    assert_eq!(built.get(&3).map(String::as_str), Some("3:three"));
    assert!(!built.contains_key(&2));
}

#[test]
fn no_windows_no_interfaces() {
    let windows = WindowManager::new();
    let mut cached: FxHashMap<u64, u8> = FxHashMap::default();
    cached.insert(9, 9);
    let built = build_user_interfaces(&windows, cached, |_, c: u8| c);
    assert!(built.is_empty());
}

#[test]
fn closed_windows_are_never_built() {
    let mut windows = WindowManager::new();
    windows.insert(2, 20, false);
    let mut cached: FxHashMap<u64, &'static str> = FxHashMap::default();
    cached.insert(1, "closed");
    cached.insert(2, "open");
    cached.insert(3, "closed");
    let built = build_user_interfaces(&windows, cached, |id, cache: &'static str| {
        assert_eq!(id, 2, "built an interface for a closed window");
        assert_eq!(cache, "open");
        cache.len()
    });
    assert_eq!(built.len(), 1);
    assert_eq!(built.get(&2), Some(&4));
}

#[test]
fn no_open_window_means_no_build() {
    let windows = WindowManager::new();
    let mut cached: FxHashMap<u64, u8> = FxHashMap::default();
    cached.insert(5, 1);
    let built = build_user_interfaces(&windows, cached, |_, _: u8| -> u8 {
        panic!("built an interface without an open window")
    });
    assert!(built.is_empty());
}

#[test]
fn each_open_window_is_built_once() {
    let mut windows = WindowManager::new();
    windows.insert(1, 10, false);
    windows.insert(4, 40, false);
    let mut cached: FxHashMap<u64, u64> = FxHashMap::default();
    cached.insert(1, 100);
    cached.insert(4, 400);
    cached.insert(6, 600);
    let calls = RefCell::new(Vec::new());
    let built = build_user_interfaces(&windows, cached, |id, cache: u64| {
        calls.borrow_mut().push(id);
        cache + 1
    });
    let mut calls = calls.into_inner();
    calls.sort();
    assert_eq!(calls, vec![1, 4]);
    assert_eq!(built.get(&1), Some(&101));
    assert_eq!(built.get(&4), Some(&401));
    assert_eq!(built.len(), 2);
}
