use gpui_platform::menu_actions::MenuActionSet;
use std::rc::Rc;

#[test]
fn replacing_menus_releases_actions_and_rejects_stale_tags() {
    let payload = Rc::new(());
    let mut main = MenuActionSet::new(0);
    let stale = main.push(payload.clone()) as usize;
    let mut dock = MenuActionSet::new(main.next_tag());
    let dock_tag = dock.push(payload.clone()) as usize;
    let mut next_tag = dock.next_tag();
    for _ in 0..1000 {
        let mut replacement = MenuActionSet::new(next_tag);
        let tag = replacement.push(payload.clone()) as usize;
        next_tag = replacement.next_tag();
        main = replacement;
        assert_eq!(
            Rc::strong_count(&payload),
            3,
            "only two live menus own actions"
        );
        assert!(main.get(stale).is_none());
        assert!(main.get(dock_tag).is_none());
        assert!(dock.get(tag).is_none());
        assert!(main.get(tag).is_some());
        assert!(dock.get(dock_tag).is_some());
    }
    dock = MenuActionSet::new(next_tag);
    assert!(dock.get(dock_tag).is_none());
    assert_eq!(Rc::strong_count(&payload), 2);
    drop(main);
    assert_eq!(Rc::strong_count(&payload), 1);
}

#[test]
fn tags_are_consecutive_from_the_first_tag() {
    let mut set = MenuActionSet::new(40);
    assert_eq!(set.next_tag(), 40);
    assert_eq!(set.push("open"), 40);
    assert_eq!(set.push("save"), 41);
    assert_eq!(set.next_tag(), 42);
    assert_eq!(set.get(40), Some(&"open"));
    assert_eq!(set.get(41), Some(&"save"));
    assert_eq!(set.get(39), None);
    assert_eq!(set.get(42), None);
    assert_eq!(set.get(0), None);
}

#[test]
fn the_default_set_starts_at_tag_zero() {
    let mut set: MenuActionSet<u32> = MenuActionSet::default();
    assert_eq!(set.next_tag(), 0);
    assert_eq!(set.get(0), None);
    assert_eq!(set.push(9), 0);
    assert_eq!(set.get(0), Some(&9));
}

#[test]
fn a_set_near_the_top_of_the_tag_space_rejects_low_tags() {
    let set: MenuActionSet<u8> = MenuActionSet::new(usize::MAX);
    assert_eq!(set.next_tag(), usize::MAX);
    assert_eq!(set.get(usize::MAX), None);
    assert_eq!(set.get(0), None);
}
