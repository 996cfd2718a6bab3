use polaroid::keys::Key;
use polaroid::shortcut::ShortcutTrigger;
use polaroid::shortcut::State;
use polaroid::shortcut::Trans;
use polaroid::shortcut::TransTable;
use polaroid::shortcut_builder::get_lut;
use polaroid::shortcut_builder::split_shortcut;
use polaroid::shortcut_builder::ShortcutTriggerBuilder;

#[test]
fn state_machine_test() {
    let lut = get_lut();
    let mut fired = Vec::new();
    let mut trigger = ShortcutTriggerBuilder::<_>::new(lut)
        .with_shortcut("Ctrl+Alt+Key1".to_owned())
        .build()
        .unwrap();
    fired.push(trigger.trigger(Key::LControl));
    fired.push(trigger.trigger(Key::LAlt));
    fired.push(trigger.trigger(Key::Key1));
    assert_eq!(fired, vec![None, None, Some(0)]);
    assert_eq!(trigger.current_state, State::Empty);
}

#[test]
fn states_are_named_by_the_keys_pressed_so_far() {
    let mut trigger =
        ShortcutTriggerBuilder::new(get_lut()).with_shortcut("Ctrl+Alt+Key1".to_owned()).build().unwrap();
    assert_eq!(trigger.table.edges.len(), 3);
    trigger.trigger(Key::LControl);
    assert_eq!(trigger.current_state, State::State("Ctrl".to_string()));
    trigger.trigger(Key::LAlt);
    assert_eq!(trigger.current_state, State::State("CtrlAlt".to_string()));
    assert_eq!(trigger.trigger(Key::Key2), None);
    assert_eq!(trigger.current_state, State::State("CtrlAlt".to_string()));
    trigger.reset();
    assert_eq!(trigger.current_state, State::Empty);
    assert_eq!(trigger.trigger(Key::Key1), None);
}

#[test]
fn shortcuts_share_their_common_beginning() {
    let mut trigger = ShortcutTriggerBuilder::new(get_lut())
        .with_shortcut("Ctrl+Alt+Key1".to_owned())
        .with_shortcut("Ctrl+Alt+Key2".to_owned())
        .with_shortcut("Key6".to_owned())
        .build()
        .unwrap();
    assert_eq!(trigger.table.edges.len(), 5);
    assert_eq!(trigger.trigger(Key::Key6), Some(2));
    assert_eq!(trigger.trigger(Key::LControl), None);
    assert_eq!(trigger.trigger(Key::LAlt), None);
    assert_eq!(trigger.trigger(Key::Key2), Some(1));
    assert_eq!(trigger.trigger(Key::LControl), None);
    assert_eq!(trigger.trigger(Key::LAlt), None);
    assert_eq!(trigger.trigger(Key::Key1), Some(0));
}

#[test]
fn a_later_shortcut_takes_a_transition_over() {
    let mut trigger = ShortcutTriggerBuilder::new(get_lut())
        .with_shortcut("Ctrl".to_owned())
        .with_shortcut("Ctrl+Alt".to_owned())
        .build()
        .unwrap();
    assert_eq!(trigger.table.edges.len(), 2);
    assert_eq!(trigger.trigger(Key::LControl), None);
    assert_eq!(trigger.trigger(Key::LAlt), Some(1));
}

#[test]
fn an_unknown_key_name_fails_the_build() {
    assert!(ShortcutTriggerBuilder::new(get_lut()).with_shortcut("Ctrl+Shift".to_owned()).build().is_err());
    assert!(ShortcutTriggerBuilder::new(get_lut()).with_shortcut("".to_owned()).build().is_err());
    assert!(ShortcutTriggerBuilder::new(get_lut()).with_shortcut("Ctrl+".to_owned()).build().is_err());
    assert!(ShortcutTriggerBuilder::new(get_lut())
        .with_shortcut("Key1".to_owned())
        .with_shortcut("ctrl".to_owned())
        .build()
        .is_err());
    assert!(ShortcutTriggerBuilder::<Key>::new(Vec::new()).build().is_ok());
}

#[test]
fn of_two_entries_under_one_name_the_last_counts() {
    let lut = vec![("A".to_string(), Key::Key1), ("B".to_string(), Key::Key2), ("A".to_string(), Key::Key3)];
    let mut trigger = ShortcutTriggerBuilder::new(lut).with_shortcut("A".to_owned()).build().unwrap();
    assert_eq!(trigger.trigger(Key::Key1), None);
    assert_eq!(trigger.trigger(Key::Key3), Some(0));
}

#[test]
fn a_shortcut_splits_at_every_plus() {
    assert_eq!(split_shortcut("Ctrl+Alt+Key1"), vec!["Ctrl", "Alt", "Key1"]);
    assert_eq!(split_shortcut("Key1"), vec!["Key1"]);
    assert_eq!(split_shortcut(""), vec![""]);
    assert_eq!(split_shortcut("+"), vec!["", ""]);
    assert_eq!(split_shortcut("a++b+"), vec!["a", "", "b", ""]);
    assert_eq!(split_shortcut("é+ü"), vec!["é", "ü"]);
}

#[test]
fn insert_replaces_the_edge_for_the_same_state_and_event() {
    let mut table: TransTable<Key> = TransTable::new();
    table.insert(State::Empty, Key::Key1, Trans { state: State::State("x".to_string()), callback: None });
    table.insert(State::State("x".to_string()), Key::Key1, Trans { state: State::Accept, callback: Some(4) });
    table.insert(State::Empty, Key::Key1, Trans { state: State::Error, callback: Some(9) });
    assert_eq!(table.edges.len(), 2);
    assert_eq!(table.position(&State::Empty, Key::Key1), Some(0));
    assert_eq!(table.position(&State::State("x".to_string()), Key::Key1), Some(1));
    assert_eq!(table.position(&State::State("y".to_string()), Key::Key1), None);
    assert_eq!(table.position(&State::Empty, Key::Key2), None);
    let mut m = ShortcutTrigger::new(table, State::State("x".to_string()));
    assert_eq!(m.trigger(Key::Key1), Some(4));
    assert_eq!(m.current_state, State::Empty);
    assert_eq!(m.trigger(Key::Key1), Some(9));
    assert_eq!(m.current_state, State::Error);
    assert_eq!(m.trigger(Key::Key1), None);
}
