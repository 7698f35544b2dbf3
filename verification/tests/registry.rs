use modal_edit::key::Key;
use modal_edit::registry::{Handler, Registry};

#[test]
fn new_registry_binds_nothing() {
    let keys: Registry<Key> = Registry::new();
    assert_eq!(keys.get(&Key::Esc), None);
    let commands: Registry<String> = Registry::new();
    assert_eq!(commands.get(&"quit".to_string()), None);
    assert_eq!(commands.get(&String::new()), None);
}

#[test]
fn insert_binds_one_key() {
    let mut keys: Registry<Key> = Registry::new();
    keys.insert(Key::Char('h'), Handler::Left);
    assert_eq!(keys.get(&Key::Char('h')), Some(Handler::Left));
    assert_eq!(keys.get(&Key::Char('l')), None);
    assert_eq!(keys.get(&Key::Alt('h')), None);
    assert_eq!(keys.get(&Key::Ctrl('h')), None);
    assert_eq!(keys.get(&Key::Left), None);
}

#[test]
fn last_registration_wins() {
    let mut commands: Registry<String> = Registry::new();
    commands.insert("q".to_string(), Handler::Quit);
    commands.insert("w".to_string(), Handler::Write);
    commands.insert("q".to_string(), Handler::WriteQuit);
    assert_eq!(commands.get(&"q".to_string()), Some(Handler::WriteQuit));
    assert_eq!(commands.get(&"w".to_string()), Some(Handler::Write));
    commands.insert("w".to_string(), Handler::Quit);
    commands.insert("q".to_string(), Handler::Quit);
    assert_eq!(commands.get(&"q".to_string()), Some(Handler::Quit));
    assert_eq!(commands.get(&"w".to_string()), Some(Handler::Quit));
}

#[test]
fn function_keys_differ_by_number() {
    let mut keys: Registry<Key> = Registry::new();
    keys.insert(Key::F(1), Handler::Quit);
    keys.insert(Key::F(2), Handler::Write);
    assert_eq!(keys.get(&Key::F(1)), Some(Handler::Quit));
    assert_eq!(keys.get(&Key::F(2)), Some(Handler::Write));
    assert_eq!(keys.get(&Key::F(3)), None);
}
