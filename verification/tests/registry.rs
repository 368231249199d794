use esh::registry::{Builtin, Registry};

#[test]
fn builtins_have_their_names() {
    assert_eq!(Builtin::Cd.as_str(), "cd");
    assert_eq!(Builtin::Help.as_str(), "help");
    assert_eq!(Builtin::Exit.as_str(), "exit");
}

#[test]
fn registry_holds_the_three_builtins() {
    let registry = Registry::new();
    assert_eq!(registry.len(), 3);
    assert_eq!(registry.names(), vec!["cd".to_string(), "help".to_string(), "exit".to_string()]);
}

#[test]
fn each_name_finds_its_builtin() {
    let registry = Registry::new();
    assert_eq!(registry.lookup("cd"), Some(Builtin::Cd));
    assert_eq!(registry.lookup("help"), Some(Builtin::Help));
    assert_eq!(registry.lookup("exit"), Some(Builtin::Exit));
}

#[test]
fn every_registered_name_finds_a_builtin_of_that_name() {
    let registry = Registry::new();
    for name in registry.names() {
        let found = registry.lookup(&name).unwrap();
        assert_eq!(found.as_str(), name);
    }
}

#[test]
fn other_names_find_nothing() {
    let registry = Registry::new();
    assert_eq!(registry.lookup(""), None);
    assert_eq!(registry.lookup("ls"), None);
    assert_eq!(registry.lookup("echo"), None);
    assert_eq!(registry.lookup("nonexistent_cmd_xyz"), None);
    assert_eq!(registry.lookup("c"), None);
    assert_eq!(registry.lookup("cdd"), None);
    assert_eq!(registry.lookup("cd "), None);
    assert_eq!(registry.lookup(" cd"), None);
    assert_eq!(registry.lookup("exi"), None);
    assert_eq!(registry.lookup("exit\n"), None);
}

#[test]
fn names_are_case_sensitive_and_have_no_alias() {
    let registry = Registry::new();
    assert_eq!(registry.lookup("CD"), None);
    assert_eq!(registry.lookup("Cd"), None);
    assert_eq!(registry.lookup("Help"), None);
    assert_eq!(registry.lookup("EXIT"), None);
    assert_eq!(registry.lookup("quit"), None);
    assert_eq!(registry.lookup("chdir"), None);
    assert_eq!(registry.lookup("?"), None);
}

#[test]
fn no_name_is_registered_twice() {
    let names = Registry::new().names();
    for i in 0..names.len() {
        for j in 0..names.len() {
            if i != j {
                assert_ne!(names[i], names[j]);
            }
        }
    }
}
