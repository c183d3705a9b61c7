use artichoke_backend::def::{Kind, Spec};
use artichoke_backend::extn::stdlib::strscan;
use artichoke_backend::registry::Registry;
use artichoke_backend::state::State;
use artichoke_backend::ArtichokeError;

#[test]
fn classes_and_modules_are_found_by_name_and_kind() {
    let mut interp = State::new();
    assert!(interp.class_spec("Regexp").is_none());
    interp.def_class("Regexp");
    interp.def_module("Kernel");
    assert_eq!(interp.class_spec("Regexp").unwrap().kind(), Kind::Class);
    assert!(interp.module_spec("Regexp").is_none());
    assert_eq!(interp.module_spec("Kernel").unwrap().name(), "Kernel");
    assert!(interp.class_spec("Kernel").is_none());
}

#[test]
fn add_method_needs_a_registered_owner() {
    let mut interp = State::new();
    assert_eq!(
        interp.add_method("Regexp", "match", 1 << 18),
        Err(ArtichokeError::NotDefined(String::from("Regexp")))
    );
    interp.def_class("Regexp");
    assert_eq!(interp.add_method("Regexp", "match", 1 << 18), Ok(()));
    assert_eq!(interp.add_method("Regexp", "source", 0), Ok(()));
    assert_eq!(interp.add_method("Regexp", "match", 2 << 18), Ok(()));
    let spec = interp.class_spec("Regexp").unwrap();
    assert_eq!(spec.method_count(), 2);
    assert_eq!(spec.method("match"), Some(2 << 18));
    assert_eq!(spec.method("source"), Some(0));
}

#[test]
fn defining_a_class_again_starts_it_afresh() {
    let mut interp = State::new();
    interp.def_class("Foo");
    interp.add_method("Foo", "bar", 0).unwrap();
    interp.def_module("Foo");
    assert!(interp.class_spec("Foo").is_none());
    assert_eq!(interp.module_spec("Foo").unwrap().method_count(), 0);
}

#[test]
fn strscan_init_registers_module_and_source() {
    let mut interp = State::new();
    assert_eq!(strscan::init(&mut interp, "class StringScanner; end"), Ok(()));
    assert!(interp.module_spec("StringScanner").is_some());
    let node = interp.node("/src/lib/strscan.rb").unwrap();
    assert_eq!(node.source, Some(b"class StringScanner; end".to_vec()));
    assert_eq!(node.hook, None);
    assert!(!node.loaded);
    assert_eq!(strscan::init(&mut interp, "class StringScanner; end"), Ok(()));
    assert_eq!(
        strscan::init(&mut interp, "other"),
        Err(ArtichokeError::Vfs(String::from(
            "conflicting registration of /src/lib/strscan.rb"
        )))
    );
}

#[test]
fn spec_methods() {
    let mut spec = Spec::new("Monitor", Kind::Class);
    assert_eq!(spec.name(), "Monitor");
    assert_eq!(spec.kind(), Kind::Class);
    spec.add_method("enter", 0);
    spec.add_method("exit", 0);
    spec.add_method("enter", 1);
    assert_eq!(spec.method_count(), 2);
    assert_eq!(spec.method("enter"), Some(1));
}

#[test]
fn registry_keeps_first_entry_order() {
    let mut registry: Registry<u32> = Registry::new();
    registry.insert(String::from("b"), 1);
    registry.insert(String::from("a"), 2);
    registry.insert(String::from("b"), 3);
    assert_eq!(registry.len(), 2);
    assert_eq!(registry.position("b"), Some(0));
    assert_eq!(registry.position("a"), Some(1));
    assert_eq!(registry.position("c"), None);
    assert_eq!(registry.get("b"), Some(&3));
    assert_eq!(registry.entry(1), (&String::from("a"), &2));
    assert_eq!(registry.replace(1, 9), 2);
    assert_eq!(registry.get("a"), Some(&9));
}

#[test]
fn contexts_nest() {
    let mut interp = State::new();
    assert_eq!(interp.current_file(), None);
    assert_eq!(interp.pop_context(), None);
    interp.push_context(String::from("/src/lib/a.rb"));
    interp.push_context(String::from("/src/lib/b.rb"));
    assert_eq!(interp.current_file(), Some("/src/lib/b.rb"));
    assert_eq!(interp.pop_context(), Some(String::from("/src/lib/b.rb")));
    assert_eq!(interp.current_file(), Some("/src/lib/a.rb"));
    assert_eq!(interp.pop_context(), Some(String::from("/src/lib/a.rb")));
    assert_eq!(interp.current_file(), None);
}

#[test]
fn methods_are_listed_in_the_order_they_were_added() {
    let mut spec = Spec::new("String", Kind::Class);
    spec.add_method("ord", 0);
    spec.add_method("scan", 1 << 18);
    spec.add_method("ord", 7);
    assert_eq!(spec.method_at(0), ("ord", 7));
    assert_eq!(spec.method_at(1), ("scan", 1 << 18));
}
