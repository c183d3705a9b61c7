use artichoke_backend::fs::{parent, resolve, Hook, Phase, Vfs};
use artichoke_backend::ArtichokeError;

#[test]
fn resolve_joins_relative_names_to_the_base() {
    assert_eq!(resolve("/src/lib", "source"), "/src/lib/source.rb");
    assert_eq!(resolve("/src/lib", "source.rb"), "/src/lib/source.rb");
    assert_eq!(resolve("/src/lib", "a/b"), "/src/lib/a/b.rb");
    assert_eq!(resolve("", "x"), "/x.rb");
}

#[test]
fn resolve_keeps_absolute_names() {
    assert_eq!(resolve("/src/lib", "/opt/x"), "/opt/x.rb");
    assert_eq!(resolve("/src/lib", "/opt/x.rb"), "/opt/x.rb");
}

#[test]
fn resolve_adds_the_extension_only_where_it_is_missing() {
    assert_eq!(resolve("/l", "rb"), "/l/rb.rb");
    assert_eq!(resolve("/l", "x.rbs"), "/l/x.rbs.rb");
    assert_eq!(resolve("/l", ""), "/l/.rb");
}

#[test]
fn parent_is_the_path_up_to_the_last_slash() {
    assert_eq!(parent("/src/lib/app/main.rb"), "/src/lib/app");
    assert_eq!(parent("/main.rb"), "");
    assert_eq!(parent("main.rb"), "");
    assert_eq!(parent("/a/b/"), "/a/b");
    assert_eq!(parent(""), "");
}

#[test]
fn vfs_phases() {
    let mut vfs = Vfs::new();
    assert_eq!(vfs.phase("/a.rb"), Phase::Unregistered);
    vfs.define_source("/a.rb", b"a".to_vec()).unwrap();
    assert_eq!(vfs.phase("/a.rb"), Phase::Registered);
    vfs.define_hook("/a.rb", Hook(4)).unwrap();
    assert_eq!(vfs.phase("/a.rb"), Phase::Registered);
    let node = vfs.node("/a.rb").unwrap();
    assert_eq!(node.source, Some(b"a".to_vec()));
    assert_eq!(node.hook, Some(Hook(4)));
    vfs.mark_loaded("/a.rb");
    assert_eq!(vfs.phase("/a.rb"), Phase::Loaded);
    assert_eq!(vfs.phase("/b.rb"), Phase::Unregistered);
}

#[test]
fn vfs_keeps_the_loaded_mark_when_a_hook_is_added() {
    let mut vfs = Vfs::new();
    vfs.define_source("/a.rb", b"a".to_vec()).unwrap();
    vfs.mark_loaded("/a.rb");
    vfs.define_hook("/a.rb", Hook(1)).unwrap();
    assert_eq!(vfs.phase("/a.rb"), Phase::Loaded);
}

#[test]
fn vfs_conflicts() {
    let mut vfs = Vfs::new();
    vfs.define_hook("/a.rb", Hook(1)).unwrap();
    assert_eq!(vfs.define_hook("/a.rb", Hook(1)), Ok(()));
    assert_eq!(
        vfs.define_hook("/a.rb", Hook(2)),
        Err(ArtichokeError::Vfs(String::from("conflicting registration of /a.rb")))
    );
    vfs.define_source("/a.rb", vec![]).unwrap();
    assert_eq!(vfs.define_source("/a.rb", vec![]), Ok(()));
    assert_eq!(
        vfs.define_source("/a.rb", vec![0]),
        Err(ArtichokeError::Vfs(String::from("conflicting registration of /a.rb")))
    );
}
