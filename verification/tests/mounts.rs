use ps2_keyboard::mounts::{devfs, procfs, ramfs, sysfs, NodeKind, TreeEntry, INDEX_HTML};

fn path_of(entries: &[TreeEntry], i: usize) -> String {
    match entries[i].parent {
        Some(p) => format!("{}/{}", path_of(entries, p), entries[i].name),
        None => entries[i].name.to_string(),
    }
}

fn check_tree(entries: &[TreeEntry]) {
    for (i, e) in entries.iter().enumerate() {
        if let Some(p) = e.parent {
            assert!(p < i);
            assert_eq!(entries[p].kind, NodeKind::Dir);
        }
        if e.kind != NodeKind::File {
            assert_eq!(e.contents, "");
        }
    }
}

#[test]
fn devfs_holds_null_zero_and_foo_bar() {
    let tree = devfs();
    check_tree(&tree);
    let got: Vec<(String, NodeKind)> =
        (0..tree.len()).map(|i| (path_of(&tree, i), tree[i].kind)).collect();
    assert_eq!(
        got,
        vec![
            ("foo".to_string(), NodeKind::Dir),
            ("null".to_string(), NodeKind::NullDev),
            ("zero".to_string(), NodeKind::ZeroDev),
            ("foo/bar".to_string(), NodeKind::ZeroDev),
        ]
    );
}

#[test]
fn ramfs_holds_the_page() {
    let tree = ramfs();
    check_tree(&tree);
    assert_eq!(tree.len(), 1);
    assert_eq!(path_of(&tree, 0), "index.html");
    assert_eq!(tree[0].kind, NodeKind::File);
    assert_eq!(tree[0].contents, INDEX_HTML);
    assert!(INDEX_HTML.starts_with("<!DOCTYPE html>\n<html lang=\"en-US\">\n"));
    assert!(INDEX_HTML.ends_with("</body>\n</html>\n"));
    assert!(INDEX_HTML.contains("<div class=\"container-lg px-3 my-5 markdown-body\"> \\\n"));
    assert_eq!(INDEX_HTML.len(), 796);
}

#[test]
fn procfs_holds_limits_and_stat() {
    let tree = procfs();
    check_tree(&tree);
    let got: Vec<(String, NodeKind, &str)> =
        (0..tree.len()).map(|i| (path_of(&tree, i), tree[i].kind, tree[i].contents)).collect();
    assert_eq!(
        got,
        vec![
            ("sys".to_string(), NodeKind::Dir, ""),
            ("sys/net".to_string(), NodeKind::Dir, ""),
            ("sys/net/core".to_string(), NodeKind::Dir, ""),
            ("sys/net/core/somaxconn".to_string(), NodeKind::File, "4096\n"),
            ("sys/vm".to_string(), NodeKind::Dir, ""),
            ("sys/vm/overcommit_memory".to_string(), NodeKind::File, "0\n"),
            ("self".to_string(), NodeKind::Dir, ""),
            ("self/stat".to_string(), NodeKind::File, ""),
        ]
    );
}

#[test]
fn sysfs_holds_hugepage_and_clocksource() {
    let tree = sysfs();
    check_tree(&tree);
    let got: Vec<(String, NodeKind, &str)> =
        (0..tree.len()).map(|i| (path_of(&tree, i), tree[i].kind, tree[i].contents)).collect();
    assert_eq!(
        got,
        vec![
            ("kernel".to_string(), NodeKind::Dir, ""),
            ("kernel/mm".to_string(), NodeKind::Dir, ""),
            ("kernel/mm/transparent_hugepage".to_string(), NodeKind::Dir, ""),
            (
                "kernel/mm/transparent_hugepage/enabled".to_string(),
                NodeKind::File,
                "always [madvise] never\n"
            ),
            ("devices".to_string(), NodeKind::Dir, ""),
            ("devices/system".to_string(), NodeKind::Dir, ""),
            ("devices/system/clocksource".to_string(), NodeKind::Dir, ""),
            ("devices/system/clocksource/clocksource0".to_string(), NodeKind::Dir, ""),
            (
                "devices/system/clocksource/clocksource0/current_clocksource".to_string(),
                NodeKind::File,
                "tsc\n"
            ),
        ]
    );
}
