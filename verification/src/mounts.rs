//! The file trees that are mounted at boot, as lists of nodes.
//!
//! Each tree is written down in the order in which it is built: a node
//! names the directory that holds it by that directory's place in the list,
//! and every directory stands before what it holds. Whoever owns the file
//! system walks the list once and creates node after node.

use vstd::prelude::*;

verus! {

/// What a node of a tree is.
#[derive(Clone, Copy, Debug, PartialEq, Eq, Structural)]
pub enum NodeKind {
    /// A directory.
    Dir,
    /// A regular file.
    File,
    /// The device that swallows what is written and gives nothing to read.
    NullDev,
    /// The device that gives zeros to read.
    ZeroDev,
}

/// One node of a tree.
#[derive(Clone, Copy, Debug, PartialEq, Eq)]
pub struct TreeEntry {
    /// The place in the list of the directory that holds the node; `None`
    /// for a node in the root of the tree.
    pub parent: Option<usize>,
    /// The name of the node in its directory.
    pub name: &'static str,
    /// What the node is.
    pub kind: NodeKind,
    /// What a file holds from its first byte on. Empty for an empty file and
    /// for everything that is no file.
    pub contents: &'static str,
}

/// The page that the in-memory file system is born with.
pub const INDEX_HTML: &'static str = r#"<!DOCTYPE html>
<html lang="en-US">
  <head>
    <meta charset="UTF-8">
    <meta http-equiv="X-UA-Compatible" content="IE=edge">
    <meta name="viewport" content="width=device-width, initial-scale=1">


<title>辰龙操作系统（ChenLongOS）</title>

<meta property="og:title" content="辰龙操作系统（ChenLongOS）" />
  </head>
  <body>
    <div class="container-lg px-3 my-5 markdown-body"> \

      <h1><a href="https://chenlongos.com/">欢迎来到辰龙社区</a></h1>
      <img src="https://chenlongos.cn/images/black-logo.png" alt="ChenLongOS Logo">
      <p>This is <span style="color: blue;">blue</span> text.</p>
      <p>This is <span style="color: red;">red</span> text.</p>
      <p>This is <span style="color: green;">green</span> text.</p>
    </div>
  </body>
</html>
"#;

/// Whether a list of nodes can be built front to back: each node that is
/// not in the root names a directory that stands before it.
pub open spec fn is_tree(entries: Seq<TreeEntry>) -> bool {
    forall|i: int|
        0 <= i < entries.len() ==> match (#[trigger] entries[i]).parent {
            Some(p) => p < i && entries[p as int].kind is Dir,
            None => true,
        }
}

/// A node.
pub open spec fn node(
    parent: Option<usize>,
    name: &'static str,
    kind: NodeKind,
    contents: &'static str,
) -> TreeEntry {
    TreeEntry { parent, name, kind, contents }
}

/// The device tree: `null`, `zero`, and a directory `foo` with a second
/// zero device `bar` in it.
pub open spec fn devfs_tree() -> Seq<TreeEntry> {
    seq![
        node(None, "foo", NodeKind::Dir, ""),
        node(None, "null", NodeKind::NullDev, ""),
        node(None, "zero", NodeKind::ZeroDev, ""),
        node(Some(0), "bar", NodeKind::ZeroDev, ""),
    ]
}

/// The in-memory tree: the one page `index.html`.
pub open spec fn ramfs_tree() -> Seq<TreeEntry> {
    seq![node(None, "index.html", NodeKind::File, INDEX_HTML)]
}

/// The tree of process information: the limits under `sys`, and the empty
/// `self/stat`.
pub open spec fn procfs_tree() -> Seq<TreeEntry> {
    seq![
        node(None, "sys", NodeKind::Dir, ""),
        node(Some(0), "net", NodeKind::Dir, ""),
        node(Some(1), "core", NodeKind::Dir, ""),
        node(Some(2), "somaxconn", NodeKind::File, "4096\n"),
        node(Some(0), "vm", NodeKind::Dir, ""),
        node(Some(4), "overcommit_memory", NodeKind::File, "0\n"),
        node(None, "self", NodeKind::Dir, ""),
        node(Some(6), "stat", NodeKind::File, ""),
    ]
}

/// The tree of system information: the huge page setting and the clock
/// source.
pub open spec fn sysfs_tree() -> Seq<TreeEntry> {
    seq![
        node(None, "kernel", NodeKind::Dir, ""),
        node(Some(0), "mm", NodeKind::Dir, ""),
        node(Some(1), "transparent_hugepage", NodeKind::Dir, ""),
        node(Some(2), "enabled", NodeKind::File, "always [madvise] never\n"),
        node(None, "devices", NodeKind::Dir, ""),
        node(Some(4), "system", NodeKind::Dir, ""),
        node(Some(5), "clocksource", NodeKind::Dir, ""),
        node(Some(6), "clocksource0", NodeKind::Dir, ""),
        node(Some(7), "current_clocksource", NodeKind::File, "tsc\n"),
    ]
}

/// Makes a node.
fn entry(parent: Option<usize>, name: &'static str, kind: NodeKind, contents: &'static str) -> (e:
    TreeEntry)
    ensures
        e == node(parent, name, kind, contents),
{
    TreeEntry { parent, name, kind, contents }
}

/// The device tree.
pub fn devfs() -> (entries: Vec<TreeEntry>)
    ensures
        entries@ == devfs_tree(),
        is_tree(entries@),
{
    let mut entries: Vec<TreeEntry> = Vec::new();
    entries.push(entry(None, "foo", NodeKind::Dir, ""));
    entries.push(entry(None, "null", NodeKind::NullDev, ""));
    entries.push(entry(None, "zero", NodeKind::ZeroDev, ""));
    entries.push(entry(Some(0), "bar", NodeKind::ZeroDev, ""));
    assert(entries@ =~= devfs_tree());
    entries
}

/// The in-memory tree.
pub fn ramfs() -> (entries: Vec<TreeEntry>)
    ensures
        entries@ == ramfs_tree(),
        is_tree(entries@),
{
    let mut entries: Vec<TreeEntry> = Vec::new();
    entries.push(entry(None, "index.html", NodeKind::File, INDEX_HTML));
    assert(entries@ =~= ramfs_tree());
    entries
}

/// The tree of process information.
pub fn procfs() -> (entries: Vec<TreeEntry>)
    ensures
        entries@ == procfs_tree(),
        is_tree(entries@),
{
    let mut entries: Vec<TreeEntry> = Vec::new();
    entries.push(entry(None, "sys", NodeKind::Dir, ""));
    entries.push(entry(Some(0), "net", NodeKind::Dir, ""));
    entries.push(entry(Some(1), "core", NodeKind::Dir, ""));
    entries.push(entry(Some(2), "somaxconn", NodeKind::File, "4096\n"));
    entries.push(entry(Some(0), "vm", NodeKind::Dir, ""));
    entries.push(entry(Some(4), "overcommit_memory", NodeKind::File, "0\n"));
    entries.push(entry(None, "self", NodeKind::Dir, ""));
    entries.push(entry(Some(6), "stat", NodeKind::File, ""));
    assert(entries@ =~= procfs_tree());
    entries
}

/// The tree of system information.
pub fn sysfs() -> (entries: Vec<TreeEntry>)
    ensures
        entries@ == sysfs_tree(),
        is_tree(entries@),
{
    let mut entries: Vec<TreeEntry> = Vec::new();
    entries.push(entry(None, "kernel", NodeKind::Dir, ""));
    entries.push(entry(Some(0), "mm", NodeKind::Dir, ""));
    entries.push(entry(Some(1), "transparent_hugepage", NodeKind::Dir, ""));
    entries.push(entry(Some(2), "enabled", NodeKind::File, "always [madvise] never\n"));
    entries.push(entry(None, "devices", NodeKind::Dir, ""));
    entries.push(entry(Some(4), "system", NodeKind::Dir, ""));
    entries.push(entry(Some(5), "clocksource", NodeKind::Dir, ""));
    entries.push(entry(Some(6), "clocksource0", NodeKind::Dir, ""));
    entries.push(entry(Some(7), "current_clocksource", NodeKind::File, "tsc\n"));
    assert(entries@ =~= sysfs_tree());
    entries
}

} // verus!
