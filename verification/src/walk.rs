//! Tree-walk policy: which file labels a root yields under the hidden-entry
//! and recursion flags.
//!
//! The walker works on a snapshot of the directory tree handed to it as
//! plain values; reading the filesystem into that snapshot is its caller's
//! business. A root that is a regular file is always yielded, whatever the
//! policy: explicit inputs bypass hidden-name filtering. Under a directory
//! root, an entry whose name starts with the hidden marker is pruned with
//! its whole subtree unless hidden entries are included; directories are
//! never yielded themselves, only the files below them; and without the
//! recursive flag only a directory root's immediate children are
//! considered.

use crate::strutil::push_char;
use vstd::prelude::*;

verus! {

/// A snapshot of one filesystem entry: a regular file, or a directory with
/// its children in listing order.
#[derive(Debug)]
pub enum FsNode {
    /// A regular file.
    File { name: String },
    /// A directory and its immediate children.
    Dir { name: String, children: Vec<FsNode> },
}

/// Whether an entry's name marks it hidden: it starts with a dot.
pub open spec fn is_hidden_name(name: Seq<char>) -> bool {
    name.len() > 0 && name[0] == '.'
}

/// The name of a node.
pub open spec fn node_name(n: FsNode) -> Seq<char> {
    match n {
        FsNode::File { name } => name@,
        FsNode::Dir { name, children: _ } => name@,
    }
}

/// The labels yielded by one directory entry below `prefix`: nothing when
/// the entry is pruned as hidden; the joined label for a file; the labels
/// below a directory when descending recursively, nothing otherwise.
pub open spec fn walk_entry(
    n: FsNode,
    include_hidden: bool,
    recursive: bool,
    prefix: Seq<char>,
) -> Seq<Seq<char>>
    decreases n,
{
    if !include_hidden && is_hidden_name(node_name(n)) {
        Seq::empty()
    } else {
        match n {
            FsNode::File { name } => seq![prefix + seq!['/'] + name@],
            FsNode::Dir { name, children } => {
                if recursive {
                    walk_children(children@, include_hidden, recursive, prefix + seq!['/'] + name@)
                } else {
                    Seq::empty()
                }
            },
        }
    }
}

/// The labels yielded by a directory's children, in listing order.
pub open spec fn walk_children(
    cs: Seq<FsNode>,
    include_hidden: bool,
    recursive: bool,
    prefix: Seq<char>,
) -> Seq<Seq<char>>
    decreases cs,
{
    if cs.len() == 0 {
        Seq::empty()
    } else {
        walk_entry(cs[0], include_hidden, recursive, prefix) + walk_children(
            cs.drop_first(),
            include_hidden,
            recursive,
            prefix,
        )
    }
}

/// Every file label a root yields under the policy. A file root is yielded
/// as its own path; a directory root yields what its children yield, with
/// the hidden filter at every level and, without the recursive flag, its
/// immediate children only.
pub open spec fn walk_tree(
    root: FsNode,
    root_path: Seq<char>,
    include_hidden: bool,
    recursive: bool,
) -> Seq<Seq<char>> {
    match root {
        FsNode::File { name: _ } => seq![root_path],
        FsNode::Dir { name: _, children } => walk_children(
            children@,
            include_hidden,
            recursive,
            root_path,
        ),
    }
}

/// Whether an entry's name marks it hidden.
pub fn is_hidden(name: &str) -> (r: bool)
    ensures
        r == is_hidden_name(name@),
{
    let n = name.unicode_len();
    if n == 0 {
        false
    } else {
        name.get_char(0) == '.'
    }
}

/// Joins a parent label and a child name with the path separator.
pub fn join_path(prefix: &str, name: &str) -> (r: String)
    ensures
        r@ == prefix@ + seq!['/'] + name@,
{
    let mut r = prefix.to_owned();
    push_char(&mut r, '/');
    r.append(name);
    r
}

/// Appends the labels of one entry to `out`.
fn walk_entry_into(
    n: &FsNode,
    include_hidden: bool,
    recursive: bool,
    prefix: &str,
    out: &mut Vec<String>,
)
    ensures
        final(out).deep_view() == old(out).deep_view() + walk_entry(
            *n,
            include_hidden,
            recursive,
            prefix@,
        ),
    decreases *n,
{
    let name: &str = match n {
        FsNode::File { name } => name.as_str(),
        FsNode::Dir { name, children: _ } => name.as_str(),
    };
    if !include_hidden && is_hidden(name) {
        proof {
            assert(out.deep_view() =~= out.deep_view() + Seq::<Seq<char>>::empty());
        }
        return ;
    }
    match n {
        FsNode::File { name } => {
            let label = join_path(prefix, name.as_str());
            out.push(label);
            proof {
                assert(out.deep_view() =~= old(out).deep_view() + walk_entry(
                    *n,
                    include_hidden,
                    recursive,
                    prefix@,
                ));
            }
        },
        FsNode::Dir { name, children } => {
            if recursive {
                let child_prefix = join_path(prefix, name.as_str());
                walk_children_into(children, include_hidden, recursive, child_prefix.as_str(), out);
            } else {
                proof {
                    assert(out.deep_view() =~= out.deep_view() + Seq::<Seq<char>>::empty());
                }
            }
        },
    }
}

/// Appends the labels of a directory's children to `out`, in listing
/// order.
fn walk_children_into(
    children: &Vec<FsNode>,
    include_hidden: bool,
    recursive: bool,
    prefix: &str,
    out: &mut Vec<String>,
)
    ensures
        final(out).deep_view() == old(out).deep_view() + walk_children(
            children@,
            include_hidden,
            recursive,
            prefix@,
        ),
    decreases *children,
{
    let m = children.len();
    proof {
        assert(children@.skip(0) == children@);
    }
    for i in 0..m
        invariant
            m == children@.len(),
            out.deep_view() + walk_children(
                children@.skip(i as int),
                include_hidden,
                recursive,
                prefix@,
            ) =~= old(out).deep_view() + walk_children(
                children@,
                include_hidden,
                recursive,
                prefix@,
            ),
    {
        walk_entry_into(&children[i], include_hidden, recursive, prefix, out);
        proof {
            assert(children@.skip(i as int).drop_first() == children@.skip(i + 1));
        }
    }
    proof {
        assert(out.deep_view() =~= out.deep_view() + walk_children(
            children@.skip(m as int),
            include_hidden,
            recursive,
            prefix@,
        ));
        assert(out.deep_view() =~= old(out).deep_view() + walk_children(
            children@,
            include_hidden,
            recursive,
            prefix@,
        ));
    }
}

/// Walks a snapshot of the tree under `root`, labeled `root_path`, and
/// returns every file label the policy yields, in traversal order.
pub fn walk(root: &FsNode, root_path: &str, include_hidden: bool, recursive: bool) -> (r: Vec<
    String,
>)
    ensures
        r.deep_view() == walk_tree(*root, root_path@, include_hidden, recursive),
{
    let mut out: Vec<String> = Vec::new();
    match root {
        FsNode::File { name: _ } => {
            out.push(root_path.to_owned());
            proof {
                assert(out.deep_view() =~= walk_tree(*root, root_path@, include_hidden, recursive));
            }
        },
        FsNode::Dir { name: _, children } => {
            walk_children_into(children, include_hidden, recursive, root_path, &mut out);
            proof {
                assert(out.deep_view() =~= walk_tree(*root, root_path@, include_hidden, recursive));
            }
        },
    }
    out
}

} // verus!
