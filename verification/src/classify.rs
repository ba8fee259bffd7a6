//! Archive classification: a pure function from a path's text to the
//! container kind it names, or nothing.
//!
//! The rule is the longest-suffix, case-sensitive one used by the pipeline:
//! take the final path component (ignoring trailing separators), split it at
//! its last dot; `zip` names a zip archive, `tar` a plain tar, `tgz` and
//! `taz` a gzip-compressed tar, and `gz`/`zst`/`bz2`/`xz` name a compressed
//! tar only when the remaining stem itself ends in `.tar`. No filesystem
//! access is involved: a directory named like an archive classifies exactly
//! as a file of that name would.

use vstd::prelude::*;

verus! {

/// The supported archive container kinds.
#[derive(Debug, Clone, Copy, PartialEq, Eq, Structural)]
pub enum ArchiveType {
    Zip,
    Tar,
    TarGz,
    TarZstd,
    TarBzip2,
    TarXz,
}

/// The path with any trailing `/` separators removed, as a path library
/// removes them before naming the final component.
pub open spec fn strip_trailing_slashes(p: Seq<char>) -> Seq<char>
    decreases p.len(),
{
    if p.len() > 0 && p.last() == '/' {
        strip_trailing_slashes(p.drop_last())
    } else {
        p
    }
}

/// The final component of a path that has no trailing separator: the text
/// after the last `/`, or the whole text when there is none.
pub open spec fn file_name(p: Seq<char>) -> Seq<char>
    decreases p.len(),
{
    if p.len() == 0 {
        p
    } else if p.last() == '/' {
        Seq::empty()
    } else {
        file_name(p.drop_last()).push(p.last())
    }
}

/// Splits a file name at its last dot into (stem, extension), or `None`
/// when the name holds no dot at all.
pub open spec fn split_at_last_dot(name: Seq<char>) -> Option<(Seq<char>, Seq<char>)>
    decreases name.len(),
{
    if name.len() == 0 {
        None
    } else if name.last() == '.' {
        Some((name.drop_last(), Seq::<char>::empty()))
    } else {
        match split_at_last_dot(name.drop_last()) {
            None => None,
            Some(parts) => Some((parts.0, parts.1.push(name.last()))),
        }
    }
}

/// Whether a stem ends in `.tar`, so that a compression suffix on it names
/// a compressed tar archive.
pub open spec fn is_tar_stem(stem: Seq<char>) -> bool {
    stem.len() >= 4 && stem.subrange(stem.len() - 4, stem.len() as int) == seq!['.', 't', 'a', 'r']
}

/// The decision table over a name's stem and extension.
pub open spec fn kind_of(stem: Seq<char>, ext: Seq<char>) -> Option<ArchiveType> {
    if ext == seq!['z', 'i', 'p'] {
        Some(ArchiveType::Zip)
    } else if ext == seq!['t', 'a', 'r'] {
        Some(ArchiveType::Tar)
    } else if ext == seq!['t', 'g', 'z'] || ext == seq!['t', 'a', 'z'] {
        Some(ArchiveType::TarGz)
    } else if ext == seq!['g', 'z'] && is_tar_stem(stem) {
        Some(ArchiveType::TarGz)
    } else if ext == seq!['z', 's', 't'] && is_tar_stem(stem) {
        Some(ArchiveType::TarZstd)
    } else if ext == seq!['b', 'z', '2'] && is_tar_stem(stem) {
        Some(ArchiveType::TarBzip2)
    } else if ext == seq!['x', 'z'] && is_tar_stem(stem) {
        Some(ArchiveType::TarXz)
    } else {
        None
    }
}

/// The classification of a whole path: the decision table applied to the
/// stem and extension of its final component. A name whose only dot is its
/// first character (a hidden name such as `.gz`) has no extension and never
/// classifies as an archive.
pub open spec fn classify(path: Seq<char>) -> Option<ArchiveType> {
    let name = file_name(strip_trailing_slashes(path));
    match split_at_last_dot(name) {
        None => None,
        Some(parts) => {
            if parts.0.len() == 0 {
                None
            } else {
                kind_of(parts.0, parts.1)
            }
        },
    }
}

/// When a range `[i, len)` holds no separator and is preceded by one (or by
/// the start of the text), it is exactly the final component.
proof fn lemma_file_name_range(p: Seq<char>, i: int)
    requires
        0 <= i <= p.len(),
        forall|j: int| i <= j < p.len() ==> p[j] != '/',
        i == 0 || p[i - 1] == '/',
    ensures
        file_name(p) == p.subrange(i, p.len() as int),
    decreases p.len(),
{
    if p.len() == i {
        if i == 0 {
            assert(file_name(p) =~= p.subrange(i, p.len() as int));
        } else {
            assert(p.last() == '/');
            assert(file_name(p) =~= p.subrange(i, p.len() as int));
        }
    } else {
        assert(p[p.len() - 1] != '/');
        lemma_file_name_range(p.drop_last(), i);
        assert(p.drop_last().subrange(i, p.len() - 1) =~= p.subrange(i, p.len() - 1));
        assert(file_name(p) =~= p.subrange(i, p.len() as int));
    }
}

/// A name without any dot splits to nothing.
proof fn lemma_split_no_dot(name: Seq<char>)
    requires
        forall|t: int| 0 <= t < name.len() ==> name[t] != '.',
    ensures
        split_at_last_dot(name) is None,
    decreases name.len(),
{
    if name.len() > 0 {
        lemma_split_no_dot(name.drop_last());
    }
}

/// A name whose last dot stands at index `d` splits into the text before it
/// and the text after it.
proof fn lemma_split_at_dot(name: Seq<char>, d: int)
    requires
        0 <= d < name.len(),
        name[d] == '.',
        forall|t: int| d < t < name.len() ==> name[t] != '.',
    ensures
        split_at_last_dot(name) == Some(
            (name.subrange(0, d), name.subrange(d + 1, name.len() as int)),
        ),
    decreases name.len(),
{
    if d == name.len() - 1 {
        assert(name.drop_last() =~= name.subrange(0, d));
        assert(name.subrange(d + 1, name.len() as int) =~= Seq::<char>::empty());
    } else {
        assert(name.last() != '.');
        lemma_split_at_dot(name.drop_last(), d);
        assert(name.drop_last().subrange(0, d) =~= name.subrange(0, d));
        assert(name.drop_last().subrange(d + 1, name.len() - 1).push(name.last()) =~= name.subrange(
            d + 1,
            name.len() as int,
        ));
    }
}

/// Whether a stem, given as text, ends in `.tar`.
fn ends_in_tar(stem: &str) -> (r: bool)
    ensures
        r == is_tar_stem(stem@),
{
    let tl = stem.unicode_len();
    let r = tl >= 4 && stem.get_char(tl - 4) == '.' && stem.get_char(tl - 3) == 't'
        && stem.get_char(tl - 2) == 'a' && stem.get_char(tl - 1) == 'r';
    proof {
        if r {
            assert(stem@.subrange(stem@.len() - 4, stem@.len() as int) =~= seq![
                '.',
                't',
                'a',
                'r',
            ]);
        }
    }
    r
}

/// The decision table, applied to a name's stem and extension as text.
fn kind_from(stem: &str, ext: &str) -> (r: Option<ArchiveType>)
    ensures
        r == kind_of(stem@, ext@),
{
    let is_tar_suffix = ends_in_tar(stem);
    let el = ext.unicode_len();
    if el == 3 {
        let c0 = ext.get_char(0);
        let c1 = ext.get_char(1);
        let c2 = ext.get_char(2);
        if c0 == 'z' && c1 == 'i' && c2 == 'p' {
            proof {
                assert(ext@ =~= seq!['z', 'i', 'p']);
            }
            Some(ArchiveType::Zip)
        } else if c0 == 't' && c1 == 'a' && c2 == 'r' {
            proof {
                assert(ext@ =~= seq!['t', 'a', 'r']);
            }
            Some(ArchiveType::Tar)
        } else if c0 == 't' && c1 == 'g' && c2 == 'z' {
            proof {
                assert(ext@ =~= seq!['t', 'g', 'z']);
            }
            Some(ArchiveType::TarGz)
        } else if c0 == 't' && c1 == 'a' && c2 == 'z' {
            proof {
                assert(ext@ =~= seq!['t', 'a', 'z']);
            }
            Some(ArchiveType::TarGz)
        } else if c0 == 'z' && c1 == 's' && c2 == 't' && is_tar_suffix {
            proof {
                assert(ext@ =~= seq!['z', 's', 't']);
            }
            Some(ArchiveType::TarZstd)
        } else if c0 == 'b' && c1 == 'z' && c2 == '2' && is_tar_suffix {
            proof {
                assert(ext@ =~= seq!['b', 'z', '2']);
            }
            Some(ArchiveType::TarBzip2)
        } else {
            None
        }
    } else if el == 2 {
        let c0 = ext.get_char(0);
        let c1 = ext.get_char(1);
        if c0 == 'g' && c1 == 'z' && is_tar_suffix {
            proof {
                assert(ext@ =~= seq!['g', 'z']);
            }
            Some(ArchiveType::TarGz)
        } else if c0 == 'x' && c1 == 'z' && is_tar_suffix {
            proof {
                assert(ext@ =~= seq!['x', 'z']);
            }
            Some(ArchiveType::TarXz)
        } else {
            None
        }
    } else {
        None
    }
}

impl ArchiveType {
    /// Classifies a path's text, with no filesystem access: `Some` of the
    /// container kind its final component names, `None` for anything else.
    pub fn from_path(path: &str) -> (r: Option<ArchiveType>)
        ensures
            r == classify(path@),
    {
        let n = path.unicode_len();
        proof {
            assert(path@.take(n as int) =~= path@);
        }

        // Ignore trailing separators, as a path library does.
        let mut end = n;
        while end > 0 && path.get_char(end - 1) == '/'
            invariant
                end <= n,
                n == path@.len(),
                strip_trailing_slashes(path@) == strip_trailing_slashes(path@.take(end as int)),
            decreases end,
        {
            proof {
                assert(path@.take(end as int).drop_last() =~= path@.take(end - 1));
            }
            end = end - 1;
        }
        let ghost stripped = path@.take(end as int);
        proof {
            assert(strip_trailing_slashes(stripped) == stripped);
        }

        // Find where the final component begins.
        let mut start = end;
        while start > 0 && path.get_char(start - 1) != '/'
            invariant
                start <= end <= n,
                n == path@.len(),
                forall|j: int| start <= j < end ==> path@[j] != '/',
            decreases start,
        {
            start = start - 1;
        }
        let ghost name = file_name(stripped);
        proof {
            assert(forall|j: int| start <= j < stripped.len() ==> stripped[j] != '/');
            lemma_file_name_range(stripped, start as int);
            assert(name =~= path@.subrange(start as int, end as int));
        }

        // Find the last dot inside the component.
        let mut j = end;
        while j > start && path.get_char(j - 1) != '.'
            invariant
                start <= j <= end <= n,
                n == path@.len(),
                forall|t: int| j <= t < end ==> path@[t] != '.',
            decreases j,
        {
            j = j - 1;
        }

        if j == start {
            // No dot at all: no extension, no archive.
            proof {
                assert(forall|t: int| 0 <= t < name.len() ==> name[t] != '.');
                lemma_split_no_dot(name);
            }
            return None;
        }
        // The dot stands at absolute index j - 1.
        let ghost d: int = j - 1 - start;
        proof {
            assert(name[d] == '.');
            assert(forall|t: int| d < t < name.len() ==> name[t] != '.');
            lemma_split_at_dot(name, d);
        }
        let ghost stem_g = name.subrange(0, d);
        let ghost ext_g = name.subrange(d + 1, name.len() as int);
        if j - 1 == start {
            // The dot is the component's first character: a hidden name,
            // which has no extension.
            proof {
                assert(stem_g.len() == 0);
            }
            return None;
        }

        let stem_s = path.substring_char(start, j - 1);
        let ext_s = path.substring_char(j, end);
        proof {
            assert(stem_s@ =~= stem_g);
            assert(ext_s@ =~= ext_g);
        }
        kind_from(stem_s, ext_s)
    }
}

} // verus!
