//! Source discovery and path mapping: which files of a listing are source
//! documents, where each document's rendered page is written, and which
//! document is the home page.

use vstd::prelude::*;

use crate::text::{last_index_of, lemma_last_index_of, rfind_char};

verus! {

/// The extension of path `p`: the part after the last `.` of its final
/// component, provided that dot is neither the component's first character
/// nor absent.
pub open spec fn extension_of(p: Seq<char>) -> Option<Seq<char>> {
    let slash = last_index_of(p, '/');
    let dot = last_index_of(p, '.');
    if dot > slash + 1 {
        Some(p.subrange(dot + 1, p.len() as int))
    } else {
        None
    }
}

pub open spec fn has_extension(p: Seq<char>, ext: Seq<char>) -> bool {
    extension_of(p) == Some(ext)
}

/// `p` with its extension replaced by `ext`; when `p` has no extension,
/// `.ext` is appended instead.
pub open spec fn with_extension(p: Seq<char>, ext: Seq<char>) -> Seq<char> {
    if extension_of(p) is Some {
        p.take(last_index_of(p, '.') + 1) + ext
    } else {
        p + seq!['.'] + ext
    }
}

/// The destination of source path `p`: its path relative to `src_dir`,
/// mirrored under `dist_dir`, with the extension replaced by `ext`.
pub open spec fn dest_path(p: Seq<char>, src_dir: Seq<char>, dist_dir: Seq<char>, ext: Seq<char>) -> Seq<char> {
    dist_dir + seq!['/'] + with_extension(p.skip(src_dir.len() as int + 1), ext)
}

/// The one source path that is rendered as the home page.
pub open spec fn home_path(src_dir: Seq<char>, src_ext: Seq<char>) -> Seq<char> {
    src_dir + "/index."@ + src_ext
}

pub open spec fn ext_pred(ext: Seq<char>) -> spec_fn(Seq<char>) -> bool {
    |p: Seq<char>| has_extension(p, ext)
}

/// The paths of `paths` whose extension is `ext`, in their original order.
pub open spec fn matching_paths(paths: Seq<Seq<char>>, ext: Seq<char>) -> Seq<Seq<char>> {
    paths.filter(ext_pred(ext))
}

/// Whether the extension of `p` equals `ext`.
pub fn path_has_extension(p: &str, ext: &str) -> (r: bool)
    ensures
        r == has_extension(p@, ext@),
{
    proof {
        lemma_last_index_of(p@, '/');
        lemma_last_index_of(p@, '.');
    }
    let n = p.unicode_len();
    let (dfound, didx) = rfind_char(p, '.');
    if !dfound {
        return false;
    }
    let (sfound, sidx) = rfind_char(p, '/');
    let in_name = if sfound {
        didx > sidx + 1
    } else {
        didx > 0
    };
    if !in_name {
        return false;
    }
    let tail = p.substring_char(didx + 1, n);
    let eq = tail.to_owned() == ext.to_owned();
    eq
}

/// The file paths under `paths` whose extension equals `extension`, kept in
/// their original order.
pub fn find_files(paths: &Vec<String>, extension: &str) -> (r: Vec<String>)
    ensures
        r.deep_view() == matching_paths(paths.deep_view(), extension@),
{
    let mut out: Vec<String> = Vec::new();
    let mut i: usize = 0;
    while i < paths.len()
        invariant
            i <= paths.len(),
            out.deep_view() == paths.deep_view().take(i as int).filter(ext_pred(extension@)),
        decreases paths.len() - i,
    {
        let keep = path_has_extension(paths[i].as_str(), extension);
        let ghost pre = paths.deep_view().take(i as int);
        let ghost cur = paths.deep_view().take(i + 1);
        proof {
            reveal(Seq::filter);
            assert(cur.drop_last() =~= pre);
            assert(cur.last() == paths.deep_view()[i as int]);
        }
        if keep {
            out.push(paths[i].clone());
            proof {
                assert(out.deep_view() =~= pre.filter(ext_pred(extension@)).push(
                    paths.deep_view()[i as int],
                ));
            }
        }
        i = i + 1;
    }
    proof {
        assert(paths.deep_view().take(paths@.len() as int) =~= paths.deep_view());
    }
    out
}

/// The destination path mirrored under `dist_dir`: `file` relative to
/// `src_dir`, with the extension replaced by `dest_ext`.
pub fn src_path_to_dest_path(file: &str, src_dir: &str, dist_dir: &str, dest_ext: &str) -> (r: String)
    requires
        file@.len() >= src_dir@.len() + 1,
        file@.take(src_dir@.len() as int + 1) == src_dir@ + seq!['/'],
    ensures
        r@ == dest_path(file@, src_dir@, dist_dir@, dest_ext@),
{
    let m = src_dir.unicode_len();
    let n = file.unicode_len();
    let rel = file.substring_char(m + 1, n);
    proof {
        assert(rel@ =~= file@.skip(src_dir@.len() as int + 1));
        lemma_last_index_of(rel@, '.');
        lemma_last_index_of(rel@, '/');
    }
    let (dfound, didx) = rfind_char(rel, '.');
    let (sfound, sidx) = rfind_char(rel, '/');
    let has_ext = dfound && (if sfound {
        didx > sidx + 1
    } else {
        didx > 0
    });
    let mut r = dist_dir.to_owned();
    r.append("/");
    if has_ext {
        let stem = rel.substring_char(0, didx + 1);
        r.append(stem);
        r.append(dest_ext);
    } else {
        r.append(rel);
        r.append(".");
        r.append(dest_ext);
    }
    proof {
        reveal_strlit("/");
        reveal_strlit(".");
        assert(r@ =~= dest_path(file@, src_dir@, dist_dir@, dest_ext@));
    }
    r
}

/// Whether `path` is exactly the home page's source path,
/// `src_dir/index.src_ext`.
pub fn is_home(path: &str, src_dir: &str, src_ext: &str) -> (r: bool)
    ensures
        r == (path@ == home_path(src_dir@, src_ext@)),
{
    let mut h = src_dir.to_owned();
    h.append("/index.");
    h.append(src_ext);
    let eq = path.to_owned() == h;
    eq
}

} // verus!
