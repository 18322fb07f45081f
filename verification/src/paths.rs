//! Paths as text: segments separated by `/`, the file name of a path, its
//! stem and extension, and joining a directory with a name.
//!
//! A path is a sequence of characters. Its segments are the stretches between
//! separators; empty segments and `.` segments name nothing, so `a//b/./`
//! has the file name `b`.

use vstd::prelude::*;

verus! {

/// The separator between the segments of a path.
pub const SEPARATOR: char = '/';

/// Where the last segment of `p` begins: just behind the last separator, or
/// at 0 where `p` holds none.
pub open spec fn last_segment_start(p: Seq<char>) -> int
    decreases p.len(),
{
    if p.len() == 0 {
        0
    } else if p.last() == SEPARATOR {
        p.len() as int
    } else {
        last_segment_start(p.drop_last())
    }
}

/// Whether a segment names nothing: it is empty or `.`.
pub open spec fn is_blank_segment(seg: Seq<char>) -> bool {
    seg.len() == 0 || (seg.len() == 1 && seg[0] == '.')
}

/// Whether a segment is `..`.
pub open spec fn is_parent_segment(seg: Seq<char>) -> bool {
    seg.len() == 2 && seg[0] == '.' && seg[1] == '.'
}

/// The place of the file name in `p`, as start and end index: the last
/// segment that is neither empty nor `.`. There is none where no such segment
/// exists or where it is `..`.
pub open spec fn name_span(p: Seq<char>) -> Option<(int, int)>
    decreases p.len(),
{
    let start = last_segment_start(p);
    let seg = p.subrange(start, p.len() as int);
    if 0 <= start <= p.len() {
        if is_blank_segment(seg) {
            if start == 0 {
                None
            } else {
                name_span(p.subrange(0, start - 1))
            }
        } else if is_parent_segment(seg) {
            None
        } else {
            Some((start, p.len() as int))
        }
    } else {
        None
    }
}

/// The file name of `p`: for `/a/b/photo.png` it is `photo.png`, for
/// `photos/` it is `photos`, and `/`, `..` and the empty path have none.
pub open spec fn file_name(p: Seq<char>) -> Option<Seq<char>> {
    match name_span(p) {
        Some((start, end)) => Some(p.subrange(start, end)),
        None => None,
    }
}

/// What stands before the file name of `p`, separators included: for
/// `/a/b/photo.png` it is `/a/b/`, for `photo.png` it is empty.
pub open spec fn dir_prefix(p: Seq<char>) -> Option<Seq<char>> {
    match name_span(p) {
        Some((start, end)) => Some(p.subrange(0, start)),
        None => None,
    }
}

/// The index of the last `.` in `name`, if it holds one.
pub open spec fn last_dot(name: Seq<char>) -> Option<int>
    decreases name.len(),
{
    if name.len() == 0 {
        None
    } else if name.last() == '.' {
        Some(name.len() - 1)
    } else {
        last_dot(name.drop_last())
    }
}

/// The stem of a file name: what stands before its last `.`; the whole name
/// where it holds no `.` or only a leading one.
pub open spec fn stem_of(name: Seq<char>) -> Seq<char> {
    match last_dot(name) {
        Some(i) => if i > 0 {
            name.subrange(0, i)
        } else {
            name
        },
        None => name,
    }
}

/// The extension of a file name: what stands behind its last `.`; none where
/// it holds no `.` or only a leading one. `a.` has the empty extension.
pub open spec fn extension_of(name: Seq<char>) -> Option<Seq<char>> {
    match last_dot(name) {
        Some(i) => if i > 0 {
            Some(name.subrange(i + 1, name.len() as int))
        } else {
            None
        },
        None => None,
    }
}

/// `dir` and `name` as one path: `name` alone where `dir` is empty or `name`
/// starts at the root, else `dir`, one separator unless `dir` ends in one,
/// and `name`.
pub open spec fn join(dir: Seq<char>, name: Seq<char>) -> Seq<char> {
    if name.len() > 0 && name[0] == SEPARATOR {
        name
    } else if dir.len() == 0 {
        name
    } else if dir.last() == SEPARATOR {
        dir + name
    } else {
        dir.push(SEPARATOR) + name
    }
}

pub proof fn lemma_last_segment_start(p: Seq<char>, i: int)
    requires
        0 <= i <= p.len(),
        i == 0 || p[i - 1] == SEPARATOR,
        forall|k: int| i <= k < p.len() ==> p[k] != SEPARATOR,
    ensures
        last_segment_start(p) == i,
    decreases p.len(),
{
    if p.len() > i {
        let q = p.drop_last();
        assert(forall|k: int| i <= k < q.len() ==> q[k] == p[k]);
        lemma_last_segment_start(q, i);
    }
}

pub proof fn lemma_last_dot(name: Seq<char>, i: int)
    requires
        0 <= i <= name.len(),
        forall|k: int| i <= k < name.len() ==> name[k] != '.',
    ensures
        i > 0 && name[i - 1] == '.' ==> last_dot(name) == Some(i - 1),
        i == 0 ==> last_dot(name) == None::<int>,
    decreases name.len(),
{
    if name.len() > i {
        let q = name.drop_last();
        assert(forall|k: int| i <= k < q.len() ==> q[k] == name[k]);
        lemma_last_dot(q, i);
    }
}

/// Finds the file name of `p`.
pub fn find_name(p: &str) -> (span: Option<(usize, usize)>)
    ensures
        match span {
            Some((start, end)) => name_span(p@) == Some((start as int, end as int)) && start < end
                <= p@.len(),
            None => name_span(p@) is None,
        },
{
    let mut end: usize = p.unicode_len();
    assert(p@.subrange(0, end as int) =~= p@);
    loop
        invariant
            end <= p@.len(),
            name_span(p@) == name_span(p@.subrange(0, end as int)),
        decreases end,
    {
        let ghost q = p@.subrange(0, end as int);
        let mut start: usize = end;
        while start > 0 && p.get_char(start - 1) != SEPARATOR
            invariant
                start <= end <= p@.len(),
                forall|k: int| start <= k < end ==> p@[k] != SEPARATOR,
            decreases start,
        {
            start -= 1;
        }
        proof {
            lemma_last_segment_start(q, start as int);
            assert(q.subrange(start as int, q.len() as int) =~= p@.subrange(
                start as int,
                end as int,
            ));
        }
        let len = end - start;
        let blank = len == 0 || (len == 1 && p.get_char(start) == '.');
        if blank {
            if start == 0 {
                return None;
            }
            proof {
                assert(q.subrange(0, start - 1) =~= p@.subrange(0, start - 1));
            }
            end = start - 1;
        } else if len == 2 && p.get_char(start) == '.' && p.get_char(start + 1) == '.' {
            return None;
        } else {
            return Some((start, end));
        }
    }
}

/// Why a path could not be resolved.
#[derive(Clone, Copy, Debug, PartialEq, Eq, Structural)]
pub enum PathError {
    /// The path has no file name: it is empty, the root, or ends in `..`.
    NoFileName,
    /// The file name has no extension.
    NoExtension,
}

/// What an output file is made for. It decides the file's name.
#[derive(Clone, Copy, Debug, PartialEq, Eq, Structural)]
pub enum Operation {
    /// A resized copy: `<stem>_resized.<ext>`.
    Resize,
    /// A recompressed copy in the same format: `<stem>_compressed.<ext>`.
    Compress,
    /// A conversion to WebP: `<stem>.webp`.
    Convert,
}

/// The name of the output file for an input with the given stem and
/// extension.
pub open spec fn output_file_name(stem: Seq<char>, ext: Seq<char>, op: Operation) -> Seq<char> {
    match op {
        Operation::Resize => stem + "_resized."@ + ext,
        Operation::Compress => stem + "_compressed."@ + ext,
        Operation::Convert => stem + ".webp"@,
    }
}

/// The directory an output file goes to: with an output root, the root
/// itself, or under it the directory named `batch_dir` where the input is one
/// of a directory's files; without a root, the input's own directory.
pub open spec fn output_directory(
    input: Seq<char>,
    output_root: Option<Seq<char>>,
    batch_dir: Option<Seq<char>>,
) -> Option<Seq<char>> {
    match output_root {
        Some(root) => match batch_dir {
            Some(dir) => Some(join(root, dir)),
            None => Some(root),
        },
        None => dir_prefix(input),
    }
}

/// The text of a path that may be missing.
pub open spec fn text_of(path: Option<&str>) -> Option<Seq<char>> {
    match path {
        Some(p) => Some(p@),
        None => None,
    }
}

/// Where the output of `op` on `input` goes, as directory and file: the file
/// is named after the stem and extension of `input` and stands in
/// `output_directory`. No file name is an error, and so is a file name
/// without an extension.
pub open spec fn resolved_output(
    input: Seq<char>,
    output_root: Option<Seq<char>>,
    batch_dir: Option<Seq<char>>,
    op: Operation,
) -> Result<(Seq<char>, Seq<char>), PathError> {
    match file_name(input) {
        None => Err(PathError::NoFileName),
        Some(name) => match extension_of(name) {
            None => Err(PathError::NoExtension),
            Some(ext) => match output_directory(input, output_root, batch_dir) {
                Some(directory) => Ok(
                    (directory, join(directory, output_file_name(stem_of(name), ext, op))),
                ),
                None => Err(PathError::NoFileName),
            },
        },
    }
}

/// A resolved output: the directory that has to exist, and the file in it.
#[derive(Debug)]
pub struct ResolvedOutput {
    pub directory: String,
    pub path: String,
}

/// The file name of `p`, if it has one.
pub fn path_file_name(p: &str) -> (name: Option<String>)
    ensures
        match name {
            Some(n) => file_name(p@) == Some(n@),
            None => file_name(p@) is None,
        },
{
    match find_name(p) {
        Some((start, end)) => Some(String::from_str(p.substring_char(start, end))),
        None => None,
    }
}

/// Stem and extension of the file name of `input`; `None` where `input` has
/// no file name or the name has no extension.
pub fn get_filename_and_extension(input: &str) -> (parts: Option<(String, String)>)
    ensures
        match parts {
            Some((stem, ext)) => file_name(input@) matches Some(name) && stem@ == stem_of(name)
                && extension_of(name) == Some(ext@),
            None => file_name(input@) matches Some(name) ==> extension_of(name) is None,
        },
{
    match find_name(input) {
        None => None,
        Some((start, end)) => {
            let ghost name = input@.subrange(start as int, end as int);
            let mut dot: usize = end;
            while dot > start && input.get_char(dot - 1) != '.'
                invariant
                    start <= dot <= end <= input@.len(),
                    forall|k: int| dot <= k < end ==> input@[k] != '.',
                decreases dot,
            {
                dot -= 1;
            }
            proof {
                assert(forall|k: int| dot - start <= k < name.len() ==> name[k] == input@[start + k]);
                lemma_last_dot(name, dot - start);
            }
            if dot <= start + 1 {
                None
            } else {
                let stem = String::from_str(input.substring_char(start, dot - 1));
                let ext = String::from_str(input.substring_char(dot, end));
                proof {
                    assert(stem@ =~= stem_of(name));
                    assert(ext@ =~= extension_of(name).unwrap());
                }
                Some((stem, ext))
            }
        },
    }
}

/// `dir` and `name` as one path.
pub fn join_path(dir: &str, name: &str) -> (path: String)
    ensures
        path@ == join(dir@, name@),
{
    let name_len = name.unicode_len();
    let dir_len = dir.unicode_len();
    if name_len > 0 && name.get_char(0) == SEPARATOR {
        String::from_str(name)
    } else if dir_len == 0 {
        String::from_str(name)
    } else {
        let mut path = String::from_str(dir);
        if dir.get_char(dir_len - 1) != SEPARATOR {
            proof {
                reveal_strlit("/");
            }
            path.append("/");
            assert(path@ =~= dir@.push(SEPARATOR));
        }
        path.append(name);
        path
    }
}

/// The name of the output file for the given stem, extension and operation.
pub fn output_name(stem: &str, ext: &str, op: Operation) -> (name: String)
    ensures
        name@ == output_file_name(stem@, ext@, op),
{
    let mut name = String::from_str(stem);
    match op {
        Operation::Resize => {
            name.append("_resized.");
            name.append(ext);
        },
        Operation::Compress => {
            name.append("_compressed.");
            name.append(ext);
        },
        Operation::Convert => {
            name.append(".webp");
        },
    }
    name
}

/// The path of the compressed or converted copy of `input`: the file is named
/// from `input_filename` and `input_extension`, as a conversion where `webp`
/// is set and as a compression where not, and stands in `output_directory`:
/// in `output_dir`, under `batch_dir` in it where `input` is one of a
/// directory's files, or beside `input` where no directory is given. Without
/// a directory `input` must have a file name.
pub fn get_output_file_path(
    input: &str,
    output_dir: Option<&str>,
    batch_dir: Option<&str>,
    input_filename: String,
    input_extension: String,
    webp: bool,
) -> (path: Result<String, PathError>)
    ensures
        ({
            let op = if webp {
                Operation::Convert
            } else {
                Operation::Compress
            };
            let name = output_file_name(input_filename@, input_extension@, op);
            match output_directory(input@, text_of(output_dir), text_of(batch_dir)) {
                Some(directory) => path matches Ok(p) && p@ == join(directory, name),
                None => path == Err::<String, PathError>(PathError::NoFileName),
            }
        }),
{
    let op = if webp {
        Operation::Convert
    } else {
        Operation::Compress
    };
    let name = output_name(input_filename.as_str(), input_extension.as_str(), op);
    match output_dir {
        Some(dir) => match batch_dir {
            Some(batch) => {
                let directory = join_path(dir, batch);
                Ok(join_path(directory.as_str(), name.as_str()))
            },
            None => Ok(join_path(dir, name.as_str())),
        },
        None => match find_name(input) {
            Some((start, _)) => Ok(join_path(input.substring_char(0, start), name.as_str())),
            None => Err(PathError::NoFileName),
        },
    }
}

/// Where the output of `op` on `input` goes. Fails with `NoFileName` exactly
/// where `input` has no file name, and with `NoExtension` exactly where it
/// has one without an extension.
pub fn resolve_output_path(
    input: &str,
    output_root: Option<&str>,
    batch_dir: Option<&str>,
    op: Operation,
) -> (resolved: Result<ResolvedOutput, PathError>)
    ensures
        match resolved_output(input@, text_of(output_root), text_of(batch_dir), op) {
            Ok((directory, path)) => resolved matches Ok(out) && out.directory@ == directory
                && out.path@ == path,
            Err(e) => resolved == Err::<ResolvedOutput, PathError>(e),
        },
{
    let span = find_name(input);
    match span {
        None => Err(PathError::NoFileName),
        Some((start, _)) => match get_filename_and_extension(input) {
            None => Err(PathError::NoExtension),
            Some((stem, ext)) => {
                let name = output_name(stem.as_str(), ext.as_str(), op);
                let directory = match output_root {
                    Some(root) => match batch_dir {
                        Some(dir) => join_path(root, dir),
                        None => String::from_str(root),
                    },
                    None => String::from_str(input.substring_char(0, start)),
                };
                let path = join_path(directory.as_str(), name.as_str());
                Ok(ResolvedOutput { directory, path })
            },
        },
    }
}

} // verus!
