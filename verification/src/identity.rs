//! Who generates the activity: the identity that every record of a run
//! carries, resolved once from what the operating system tells.

use vstd::prelude::*;
use vstd::slice::{slice_subrange, slice_to_vec};
use vstd::string::StringExecFns;
use vstd::utf8::{decode_utf8, decode_utf8_encode_utf8, encode_scalar, encode_utf8, valid_utf8};

verus! {

/// Why the name of the running executable could not be resolved.
#[derive(Debug)]
pub enum ExecNameError {
    /// The path of the executable could not be determined.
    GetExecutable(std::io::Error),
    /// The last segment of the executable's path is not valid UTF-8.
    NonUTF8ExecName,
}

/// The identity that every record of one run carries.
#[derive(Debug, PartialEq, Eq)]
pub struct IdentityContext {
    pub username: String,
    pub pid: u32,
    pub command_line: String,
    pub process_name: String,
}

impl Clone for IdentityContext {
    fn clone(&self) -> (copy: Self)
        ensures
            copy == *self,
    {
        IdentityContext {
            username: self.username.clone(),
            pid: self.pid,
            command_line: self.command_line.clone(),
            process_name: self.process_name.clone(),
        }
    }
}

/// The byte that separates the segments of a path.
pub const SEPARATOR: u8 = 0x2f;

/// The byte of which the segments `.` and `..` are made.
pub const DOT: u8 = 0x2e;

/// Where the segment begins that `path` ends with: behind its last
/// separator, or at 0 where it has none.
pub open spec fn segment_start(path: Seq<u8>) -> int
    decreases path.len(),
{
    if path.len() == 0 {
        0
    } else if path.last() == SEPARATOR {
        path.len() as int
    } else {
        segment_start(path.drop_last())
    }
}

/// Whether `path` ends with a segment that is a single dot.
pub open spec fn ends_in_dot(path: Seq<u8>) -> bool {
    path.len() > 0 && path.last() == DOT && (path.len() == 1 || path[path.len() - 2] == SEPARATOR)
}

/// How much of `path` is left when the separators and the segments of a
/// single dot that it ends with are passed over.
pub open spec fn named_length(path: Seq<u8>) -> int
    decreases path.len(),
{
    if path.len() == 0 {
        0
    } else if path.last() == SEPARATOR || ends_in_dot(path) {
        named_length(path.drop_last())
    } else {
        path.len() as int
    }
}

/// The last segment of `path`, where separators and segments of a single
/// dot at its end do not count: `bin` for `/usr/bin`, for `/usr/bin/` and
/// for `/usr/bin/.`. It is empty where nothing is left, as for `/`.
pub open spec fn final_segment(path: Seq<u8>) -> Seq<u8> {
    let named = path.take(named_length(path));
    named.subrange(segment_start(named), named.len() as int)
}

/// Whether `segment` is the segment `..`, which names no file.
pub open spec fn is_parent(segment: Seq<u8>) -> bool {
    segment.len() == 2 && segment[0] == DOT && segment[1] == DOT
}

/// Whether `path` ends with the name of a file: its last segment is
/// neither empty nor `..`.
pub open spec fn has_final_segment(path: Seq<u8>) -> bool {
    final_segment(path).len() > 0 && !is_parent(final_segment(path))
}

/// The segment that `path` ends with begins at `start` where no separator
/// stands at or behind `start` and one stands just before it, unless
/// `start` is 0.
proof fn lemma_segment_starts_at(path: Seq<u8>, start: int)
    requires
        0 <= start <= path.len(),
        forall|i: int| start <= i < path.len() ==> path[i] != SEPARATOR,
        start == 0 || path[start - 1] == SEPARATOR,
    ensures
        segment_start(path) == start,
    decreases path.len(),
{
    if path.len() > start {
        lemma_segment_starts_at(path.drop_last(), start);
    }
}

/// The segment that `path` ends with lies within `path`, holds no
/// separator, and begins behind one or at 0.
proof fn lemma_segment_start(path: Seq<u8>)
    ensures
        0 <= segment_start(path) <= path.len(),
        forall|i: int| segment_start(path) <= i < path.len() ==> path[i] != SEPARATOR,
        segment_start(path) == 0 || path[segment_start(path) - 1] == SEPARATOR,
    decreases path.len(),
{
    if path.len() > 0 && path.last() != SEPARATOR {
        let shorter = path.drop_last();
        lemma_segment_start(shorter);
        assert forall|i: int| segment_start(path) <= i < path.len() implies path[i] != SEPARATOR by {
            if i < shorter.len() {
                assert(shorter[i] == path[i]);
            }
        }
        if segment_start(path) > 0 {
            assert(shorter[segment_start(path) - 1] == path[segment_start(path) - 1]);
        }
    }
}

/// What is left of `path` lies within it and ends neither with a separator
/// nor with a segment of a single dot.
proof fn lemma_named_length(path: Seq<u8>)
    ensures
        0 <= named_length(path) <= path.len(),
        named_length(path) > 0 ==> path[named_length(path) - 1] != SEPARATOR && !ends_in_dot(
            path.take(named_length(path)),
        ),
    decreases path.len(),
{
    if path.len() > 0 {
        if path.last() == SEPARATOR || ends_in_dot(path) {
            lemma_named_length(path.drop_last());
            assert(path.drop_last().take(named_length(path)) =~= path.take(named_length(path)));
        } else {
            assert(path.take(path.len() as int) =~= path);
        }
    }
}

/// The last segment of a path that ends with the name of a file is that
/// name: it is not empty, holds no separator, and is neither `.` nor `..`.
pub proof fn lemma_final_segment_is_a_name(path: Seq<u8>)
    requires
        has_final_segment(path),
    ensures
        final_segment(path).len() > 0,
        forall|i: int| 0 <= i < final_segment(path).len() ==> final_segment(path)[i] != SEPARATOR,
        !(final_segment(path).len() == 1 && final_segment(path)[0] == DOT),
        !is_parent(final_segment(path)),
{
    lemma_named_length(path);
    lemma_segment_start(path.take(named_length(path)));
}

/// A path has a last segment exactly when something is left of it, and
/// then the segment ends where that ends.
pub proof fn lemma_final_segment_ends_the_name(path: Seq<u8>)
    ensures
        final_segment(path).len() > 0 <==> named_length(path) > 0,
        final_segment(path).len() <= named_length(path) <= path.len(),
        final_segment(path) == path.subrange(
            named_length(path) - final_segment(path).len(),
            named_length(path),
        ),
{
    lemma_named_length(path);
    let named = path.take(named_length(path));
    lemma_segment_start(named);
    assert(final_segment(path) =~= path.subrange(
        named_length(path) - final_segment(path).len(),
        named_length(path),
    ));
}

/// `words` with one space between each two of them.
pub open spec fn joined(words: Seq<Seq<char>>) -> Seq<char>
    decreases words.len(),
{
    if words.len() == 0 {
        Seq::empty()
    } else if words.len() == 1 {
        words[0]
    } else {
        joined(words.drop_last()) + seq![' '] + words.last()
    }
}

/// The name that `executable` gives the process: the last segment of the
/// path, read as UTF-8.
pub open spec fn process_name_of(executable: Result<Vec<u8>, std::io::Error>) -> Result<Seq<char>, ExecNameError> {
    match executable {
        Err(error) => Err(ExecNameError::GetExecutable(error)),
        Ok(path) => if valid_utf8(final_segment(path@)) {
            Ok(decode_utf8(final_segment(path@)))
        } else {
            Err(ExecNameError::NonUTF8ExecName)
        },
    }
}

/// Text that holds the character `/` is encoded with the byte of the
/// separator.
proof fn lemma_separator_is_encoded(text: Seq<char>, at: int)
    requires
        0 <= at < text.len(),
        text[at] == '/',
    ensures
        exists|i: int| 0 <= i < encode_utf8(text).len() && #[trigger] encode_utf8(text)[i] == SEPARATOR,
    decreases text.len(),
{
    let first = encode_scalar(text[0] as u32);
    let behind = encode_utf8(text.drop_first());
    if at == 0 {
        assert('/' as u32 == 0x2f);
        assert(0x2fu32 & 0x7F == 0x2f) by (bit_vector);
        assert(first[0] == SEPARATOR);
        assert(encode_utf8(text)[0] == SEPARATOR);
    } else {
        assert(text.drop_first()[at - 1] == text[at]);
        lemma_separator_is_encoded(text.drop_first(), at - 1);
        let i = choose|i: int| 0 <= i < behind.len() && #[trigger] behind[i] == SEPARATOR;
        assert(encode_utf8(text)[first.len() + i] == behind[i]);
    }
}

/// The text of bytes that are valid UTF-8, not empty and without a
/// separator is not empty and without the character `/`.
pub proof fn lemma_name_is_text(bytes: Seq<u8>)
    requires
        valid_utf8(bytes),
        bytes.len() > 0,
        forall|i: int| 0 <= i < bytes.len() ==> bytes[i] != SEPARATOR,
    ensures
        decode_utf8(bytes).len() > 0,
        !decode_utf8(bytes).contains('/'),
{
    let text = decode_utf8(bytes);
    decode_utf8_encode_utf8(bytes);
    if text.contains('/') {
        let at = choose|at: int| 0 <= at < text.len() && text[at] == '/';
        lemma_separator_is_encoded(text, at);
    }
}

/// Whether `executable` can give the process a name: where it is a path,
/// the path ends with the name of a file.
pub open spec fn names_process(executable: Result<Vec<u8>, std::io::Error>) -> bool {
    executable matches Ok(path) ==> has_final_segment(path@)
}

/// Calls `String::from_utf8`, which returns the text that `bytes` encode
/// where they are valid UTF-8, and an error, here `None`, where they are
/// not.
#[verifier::external_body]
fn text_of(bytes: Vec<u8>) -> (text: Option<String>)
    ensures
        text is Some <==> valid_utf8(bytes@),
        text matches Some(decoded) ==> decoded@ == decode_utf8(bytes@),
{
    String::from_utf8(bytes).ok()
}

/// Calls `whoami::username`, the name of the user that the process runs
/// as. The name depends on the machine, so nothing is claimed of it.
#[verifier::external_body]
fn current_username() -> (username: String) {
    whoami::username()
}

/// The length of what is left of `path` when the separators and the
/// segments of a single dot that it ends with are passed over.
fn named_end(path: &[u8]) -> (end: usize)
    ensures
        end == named_length(path@),
        end <= path.len(),
{
    let mut end: usize = path.len();
    assert(path@.take(end as int) =~= path@);
    while end > 0 && (path[end - 1] == SEPARATOR || (path[end - 1] == DOT && (end == 1 || path[end - 2]
        == SEPARATOR)))
        invariant
            end <= path.len(),
            named_length(path@) == named_length(path@.take(end as int)),
        decreases end,
    {
        assert(path@.take(end as int).drop_last() =~= path@.take(end - 1));
        end -= 1;
    }
    proof {
        let left = path@.take(end as int);
        if end > 0 {
            assert(left.last() == path@[end - 1]);
            if end > 1 {
                assert(left[end - 2] == path@[end - 2]);
            }
            assert(!ends_in_dot(left));
        }
    }
    end
}

/// Copies the last segment of `path`, where separators and segments of a
/// single dot at its end do not count.
pub fn last_segment(path: &[u8]) -> (segment: Vec<u8>)
    ensures
        segment@ == final_segment(path@),
{
    let end = named_end(path);
    let mut start: usize = end;
    while start > 0 && path[start - 1] != SEPARATOR
        invariant
            start <= end <= path.len(),
            forall|i: int| start <= i < end ==> path@[i] != SEPARATOR,
        decreases start,
    {
        start -= 1;
    }
    proof {
        lemma_segment_starts_at(path@.take(end as int), start as int);
        assert(path@.take(end as int).subrange(start as int, end as int) =~= path@.subrange(
            start as int,
            end as int,
        ));
    }
    slice_to_vec(slice_subrange(path, start, end))
}

/// Whether `path` ends with the name of a file, which `/`, `..` and the
/// empty path do not.
pub fn names_a_file(path: &[u8]) -> (answer: bool)
    ensures
        answer == has_final_segment(path@),
{
    let segment = last_segment(path);
    segment.len() > 0 && !(segment.len() == 2 && segment[0] == DOT && segment[1] == DOT)
}

/// The name of the running process, from the path of its executable as the
/// operating system gave it, or from the failure to give one.
///
/// The name is the last segment of the path, which has to be the name of a
/// file. It has to be valid UTF-8; what stands before it in the path does
/// not.
pub fn current_process_name(executable: Result<Vec<u8>, std::io::Error>) -> (name: Result<String, ExecNameError>)
    requires
        names_process(executable),
    ensures
        match process_name_of(executable) {
            Ok(text) => name matches Ok(decoded) && decoded@ == text,
            Err(error) => name == Err::<String, ExecNameError>(error),
        },
        name matches Ok(decoded) ==> decoded@.len() > 0 && !decoded@.contains('/'),
{
    match executable {
        Err(error) => Err(ExecNameError::GetExecutable(error)),
        Ok(path) => {
            let segment = last_segment(path.as_slice());
            proof {
                lemma_final_segment_is_a_name(path@);
                if valid_utf8(segment@) {
                    lemma_name_is_text(segment@);
                }
            }
            match text_of(segment) {
                Some(text) => Ok(text),
                None => Err(ExecNameError::NonUTF8ExecName),
            }
        },
    }
}

/// The command line of a process: its arguments, the program first, with one
/// space between each two of them.
pub fn command_line(arguments: &Vec<String>) -> (line: String)
    ensures
        line@ == joined(arguments.deep_view()),
{
    let mut line = String::new();
    let mut done: usize = 0;
    while done < arguments.len()
        invariant
            done <= arguments.len(),
            line@ == joined(arguments.deep_view().take(done as int)),
        decreases arguments.len() - done,
    {
        let ghost before = arguments.deep_view().take(done as int);
        let ghost after = arguments.deep_view().take(done + 1);
        assert(after.drop_last() == before);
        assert(after.last() == arguments[done as int]@);
        if done > 0 {
            proof {
                reveal_strlit(" ");
            }
            assert(" "@ == seq![' ']);
            line.append(" ");
        }
        line.append(arguments[done].as_str());
        done += 1;
    }
    assert(arguments.deep_view().take(done as int) == arguments.deep_view());
    line
}

impl IdentityContext {
    /// The identity of a process from what the operating system tells of it:
    /// the user it runs as, its process id, its arguments and the path of
    /// its executable, or the failure to find that path. The path has to
    /// end with the name of a file, which [`names_a_file`] tells.
    pub fn assemble(
        username: String,
        pid: u32,
        arguments: &Vec<String>,
        executable: Result<Vec<u8>, std::io::Error>,
    ) -> (identity: Result<IdentityContext, ExecNameError>)
        requires
            names_process(executable),
        ensures
            match process_name_of(executable) {
                Ok(name) => identity matches Ok(context) && context.username == username
                    && context.pid == pid && context.command_line@ == joined(arguments.deep_view())
                    && context.process_name@ == name,
                Err(error) => identity == Err::<IdentityContext, ExecNameError>(error),
            },
            identity matches Ok(context) ==> context.process_name@.len() > 0 && !context.process_name@.contains(
                '/',
            ),
    {
        match current_process_name(executable) {
            Ok(process_name) => Ok(
                IdentityContext { username, pid, command_line: command_line(arguments), process_name },
            ),
            Err(error) => Err(error),
        }
    }

    /// The identity of the running process. The caller hands in what std
    /// tells of the process; the user's name is looked up here.
    ///
    /// The outcome is that of [`IdentityContext::assemble`] for the name
    /// that the lookup gave.
    pub fn resolve(pid: u32, arguments: &Vec<String>, executable: Result<Vec<u8>, std::io::Error>) -> (identity:
        Result<IdentityContext, ExecNameError>)
        requires
            names_process(executable),
        ensures
            match process_name_of(executable) {
                Ok(name) => identity matches Ok(context) && context.pid == pid && context.command_line@ == joined(
                    arguments.deep_view(),
                ) && context.process_name@ == name,
                Err(error) => identity == Err::<IdentityContext, ExecNameError>(error),
            },
            identity matches Ok(context) ==> context.process_name@.len() > 0 && !context.process_name@.contains(
                '/',
            ),
    {
        IdentityContext::assemble(current_username(), pid, arguments, executable)
    }
}

} // verus!
