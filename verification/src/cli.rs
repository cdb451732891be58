//! Configuration validators and the precedence rule for settings.
//!
//! Each validator takes a raw string and answers with acceptance or a
//! human-readable error string; none mutates anything. They gate argument
//! parsing and are independently callable.

use vstd::prelude::*;
use vstd::string::*;
use crate::sockaddr::is_valid_socket_addr;
use crate::sockaddr::valid_socket_addr;

verus! {

/// A telemetry path is acceptable when it is non-empty, starts with `/` and
/// is not exactly `/`. The check is intentionally shallow: no normalization,
/// no traversal rejection.
pub open spec fn valid_telemetry_path(s: Seq<char>) -> bool {
    s.len() > 0 && s[0] == '/' && s != seq!['/']
}

/// Checks that the telemetry path is valid.
/// This check is extremely basic, and there may still be invalid paths that
/// could be passed.
pub fn is_valid_telemetry_path(s: &str) -> (r: Result<(), String>)
    ensures
        r is Ok <==> valid_telemetry_path(s@),
        s@.len() == 0 ==> (r matches Err(m) && m@ == "path must not be empty"@),
        s@.len() > 0 && s@[0] != '/' ==> (r matches Err(m) && m@ == "path must start with /"@),
        s@ == seq!['/'] ==> (r matches Err(m) && m@ == "path must not be /"@),
{
    let len = s.unicode_len();
    if len == 0 {
        return Err("path must not be empty".to_owned());
    }
    if s.get_char(0) != '/' {
        proof {
            assert(s@ != seq!['/']);
        }
        return Err("path must start with /".to_owned());
    }
    if len == 1 {
        proof {
            assert(s@ =~= seq!['/']);
        }
        return Err("path must not be /".to_owned());
    }
    proof {
        assert(s@ != seq!['/']);
    }
    Ok(())
}

/// Index of the last occurrence of `c` in `s` before position `i`, or -1.
pub open spec fn last_index_before(s: Seq<char>, c: char, i: int) -> int
    decreases i when 0 <= i <= s.len()
{
    if i <= 0 {
        -1
    } else if s[i - 1] == c {
        i - 1
    } else {
        last_index_before(s, c, i - 1)
    }
}

/// Index of the last occurrence of `c` in `s`, or -1.
pub open spec fn last_index(s: Seq<char>, c: char) -> int {
    last_index_before(s, c, s.len() as int)
}

/// The literal `-`, the sentinel for writing to standard output.
pub open spec fn is_stdout_sentinel(s: Seq<char>) -> bool {
    s == seq!['-']
}

/// An absolute path starts with `/`.
pub open spec fn is_absolute_path(s: Seq<char>) -> bool {
    s.len() > 0 && s[0] == '/'
}

/// The path ends in the required extension: its last `.` stands after the
/// last `/` and not at the head of the file name, and `prom` runs from there
/// to the end.
pub open spec fn has_prom_extension(s: Seq<char>) -> bool {
    let sl = last_index(s, '/');
    let d = last_index(s, '.');
    &&& d > sl + 1
    &&& s.len() == d + 5
    &&& s[d + 1] == 'p'
    &&& s[d + 2] == 'r'
    &&& s[d + 3] == 'o'
    &&& s[d + 4] == 'm'
}

/// Everything before the last `/`, or `/` when that would be empty.
pub open spec fn parent_path_of(s: Seq<char>) -> Seq<char> {
    let sl = last_index(s, '/');
    if sl <= 0 {
        seq!['/']
    } else {
        s.subrange(0, sl)
    }
}

/// What can be said of an output path without looking at the filesystem:
/// the sentinel, or an absolute path with the required extension.
pub open spec fn output_path_structure_ok(s: Seq<char>) -> bool {
    is_stdout_sentinel(s) || (is_absolute_path(s) && has_prom_extension(s))
}

proof fn lemma_output_messages_distinct()
    ensures
        "output.file-path only accepts absolute paths"@
            != "output.file-path must not point at a directory"@,
        "output.file-path only accepts absolute paths"@
            != "output.file-path must have .prom extension"@,
        "output.file-path only accepts absolute paths"@
            != "output.file-path directory must exist"@,
        "output.file-path must not point at a directory"@
            != "output.file-path must have .prom extension"@,
        "output.file-path must not point at a directory"@
            != "output.file-path directory must exist"@,
        "output.file-path must have .prom extension"@
            != "output.file-path directory must exist"@,
{
    reveal_strlit("output.file-path only accepts absolute paths");
    reveal_strlit("output.file-path must not point at a directory");
    reveal_strlit("output.file-path must have .prom extension");
    reveal_strlit("output.file-path directory must exist");
    // the four messages already differ in length
    assert("output.file-path only accepts absolute paths"@.len() == 44);
    assert("output.file-path must not point at a directory"@.len() == 46);
    assert("output.file-path must have .prom extension"@.len() == 42);
    assert("output.file-path directory must exist"@.len() == 37);
}

proof fn lemma_last_index_found(s: Seq<char>, c: char, j: int, i: int)
    requires
        0 <= j < i <= s.len(),
        s[j] == c,
    ensures
        last_index_before(s, c, i) >= j,
    decreases i,
{
    if i - 1 > j && s[i - 1] != c {
        lemma_last_index_found(s, c, j, i - 1);
    }
}

/// Position of the last occurrence of `c`, scanned from the end.
fn find_last(s: &str, len: usize, c: char) -> (r: Option<usize>)
    requires
        len == s@.len(),
    ensures
        r matches Some(i) ==> (last_index(s@, c) == i as int && i < len),
        r is None ==> last_index(s@, c) == -1,
{
    let mut i = len;
    loop
        invariant
            i <= len,
            len == s@.len(),
            last_index_before(s@, c, len as int) == last_index_before(s@, c, i as int),
        decreases i,
    {
        if i == 0 {
            return None;
        }
        if s.get_char(i - 1) == c {
            return Some(i - 1);
        }
        i = i - 1;
    }
}

/// Everything before the last `/` of an absolute path, or `/` when that
/// would be empty.
fn parent_path(s: &str) -> (r: String)
    requires
        is_absolute_path(s@),
    ensures
        r@ == parent_path_of(s@),
{
    let len = s.unicode_len();
    proof {
        lemma_last_index_found(s@, '/', 0, len as int);
    }
    let sl = find_last(s, len, '/').unwrap();
    if sl == 0 {
        let r = "/".to_owned();
        proof {
            reveal_strlit("/");
            assert(r@ =~= seq!['/']);
        }
        r
    } else {
        s.substring_char(0, sl).to_owned()
    }
}

/// The pure rules of the output-path validator, with the two answers of the
/// filesystem handed in: whether the path names a directory, and whether its
/// parent directory exists. Succeeds exactly on the sentinel, or on an
/// absolute non-directory path with the required extension and an existing
/// parent directory; each failure carries the message of the first rule it
/// broke, and each message names exactly its rule.
pub fn check_output_path(s: &str, points_at_directory: bool, parent_is_directory: bool) -> (r:
    Result<(), String>)
    ensures
        r is Ok <==> (is_stdout_sentinel(s@) || (is_absolute_path(s@) && !points_at_directory
            && has_prom_extension(s@) && parent_is_directory)),
        !is_stdout_sentinel(s@) && !is_absolute_path(s@) ==> (r matches Err(m) && m@
            == "output.file-path only accepts absolute paths"@),
        !is_stdout_sentinel(s@) && is_absolute_path(s@) && points_at_directory ==> (r matches Err(
            m,
        ) && m@ == "output.file-path must not point at a directory"@),
        is_absolute_path(s@) && !is_stdout_sentinel(s@) && !points_at_directory
            && !has_prom_extension(s@) ==> (r matches Err(m) && m@
            == "output.file-path must have .prom extension"@),
        !is_stdout_sentinel(s@) && is_absolute_path(s@) && !points_at_directory
            && has_prom_extension(s@) && !parent_is_directory ==> (r matches Err(m) && m@
            == "output.file-path directory must exist"@),
        (r matches Err(m) && m@ == "output.file-path only accepts absolute paths"@) ==> (
        !is_stdout_sentinel(s@) && !is_absolute_path(s@)),
        (r matches Err(m) && m@ == "output.file-path must not point at a directory"@) ==> (
        !is_stdout_sentinel(s@) && is_absolute_path(s@) && points_at_directory),
        (r matches Err(m) && m@ == "output.file-path must have .prom extension"@) ==> (
        !is_stdout_sentinel(s@) && is_absolute_path(s@) && !points_at_directory
            && !has_prom_extension(s@)),
        (r matches Err(m) && m@ == "output.file-path directory must exist"@) ==> (
        !is_stdout_sentinel(s@) && is_absolute_path(s@) && !points_at_directory
            && has_prom_extension(s@) && !parent_is_directory),
{
    proof {
        lemma_output_messages_distinct();
    }
    let len = s.unicode_len();
    if len == 1 && s.get_char(0) == '-' {
        proof {
            assert(s@ =~= seq!['-']);
        }
        return Ok(());
    }
    proof {
        assert(s@ != seq!['-']);
    }
    if len == 0 || s.get_char(0) != '/' {
        return Err("output.file-path only accepts absolute paths".to_owned());
    }
    if points_at_directory {
        return Err("output.file-path must not point at a directory".to_owned());
    }
    proof {
        lemma_last_index_found(s@, '/', 0, len as int);
    }
    let sl = find_last(s, len, '/').unwrap();
    let d = match find_last(s, len, '.') {
        None => {
            return Err("output.file-path must have .prom extension".to_owned());
        },
        Some(d) => d,
    };
    if d <= sl + 1 || len - d != 5 {
        return Err("output.file-path must have .prom extension".to_owned());
    }
    if s.get_char(d + 1) != 'p' || s.get_char(d + 2) != 'r' || s.get_char(d + 3) != 'o'
        || s.get_char(d + 4) != 'm' {
        return Err("output.file-path must have .prom extension".to_owned());
    }
    if !parent_is_directory {
        return Err("output.file-path directory must exist".to_owned());
    }
    Ok(())
}

/// Relies on std::path::Path::is_dir: whether the path currently names a
/// directory on this host. The answer depends on the state of the
/// filesystem, so nothing is promised of it.
#[verifier::external_body]
fn path_points_at_directory(s: &str) -> bool {
    std::path::Path::new(s).is_dir()
}

/// Checks the output file path: the sentinel `-` always passes; otherwise
/// the path must be absolute, must not name an existing directory, must end
/// in `.prom`, and its parent directory must exist. The filesystem answers
/// for the two existence checks; every structural rule is enforced exactly.
pub fn is_valid_filesystem_path(s: &str) -> (r: Result<(), String>)
    ensures
        is_stdout_sentinel(s@) ==> r is Ok,
        r is Ok ==> output_path_structure_ok(s@),
        !output_path_structure_ok(s@) ==> r is Err,
        !is_stdout_sentinel(s@) && !is_absolute_path(s@) ==> (r matches Err(m) && m@
            == "output.file-path only accepts absolute paths"@),
        (r matches Err(m) && m@ == "output.file-path only accepts absolute paths"@) ==> (
        !is_stdout_sentinel(s@) && !is_absolute_path(s@)),
        (r matches Err(m) && m@ == "output.file-path must not point at a directory"@) ==> (
        !is_stdout_sentinel(s@) && is_absolute_path(s@)),
        (r matches Err(m) && m@ == "output.file-path must have .prom extension"@) ==> (
        !is_stdout_sentinel(s@) && is_absolute_path(s@) && !has_prom_extension(s@)),
        (r matches Err(m) && m@ == "output.file-path directory must exist"@) ==> (
        !is_stdout_sentinel(s@) && is_absolute_path(s@) && has_prom_extension(s@)),
{
    proof {
        lemma_output_messages_distinct();
    }
    let len = s.unicode_len();
    if len == 1 && s.get_char(0) == '-' {
        proof {
            assert(s@ =~= seq!['-']);
        }
        return Ok(());
    }
    proof {
        assert(s@ != seq!['-']);
    }
    if len == 0 || s.get_char(0) != '/' {
        return Err("output.file-path only accepts absolute paths".to_owned());
    }
    let points_at_directory = path_points_at_directory(s);
    let parent = parent_path(s);
    let parent_is_directory = path_points_at_directory(parent.as_str());
    check_output_path(s, points_at_directory, parent_is_directory)
}

/// The precedence rule for one setting: an explicit command-line value wins
/// over an environment value, which wins over the built-in default.
pub fn resolve_setting(cli_value: Option<String>, env_value: Option<String>, default_value: String) -> (r: String)
    ensures
        cli_value matches Some(v) ==> r == v,
        cli_value is None ==> (env_value matches Some(v) ==> r == v),
        cli_value is None && env_value is None ==> r == default_value,
{
    match cli_value {
        Some(v) => v,
        None => match env_value {
            Some(v) => v,
            None => default_value,
        },
    }
}

/// The immutable record of validated configuration, constructed once at
/// startup from raw strings and owned by the server for the process
/// lifetime.
#[derive(Debug)]
pub struct ValidatedConfig {
    pub bind_address: String,
    pub telemetry_path: String,
    pub output_file_path: Option<String>,
}

impl ValidatedConfig {
    /// The record's invariant: every field passed its validator's rules
    /// (for the output path, the structural part the filesystem cannot
    /// change).
    pub open spec fn valid(&self) -> bool {
        &&& valid_socket_addr(self.bind_address@)
        &&& valid_telemetry_path(self.telemetry_path@)
        &&& (self.output_file_path matches Some(p) ==> output_path_structure_ok(p@))
    }

    /// Builds the record from raw strings, running every validator in order.
    /// Succeeds on every input that no filesystem answer can refuse; an error
    /// comes only from a rejecting validator and carries the first failing
    /// validator's message.
    pub fn from_raw(
        bind_address: String,
        telemetry_path: String,
        output_file_path: Option<String>,
    ) -> (r: Result<ValidatedConfig, String>)
        ensures
            r matches Ok(c) ==> (c.bind_address == bind_address && c.telemetry_path
                == telemetry_path && c.output_file_path == output_file_path && c.valid()),
            valid_socket_addr(bind_address@) && valid_telemetry_path(telemetry_path@) && (
            output_file_path is None || (output_file_path matches Some(p) && is_stdout_sentinel(
                p@,
            ))) ==> r is Ok,
            r is Err ==> (!valid_socket_addr(bind_address@) || !valid_telemetry_path(
                telemetry_path@,
            ) || (output_file_path matches Some(p) && !is_stdout_sentinel(p@))),
            !valid_socket_addr(bind_address@) ==> r is Err,
            !valid_telemetry_path(telemetry_path@) ==> r is Err,
            (output_file_path matches Some(p) && !output_path_structure_ok(p@)) ==> r is Err,
            !valid_socket_addr(bind_address@) ==> (r matches Err(m) && m@ == "'"@ + bind_address@
                + "' is not a valid ADDR:PORT string"@),
            valid_socket_addr(bind_address@) && telemetry_path@.len() == 0 ==> (r matches Err(m)
                && m@ == "path must not be empty"@),
            valid_socket_addr(bind_address@) && telemetry_path@.len() > 0 && telemetry_path@[0]
                != '/' ==> (r matches Err(m) && m@ == "path must start with /"@),
            valid_socket_addr(bind_address@) && telemetry_path@ == seq!['/'] ==> (r matches Err(m)
                && m@ == "path must not be /"@),
            valid_socket_addr(bind_address@) && valid_telemetry_path(telemetry_path@) && (
            output_file_path matches Some(p) && !is_stdout_sentinel(p@) && !is_absolute_path(p@))
                ==> (r matches Err(m) && m@ == "output.file-path only accepts absolute paths"@),
    {
        if let Err(m) = is_valid_socket_addr(bind_address.as_str()) {
            return Err(m);
        }
        if let Err(m) = is_valid_telemetry_path(telemetry_path.as_str()) {
            return Err(m);
        }
        match &output_file_path {
            Some(p) => {
                if let Err(m) = is_valid_filesystem_path(p.as_str()) {
                    return Err(m);
                }
            },
            None => {},
        }
        Ok(ValidatedConfig { bind_address, telemetry_path, output_file_path })
    }
}

} // verus!

