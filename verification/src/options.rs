use vstd::prelude::*;
use vstd::string::*;

use crate::errors::Error;
use crate::text::{chars_of, last_index_of, find_last, push_char, slice_prefix, slice_suffix, string_of};

verus! {

/// Options of the context that a client is bound to. Paths are given as
/// text.
#[derive(Debug, Clone, PartialEq, Eq)]
pub struct AppConfigurationContextOptions {
    pub persistent_cache_directory: Option<String>,
    pub bootstrap_file: Option<String>,
    pub live_config_update_enabled: bool,
}

impl Default for AppConfigurationContextOptions {
    fn default() -> (r: Self)
        ensures
            r.persistent_cache_directory is None,
            r.bootstrap_file is None,
            r.live_config_update_enabled,
    {
        AppConfigurationContextOptions {
            persistent_cache_directory: None,
            bootstrap_file: None,
            live_config_update_enabled: true,
        }
    }
}

// ---------------------------------------------------------------------------
// Paths

/// The last part of a path that names something, scanning back over the
/// parts between `/` and skipping empty and `.` parts.
pub open spec fn last_named_part(p: Seq<char>) -> Option<Seq<char>>
    decreases p.len(),
{
    let start = match last_index_of(p, '/') {
        Some(i) => i + 1,
        None => 0,
    };
    let part = p.subrange(start, p.len() as int);
    if part.len() > 0 && part != seq!['.'] {
        Some(part)
    } else {
        match last_index_of(p, '/') {
            Some(i) => if 0 <= i < p.len() { last_named_part(p.subrange(0, i)) } else { None },
            None => None,
        }
    }
}

/// The final component of a path, unless the path ends in `..` or names
/// nothing (`Path::file_name`).
pub open spec fn file_name(p: Seq<char>) -> Option<Seq<char>> {
    match last_named_part(p) {
        Some(n) => if n == seq!['.', '.'] { None } else { Some(n) },
        None => None,
    }
}

/// What follows the last `.` of a file name, unless that `.` starts the
/// name or there is none.
pub open spec fn name_extension(name: Seq<char>) -> Option<Seq<char>> {
    match last_index_of(name, '.') {
        None => None,
        Some(i) => if i == 0 { None } else { Some(name.subrange(i + 1, name.len() as int)) },
    }
}

/// The extension of a path: that of its file name (`Path::extension`).
pub open spec fn extension(p: Seq<char>) -> Option<Seq<char>> {
    match file_name(p) {
        None => None,
        Some(name) => name_extension(name),
    }
}

/// A directory path joined with a file name (`Path::join` with a relative name).
pub open spec fn join_path(dir: Seq<char>, name: Seq<char>) -> Seq<char> {
    if dir.len() == 0 {
        name
    } else if dir.last() == '/' {
        dir + name
    } else {
        dir + seq!['/'] + name
    }
}

/// Whether a part of a path names something.
fn is_named(part: &[char]) -> (r: bool)
    ensures
        r == (part@.len() > 0 && part@ != seq!['.']),
{
    if part.len() == 0 {
        false
    } else if part.len() == 1 && part[0] == '.' {
        assert(part@ =~= seq!['.']);
        false
    } else {
        assert(part@ != seq!['.']) by {
            if part@ == seq!['.'] {
                assert(part@.len() == 1 && part@[0] == '.');
            }
        }
        true
    }
}

/// Whether a part of a path is `..`.
fn is_parent(part: &[char]) -> (r: bool)
    ensures
        r == (part@ == seq!['.', '.']),
{
    if part.len() == 2 && part[0] == '.' && part[1] == '.' {
        assert(part@ =~= seq!['.', '.']);
        true
    } else {
        assert(part@ != seq!['.', '.']) by {
            if part@ == seq!['.', '.'] {
                assert(part@.len() == 2 && part@[0] == '.' && part@[1] == '.');
            }
        }
        false
    }
}

proof fn lemma_last_named_step(p: Seq<char>, start: int, sep: Option<int>)
    requires
        last_index_of(p, '/') == sep,
        start == (match sep {
            Some(i) => i + 1,
            None => 0,
        }),
        sep matches Some(i) ==> 0 <= i < p.len(),
    ensures
        last_named_part(p) == (if p.subrange(start, p.len() as int).len() > 0 && p.subrange(start, p.len() as int) != seq!['.'] {
            Some(p.subrange(start, p.len() as int))
        } else {
            match sep {
                Some(i) => last_named_part(p.subrange(0, i)),
                None => None,
            }
        }),
{
}

/// The final named component of a path, as `Path::file_name` finds it.
pub fn path_file_name(path: &str) -> (r: Option<Vec<char>>)
    ensures
        match file_name(path@) {
            Some(n) => r matches Some(v) && v@ == n,
            None => r is None,
        },
{
    let mut cs = chars_of(path);
    loop
        invariant
            last_named_part(path@) == last_named_part(cs@),
        decreases cs@.len(),
    {
        let (start, sep) = match find_last(cs.as_slice(), '/') {
            Some(i) => (i + 1, Some(i)),
            None => (0, None),
        };
        let part = slice_suffix(cs.as_slice(), start);
        proof {
            let ghost gsep: Option<int> = match sep {
                Some(i) => Some(i as int),
                None => None,
            };
            lemma_last_named_step(cs@, start as int, gsep);
        }
        if is_named(part.as_slice()) {
            if is_parent(part.as_slice()) {
                return None;
            }
            return Some(part);
        }
        match sep {
            Some(i) => {
                cs = slice_prefix(cs.as_slice(), i);
            },
            None => {
                return None;
            },
        }
    }
}

fn name_extension_of(name: &Vec<char>) -> (r: Option<Vec<char>>)
    ensures
        match name_extension(name@) {
            Some(e) => r matches Some(v) && v@ == e,
            None => r is None,
        },
{
    let n = name.len();
    match find_last(name.as_slice(), '.') {
        None => None,
        Some(i) => if i == 0 {
            None
        } else {
            Some(slice_suffix(name.as_slice(), i + 1))
        },
    }
}

/// The extension of a path, as `Path::extension` finds it.
pub fn path_extension(path: &str) -> (r: Option<Vec<char>>)
    ensures
        match extension(path@) {
            Some(e) => r matches Some(v) && v@ == e,
            None => r is None,
        },
{
    match path_file_name(path) {
        Some(n) => name_extension_of(&n),
        None => None,
    }
}

/// Joins a directory path and a file name.
pub fn join_file_name(dir: &str, name: &str) -> (r: String)
    ensures
        r@ == join_path(dir@, name@),
{
    let n = dir.unicode_len();
    let mut r = String::from_str(dir);
    if n > 0 && dir.get_char(n - 1) != '/' {
        push_char(&mut r, '/');
    }
    r.append(name);
    r
}

// ---------------------------------------------------------------------------
// Validation

/// Whether a character is white space in Unicode (`char::is_whitespace`).
pub open spec fn is_white_space(c: char) -> bool {
    let n = c as u32;
    (0x9 <= n <= 0xD) || n == 0x20 || n == 0x85 || n == 0xA0 || n == 0x1680 || (0x2000 <= n <= 0x200A)
        || n == 0x2028 || n == 0x2029 || n == 0x202F || n == 0x205F || n == 0x3000
}

/// Whether a text is empty once white space is trimmed from both ends.
pub open spec fn blank(s: Seq<char>) -> bool {
    forall|i: int| 0 <= i < s.len() ==> is_white_space(#[trigger] s[i])
}

fn white_space(c: char) -> (r: bool)
    ensures
        r == is_white_space(c),
{
    let n = c as u32;
    (0x9 <= n && n <= 0xD) || n == 0x20 || n == 0x85 || n == 0xA0 || n == 0x1680 || (0x2000 <= n && n <= 0x200A)
        || n == 0x2028 || n == 0x2029 || n == 0x202F || n == 0x205F || n == 0x3000
}

fn is_blank(s: &str) -> (r: bool)
    ensures
        r == blank(s@),
{
    let n = s.unicode_len();
    let mut i: usize = 0;
    while i < n
        invariant
            n == s@.len(),
            i <= n,
            forall|k: int| 0 <= k < i ==> is_white_space(#[trigger] s@[k]),
        decreases n - i,
    {
        if !white_space(s.get_char(i)) {
            return false;
        }
        i = i + 1;
    }
    true
}

/// The error of a missing required value.
pub open spec fn is_required_error(name: Seq<char>, e: Error) -> bool {
    e matches Error::Other(m) && m@ == name + " is required"@
}

/// Fails when a required value is blank.
pub fn validate_required(name: &str, value: &str) -> (r: Result<(), Error>)
    ensures
        blank(value@) ==> (r matches Err(e) && is_required_error(name@, e)),
        !blank(value@) ==> r is Ok,
{
    if is_blank(value) {
        let mut m = String::from_str(name);
        m.append(" is required");
        return Err(Error::Other(m));
    }
    Ok(())
}

/// Fails with the given message when a path is empty.
pub fn validate_non_empty_path(path: &str, error_message: &str) -> (r: Result<(), Error>)
    ensures
        path@.len() == 0 ==> (r matches Err(Error::Other(m)) && m@ == error_message@),
        path@.len() != 0 ==> r is Ok,
{
    if path.unicode_len() == 0 {
        return Err(Error::Other(String::from_str(error_message)));
    }
    Ok(())
}

/// Whether options are consistent, and if not, the message of the first
/// problem found.
pub open spec fn options_problem(o: AppConfigurationContextOptions) -> Option<Seq<char>> {
    if o.persistent_cache_directory matches Some(d) && d@.len() == 0 {
        Some("persistent_cache_directory cannot be empty when provided"@)
    } else if o.bootstrap_file matches Some(b) && b@.len() == 0 {
        Some("bootstrap_file cannot be empty when provided"@)
    } else if o.bootstrap_file matches Some(b) && extension(b@) != Some("json"@) {
        Some("bootstrap_file must point to a .json file, got '"@ + o.bootstrap_file->Some_0@ + "'"@)
    } else if !o.live_config_update_enabled && o.bootstrap_file is None {
        Some("live_config_update_enabled=false requires bootstrap_file"@)
    } else {
        None
    }
}

fn is_json(ext: &Option<Vec<char>>) -> (r: bool)
    ensures
        r == (ext matches Some(v) && v@ == "json"@),
{
    proof {
        reveal_strlit("json");
    }
    match ext {
        Some(v) => {
            let ok = v.len() == 4 && v[0] == 'j' && v[1] == 's' && v[2] == 'o' && v[3] == 'n';
            if ok {
                assert(v@ =~= "json"@);
            } else {
                assert(v@ != "json"@) by {
                    if v@ == "json"@ {
                        assert(v@.len() == 4 && v@[0] == 'j' && v@[1] == 's' && v@[2] == 'o' && v@[3] == 'n');
                    }
                }
            }
            ok
        },
        None => false,
    }
}

impl AppConfigurationContextOptions {
    /// Checks that the options are consistent.
    pub fn validate(&self) -> (r: Result<(), Error>)
        ensures
            match options_problem(*self) {
                None => r is Ok,
                Some(m) => r matches Err(Error::Other(s)) && s@ == m,
            },
    {
        if let Some(path) = &self.persistent_cache_directory {
            validate_non_empty_path(path.as_str(), "persistent_cache_directory cannot be empty when provided")?;
        }
        if let Some(path) = &self.bootstrap_file {
            validate_non_empty_path(path.as_str(), "bootstrap_file cannot be empty when provided")?;
            let ext = path_extension(path.as_str());
            if !is_json(&ext) {
                let mut m = String::from_str("bootstrap_file must point to a .json file, got '");
                m.append(path.as_str());
                m.append("'");
                return Err(Error::Other(m));
            }
        }
        if !self.live_config_update_enabled && self.bootstrap_file.is_none() {
            return Err(Error::Other(String::from_str("live_config_update_enabled=false requires bootstrap_file")));
        }
        Ok(())
    }

    /// Builds the options and checks that they are consistent.
    pub fn try_new(
        persistent_cache_directory: Option<String>,
        bootstrap_file: Option<String>,
        live_config_update_enabled: bool,
    ) -> (r: Result<Self, Error>)
        ensures
            ({
                let o = AppConfigurationContextOptions { persistent_cache_directory, bootstrap_file, live_config_update_enabled };
                match options_problem(o) {
                    None => r == Ok::<Self, Error>(o),
                    Some(m) => r matches Err(Error::Other(s)) && s@ == m,
                }
            }),
    {
        let opts = AppConfigurationContextOptions { persistent_cache_directory, bootstrap_file, live_config_update_enabled };
        opts.validate()?;
        Ok(opts)
    }
}

} // verus!
