//! Input validation: which names, hashes, paths and strings git-x accepts.
use vstd::prelude::*;
use crate::base::text::{chars_of, contains, contains_char, decimal, decimal_of, ends_with, has_char, has_prefix, has_suffix, signed_decimal, signed_decimal_of, starts_with, str_contains, str_eq};
use crate::{GitXError, Result, is_git_error, is_parse_error};

verus! {

/// The length of `s` in UTF-8 bytes (`str::len`).
pub open spec fn byte_len(s: Seq<char>) -> nat {
    (vstd::utf8::encode_utf8(s).len() as usize) as nat
}

/// Some character of `s` is one of `set`.
pub open spec fn has_any_of(s: Seq<char>, set: Seq<char>) -> bool {
    exists|i: int| 0 <= i < s.len() && set.contains(#[trigger] s[i])
}

/// Some string of `pats` occurs in `s`.
pub open spec fn contains_any(s: Seq<char>, pats: Seq<Seq<char>>) -> bool {
    exists|i: int| 0 <= i < pats.len() && contains(s, #[trigger] pats[i])
}

/// `c` is an ASCII hexadecimal digit.
pub open spec fn is_hex_digit(c: char) -> bool {
    ('0' <= c && c <= '9') || ('a' <= c && c <= 'f') || ('A' <= c && c <= 'F')
}

/// The characters a branch name may not hold.
pub open spec fn branch_invalid_chars() -> Seq<char> {
    seq![' ', '~', '^', ':', '?', '*', '[', '\\']
}

/// The characters a remote name may not hold.
pub open spec fn remote_invalid_chars() -> Seq<char> {
    seq![' ', '\t', '\n', '\r', '/', '\\', ':', '?', '*', '[', ']', '^', '~']
}

/// The characters that make a string unsafe to hand to a shell.
pub open spec fn dangerous_chars() -> Seq<char> {
    seq![';', '&', '|', '`', '$', '(', ')', '{', '}', '\\', '\n', '\r', ' ']
}

/// "`prefix`'`name`'`suffix`".
pub open spec fn quoted(prefix: Seq<char>, name: Seq<char>, suffix: Seq<char>) -> Seq<char> {
    prefix + name + suffix
}

/// A commit hash git-x accepts: 4 to 40 bytes, all hexadecimal digits.
pub open spec fn commit_hash_ok(h: Seq<char>) -> bool {
    h.len() > 0 && 4 <= byte_len(h) <= 40 && forall|i: int| 0 <= i < h.len() ==> is_hex_digit(#[trigger] h[i])
}

/// The message of the error for a commit hash that is not accepted.
pub open spec fn commit_hash_error(h: Seq<char>) -> Seq<char> {
    if h.len() == 0 {
        "Commit hash cannot be empty"@
    } else if byte_len(h) < 4 || byte_len(h) > 40 {
        quoted("Invalid commit hash format: '"@, h, "' (must be 4-40 characters)"@)
    } else {
        quoted("Invalid commit hash format: '"@, h, "' (must contain only hexadecimal characters)"@)
    }
}

/// `r` is the answer for hash `h`: `Ok` when it is accepted, else the parse
/// error for it.
pub open spec fn commit_hash_checked<T>(r: Result<T>, h: Seq<char>) -> bool {
    !commit_hash_ok(h) && is_parse_error(r, commit_hash_error(h))
}

/// Whether some character of `s` is in `set`.
pub fn has_any_of_exec(s: &str, set: &Vec<char>) -> (b: bool)
    ensures
        b == has_any_of(s@, set@),
{
    let v = chars_of(s);
    let mut i: usize = 0;
    while i < v.len()
        invariant
            v@ == s@,
            0 <= i <= v.len(),
            forall|k: int| 0 <= k < i ==> !set@.contains(#[trigger] v@[k]),
        decreases v.len() - i,
    {
        let c = v[i];
        let mut j: usize = 0;
        while j < set.len()
            invariant
                0 <= j <= set.len(),
                v@ == s@,
                0 <= i < v.len(),
                c == v@[i as int],
                forall|m: int| 0 <= m < j ==> set@[m] != c,
            decreases set.len() - j,
        {
            if set[j] == c {
                assert(set@.contains(s@[i as int]));
                return true;
            }
            j = j + 1;
        }
        i = i + 1;
    }
    false
}

/// The characters of a literal set, as a vector.
fn char_vec(s: &str) -> (v: Vec<char>)
    ensures
        v@ == s@,
{
    chars_of(s)
}

/// `name` is accepted as a branch name.
pub open spec fn branch_name_ok(name: Seq<char>) -> bool {
    name.len() > 0 && !has_any_of(name, branch_invalid_chars()) && name != "HEAD"@ && !has_prefix(
        name,
        "-"@,
    )
}

/// The message of the error for a branch name that is not accepted.
pub open spec fn branch_name_error(name: Seq<char>) -> Seq<char> {
    if name.len() == 0 {
        "Branch name cannot be empty"@
    } else if has_any_of(name, branch_invalid_chars()) {
        quoted("Branch name '"@, name, "' contains invalid characters"@)
    } else {
        quoted("Branch name '"@, name, "' is reserved"@)
    }
}

/// Common validation utilities
pub struct Validate;

impl Validate {
    /// Validate that a commit exists, given git's answer to whether it does.
    pub fn commit_exists(commit: &str, found: Result<bool>) -> (r: Result<()>)
        ensures
            found matches Ok(true) ==> r is Ok,
            found matches Ok(false) ==> is_git_error(r, "Commit '"@ + commit@ + "' does not exist"@),
            found matches Err(e) ==> r == Err::<(), GitXError>(e),
    {
        match found {
            Ok(true) => Ok(()),
            Ok(false) => {
                let mut m = String::from_str("Commit '");
                m.append(commit);
                m.append("' does not exist");
                Err(GitXError::GitCommand(m))
            },
            Err(e) => Err(e),
        }
    }

    /// Validate that we're in a git repository, given git's answer for the
    /// repository root.
    pub fn in_git_repo(repo_root: Result<String>) -> (r: Result<()>)
        ensures
            repo_root is Ok ==> r is Ok,
            repo_root is Err ==> is_git_error(r, "Not in a git repository"@),
    {
        match repo_root {
            Ok(_) => Ok(()),
            Err(_) => Err(GitXError::GitCommand(String::from_str("Not in a git repository"))),
        }
    }

    /// Validate branch name format
    pub fn branch_name(name: &str) -> (r: Result<()>)
        ensures
            name@.len() == 0 ==> is_parse_error(r, "Branch name cannot be empty"@),
            name@.len() > 0 && has_any_of(name@, branch_invalid_chars()) ==> is_parse_error(
                r,
                quoted("Branch name '"@, name@, "' contains invalid characters"@),
            ),
            name@.len() > 0 && !has_any_of(name@, branch_invalid_chars()) && (name@ == "HEAD"@
                || has_prefix(name@, "-"@)) ==> is_parse_error(
                r,
                quoted("Branch name '"@, name@, "' is reserved"@),
            ),
            r is Ok <==> branch_name_ok(name@),
            r is Err ==> r matches Err(GitXError::Parse(_)),
    {
        if name.is_empty() {
            return Err(GitXError::Parse(String::from_str("Branch name cannot be empty")));
        }
        let invalid = char_vec(" ~^:?*[\\");
        proof {
            reveal_strlit(" ~^:?*[\\");
            assert(invalid@ =~= branch_invalid_chars());
        }
        if has_any_of_exec(name, &invalid) {
            let mut m = String::from_str("Branch name '");
            m.append(name);
            m.append("' contains invalid characters");
            return Err(GitXError::Parse(m));
        }
        if str_eq(name, "HEAD") || starts_with(name, "-") {
            let mut m = String::from_str("Branch name '");
            m.append(name);
            m.append("' is reserved");
            return Err(GitXError::Parse(m));
        }
        Ok(())
    }

    /// Validate commit hash format (4 to 40 hexadecimal characters)
    pub fn commit_hash(hash: &str) -> (r: Result<()>)
        ensures
            hash@.len() == 0 ==> is_parse_error(r, "Commit hash cannot be empty"@),
            hash@.len() > 0 && (byte_len(hash@) < 4 || byte_len(hash@) > 40) ==> is_parse_error(
                r,
                quoted("Invalid commit hash format: '"@, hash@, "' (must be 4-40 characters)"@),
            ),
            hash@.len() > 0 && 4 <= byte_len(hash@) <= 40 && !(forall|i: int|
                0 <= i < hash@.len() ==> is_hex_digit(#[trigger] hash@[i])) ==> is_parse_error(
                r,
                quoted(
                    "Invalid commit hash format: '"@,
                    hash@,
                    "' (must contain only hexadecimal characters)"@,
                ),
            ),
            r is Ok <==> (hash@.len() > 0 && 4 <= byte_len(hash@) <= 40 && forall|i: int|
                0 <= i < hash@.len() ==> is_hex_digit(#[trigger] hash@[i])),
    {
        if hash.is_empty() {
            return Err(GitXError::Parse(String::from_str("Commit hash cannot be empty")));
        }
        let n = hash.len();
        if n < 4 || n > 40 {
            let mut m = String::from_str("Invalid commit hash format: '");
            m.append(hash);
            m.append("' (must be 4-40 characters)");
            return Err(GitXError::Parse(m));
        }
        let v = chars_of(hash);
        let mut i: usize = 0;
        while i < v.len()
            invariant
                v@ == hash@,
                hash@.len() > 0,
                4 <= byte_len(hash@) <= 40,
                0 <= i <= v.len(),
                forall|k: int| 0 <= k < i ==> is_hex_digit(#[trigger] v@[k]),
            decreases v.len() - i,
        {
            let c = v[i];
            if !(('0' <= c && c <= '9') || ('a' <= c && c <= 'f') || ('A' <= c && c <= 'F')) {
                assert(!is_hex_digit(hash@[i as int]));
                let mut m = String::from_str("Invalid commit hash format: '");
                m.append(hash);
                m.append("' (must contain only hexadecimal characters)");
                return Err(GitXError::Parse(m));
            }
            i = i + 1;
        }
        Ok(())
    }

    /// Validate remote name format
    pub fn remote_name(name: &str) -> (r: Result<()>)
        ensures
            name@.len() == 0 ==> is_parse_error(r, "Remote name cannot be empty"@),
            name@.len() > 0 && has_any_of(name@, remote_invalid_chars()) ==> is_parse_error(
                r,
                quoted("Remote name '"@, name@, "' contains invalid characters"@),
            ),
            name@.len() > 0 && !has_any_of(name@, remote_invalid_chars()) && (has_prefix(
                name@,
                "-"@,
            ) || has_suffix(name@, "-"@) || contains(name@, ".."@)) ==> is_parse_error(
                r,
                quoted("Remote name '"@, name@, "' uses invalid pattern"@),
            ),
            r is Ok <==> (name@.len() > 0 && !has_any_of(name@, remote_invalid_chars())
                && !has_prefix(name@, "-"@) && !has_suffix(name@, "-"@) && !contains(
                name@,
                ".."@,
            )),
    {
        if name.is_empty() {
            return Err(GitXError::Parse(String::from_str("Remote name cannot be empty")));
        }
        let invalid = char_vec(" \t\n\r/\\:?*[]^~");
        proof {
            reveal_strlit(" \t\n\r/\\:?*[]^~");
            assert(invalid@ =~= remote_invalid_chars());
        }
        if has_any_of_exec(name, &invalid) {
            let mut m = String::from_str("Remote name '");
            m.append(name);
            m.append("' contains invalid characters");
            return Err(GitXError::Parse(m));
        }
        if starts_with(name, "-") || ends_with(name, "-") || str_contains(name, "..") {
            let mut m = String::from_str("Remote name '");
            m.append(name);
            m.append("' uses invalid pattern");
            return Err(GitXError::Parse(m));
        }
        Ok(())
    }

    /// Validate file path for git operations
    pub fn file_path(path: &str) -> (r: Result<()>)
        ensures
            path@.len() == 0 ==> is_parse_error(r, "File path cannot be empty"@),
            path@.len() > 0 && (contains(path@, ".."@) || has_prefix(path@, "/"@))
                ==> is_parse_error(
                r,
                quoted("File path '"@, path@, "' is not allowed (no .. or absolute paths)"@),
            ),
            path@.len() > 0 && !contains(path@, ".."@) && !has_prefix(path@, "/"@) && (has_char(
                path@,
                '\0',
            ) || has_char(path@, '\r') || has_char(path@, '\n')) ==> is_parse_error(
                r,
                quoted("File path '"@, path@, "' contains invalid characters"@),
            ),
            r is Ok <==> (path@.len() > 0 && !contains(path@, ".."@) && !has_prefix(path@, "/"@)
                && !has_char(path@, '\0') && !has_char(path@, '\r') && !has_char(path@, '\n')),
    {
        if path.is_empty() {
            return Err(GitXError::Parse(String::from_str("File path cannot be empty")));
        }
        if str_contains(path, "..") || starts_with(path, "/") {
            let mut m = String::from_str("File path '");
            m.append(path);
            m.append("' is not allowed (no .. or absolute paths)");
            return Err(GitXError::Parse(m));
        }
        if contains_char(path, '\0') || contains_char(path, '\r') || contains_char(path, '\n') {
            let mut m = String::from_str("File path '");
            m.append(path);
            m.append("' contains invalid characters");
            return Err(GitXError::Parse(m));
        }
        Ok(())
    }

    /// Validate that a number is within a reasonable range
    pub fn positive_number(value: i32, max: Option<i32>, field_name: &str) -> (r: Result<()>)
        ensures
            value < 0 ==> is_parse_error(
                r,
                field_name@ + " must be positive, got -"@ + decimal((-value) as nat),
            ),
            value >= 0 && max is Some && value > max->0 ==> is_parse_error(
                r,
                field_name@ + " must be <= "@ + signed_decimal(max->0 as int) + ", got "@
                    + decimal(value as nat),
            ),
            r is Ok <==> (value >= 0 && !(max is Some && value > max->0)),
    {
        if value < 0 {
            let mut m = String::from_str(field_name);
            m.append(" must be positive, got -");
            let mag: u64 = (0i64 - value as i64) as u64;
            let d = decimal_of(mag);
            m.append(d.as_str());
            return Err(GitXError::Parse(m));
        }
        match max {
            Some(max_val) => {
                if value > max_val {
                    let mut m = String::from_str(field_name);
                    m.append(" must be <= ");
                    let mv = signed_decimal_of(max_val as i64);
                    m.append(mv.as_str());
                    m.append(", got ");
                    let d = decimal_of(value as u64);
                    m.append(d.as_str());
                    return Err(GitXError::Parse(m));
                }
            },
            None => {},
        }
        Ok(())
    }

    /// Validate date/time string format for git operations
    pub fn git_date_format(date_str: &str) -> (r: Result<()>)
        ensures
            date_str@.len() == 0 ==> is_parse_error(r, "Date string cannot be empty"@),
            date_str@.len() > 0 && (has_char(date_str@, ';') || has_char(date_str@, '&')
                || has_char(date_str@, '|')) ==> is_parse_error(
                r,
                quoted("Date string '"@, date_str@, "' contains invalid characters"@),
            ),
            date_str@.len() > 0 && !has_char(date_str@, ';') && !has_char(date_str@, '&')
                && !has_char(date_str@, '|') && byte_len(date_str@) > 100 ==> is_parse_error(
                r,
                "Date string too long: "@ + decimal(byte_len(date_str@)),
            ),
            r is Ok <==> (date_str@.len() > 0 && !has_char(date_str@, ';') && !has_char(
                date_str@,
                '&',
            ) && !has_char(date_str@, '|') && byte_len(date_str@) <= 100),
    {
        if date_str.is_empty() {
            return Err(GitXError::Parse(String::from_str("Date string cannot be empty")));
        }
        if contains_char(date_str, ';') || contains_char(date_str, '&') || contains_char(
            date_str,
            '|',
        ) {
            let mut m = String::from_str("Date string '");
            m.append(date_str);
            m.append("' contains invalid characters");
            return Err(GitXError::Parse(m));
        }
        let n = date_str.len();
        if n > 100 {
            let mut m = String::from_str("Date string too long: ");
            let d = decimal_of(n as u64);
            m.append(d.as_str());
            return Err(GitXError::Parse(m));
        }
        Ok(())
    }

    /// Validate string doesn't contain shell injection patterns
    pub fn safe_string(input: &str, field_name: &str) -> (r: Result<()>)
        ensures
            input@.len() == 0 ==> is_parse_error(r, field_name@ + " cannot be empty"@),
            input@.len() > 0 && has_any_of(input@, dangerous_chars()) ==> is_parse_error(
                r,
                field_name@ + " contains potentially dangerous characters"@,
            ),
            input@.len() > 0 && !has_any_of(input@, dangerous_chars()) && byte_len(input@) > 1000
                ==> is_parse_error(
                r,
                field_name@ + " is too long: "@ + decimal(byte_len(input@)) + " characters"@,
            ),
            r is Ok <==> (input@.len() > 0 && !has_any_of(input@, dangerous_chars()) && byte_len(
                input@,
            ) <= 1000),
    {
        if input.is_empty() {
            let mut m = String::from_str(field_name);
            m.append(" cannot be empty");
            return Err(GitXError::Parse(m));
        }
        let dangerous = char_vec(";&|`$(){}\\\n\r ");
        proof {
            reveal_strlit(";&|`$(){}\\\n\r ");
            assert(dangerous@ =~= dangerous_chars());
        }
        if has_any_of_exec(input, &dangerous) {
            let mut m = String::from_str(field_name);
            m.append(" contains potentially dangerous characters");
            return Err(GitXError::Parse(m));
        }
        let n = input.len();
        if n > 1000 {
            let mut m = String::from_str(field_name);
            m.append(" is too long: ");
            let d = decimal_of(n as u64);
            m.append(d.as_str());
            m.append(" characters");
            return Err(GitXError::Parse(m));
        }
        Ok(())
    }
}

/// The views of a list of literal strings.
pub open spec fn str_views(v: Seq<&'static str>) -> Seq<Seq<char>> {
    v.map_values(|s: &'static str| s@)
}

/// Specific validators for different types of input
pub struct BranchNameValidator;

impl crate::base::traits::Validator for BranchNameValidator {
    fn validate(&self, input: &str) -> (r: Result<()>)
        ensures
            r is Ok <==> (input@.len() > 0 && !has_any_of(input@, branch_invalid_chars()) && input@
                != "HEAD"@ && !has_prefix(input@, "-"@)),
    {
        Validate::branch_name(input)
    }

    fn validation_rules(&self) -> (r: Vec<&'static str>)
        ensures
            str_views(r@) == seq![
                "Cannot be empty"@,
                "Cannot start with a dash"@,
                "Cannot be 'HEAD'"@,
                "Cannot contain spaces"@,
                "Cannot contain ~^:?*[\\"@,
            ],
    {
        let r = vec![
            "Cannot be empty",
            "Cannot start with a dash",
            "Cannot be 'HEAD'",
            "Cannot contain spaces",
            "Cannot contain ~^:?*[\\",
        ];
        assert(str_views(r@) =~= seq![
            "Cannot be empty"@,
            "Cannot start with a dash"@,
            "Cannot be 'HEAD'"@,
            "Cannot contain spaces"@,
            "Cannot contain ~^:?*[\\"@,
        ]);
        r
    }
}

pub struct CommitHashValidator;

impl crate::base::traits::Validator for CommitHashValidator {
    fn validate(&self, input: &str) -> (r: Result<()>)
        ensures
            r is Ok <==> (input@.len() > 0 && 4 <= byte_len(input@) <= 40 && forall|i: int|
                0 <= i < input@.len() ==> is_hex_digit(#[trigger] input@[i])),
    {
        Validate::commit_hash(input)
    }

    fn validation_rules(&self) -> (r: Vec<&'static str>)
        ensures
            str_views(r@) == seq![
                "Must be 4-40 characters long"@,
                "Must contain only hex characters (0-9, a-f)"@,
                "Must reference an existing commit"@,
            ],
    {
        let r = vec![
            "Must be 4-40 characters long",
            "Must contain only hex characters (0-9, a-f)",
            "Must reference an existing commit",
        ];
        assert(str_views(r@) =~= seq![
            "Must be 4-40 characters long"@,
            "Must contain only hex characters (0-9, a-f)"@,
            "Must reference an existing commit"@,
        ]);
        r
    }
}

pub struct RemoteNameValidator;

impl crate::base::traits::Validator for RemoteNameValidator {
    fn validate(&self, input: &str) -> (r: Result<()>)
        ensures
            r is Ok <==> (input@.len() > 0 && !has_any_of(input@, remote_invalid_chars())
                && !has_prefix(input@, "-"@) && !has_suffix(input@, "-"@) && !contains(
                input@,
                ".."@,
            )),
    {
        Validate::remote_name(input)
    }

    fn validation_rules(&self) -> (r: Vec<&'static str>)
        ensures
            str_views(r@) == seq![
                "Cannot be empty"@,
                "Cannot contain special characters"@,
                "Cannot start or end with dash"@,
                "Cannot contain '..'"@,
            ],
    {
        let r = vec![
            "Cannot be empty",
            "Cannot contain special characters",
            "Cannot start or end with dash",
            "Cannot contain '..'",
        ];
        assert(str_views(r@) =~= seq![
            "Cannot be empty"@,
            "Cannot contain special characters"@,
            "Cannot start or end with dash"@,
            "Cannot contain '..'"@,
        ]);
        r
    }
}

} // verus!
