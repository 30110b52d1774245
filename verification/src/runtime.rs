//! Runtime configuration decisions of the executable.
//!
//! The authorized public key comes from the first of:
//! 1. the file named by `COMMUT_AUTHORIZED_PUBLIC_KEY_PEM_FILE`, when that
//!    variable is set and not blank
//! 2. the PEM in `COMMUT_AUTHORIZED_PUBLIC_KEY_PEM`, when set and not blank
//! 3. the default location `~/.config/commut/authorized.pub.pem` under `$HOME`
//!
//! The executable accepts no command-line arguments.

use vstd::prelude::*;

use crate::pty::{join_path, path_join};

verus! {

/// The default authorized public key location, relative to `$HOME`.
pub const DEFAULT_AUTHORIZED_PUBLIC_KEY_RELATIVE_PATH: &'static str = ".config/commut/authorized.pub.pem";

/// What `char::is_whitespace` accepts: the Unicode `White_Space` characters.
pub open spec fn is_unicode_whitespace(c: char) -> bool {
    let u = c as u32;
    ||| 0x9 <= u <= 0xd
    ||| u == 0x20
    ||| u == 0x85
    ||| u == 0xa0
    ||| u == 0x1680
    ||| 0x2000 <= u <= 0x200a
    ||| u == 0x2028
    ||| u == 0x2029
    ||| u == 0x202f
    ||| u == 0x205f
    ||| u == 0x3000
}

/// `text.trim().is_empty()`: the text is whitespace only.
pub open spec fn is_blank(text: Seq<char>) -> bool {
    forall|i: int| 0 <= i < text.len() ==> is_unicode_whitespace(#[trigger] text[i])
}

/// Whether `text` is whitespace only.
pub fn is_blank_text(text: &str) -> (r: bool)
    ensures
        r == is_blank(text@),
{
    let n = text.unicode_len();
    let mut i: usize = 0;
    while i < n
        invariant
            n == text@.len(),
            i <= n,
            forall|j: int| 0 <= j < i ==> is_unicode_whitespace(#[trigger] text@[j]),
        decreases n - i,
    {
        let c = text.get_char(i);
        let u = c as u32;
        let white = (0x9 <= u && u <= 0xd) || u == 0x20 || u == 0x85 || u == 0xa0 || u == 0x1680
            || (0x2000 <= u && u <= 0x200a) || u == 0x2028 || u == 0x2029 || u == 0x202f || u == 0x205f
            || u == 0x3000;
        if !white {
            assert(!is_unicode_whitespace(text@[i as int]));
            return false;
        }
        i = i + 1;
    }
    true
}

/// A runtime configuration failure.
#[derive(Debug, Clone, PartialEq, Eq)]
pub enum RuntimeError {
    /// `$HOME` is unset or empty, so the default key path is unknown.
    HomeMissing,
    /// A command-line argument was given.
    UnknownArgument(String),
    /// The file named by `COMMUT_AUTHORIZED_PUBLIC_KEY_PEM_FILE` could not be read.
    ReadOverride { path: String, cause: String },
    /// The default key file could not be read.
    ReadDefault { path: String, cause: String },
}

impl RuntimeError {
    /// The message reported for the failure (without its cause).
    pub fn message(&self) -> (m: String)
        ensures
            match self {
                RuntimeError::HomeMissing => m@ == "$HOME must be set to resolve the default authorized key path"@,
                RuntimeError::UnknownArgument(arg) => m@ == "unknown argument: "@ + arg@,
                RuntimeError::ReadOverride { path, .. } => m@ == "failed to read COMMUT_AUTHORIZED_PUBLIC_KEY_PEM_FILE: "@ + path@,
                RuntimeError::ReadDefault { path, .. } => m@ == "failed to read default authorized public key at "@ + path@,
            },
    {
        match self {
            RuntimeError::HomeMissing => String::from_str("$HOME must be set to resolve the default authorized key path"),
            RuntimeError::UnknownArgument(arg) => {
                let mut m = String::from_str("unknown argument: ");
                m.append(arg.as_str());
                m
            },
            RuntimeError::ReadOverride { path, .. } => {
                let mut m = String::from_str("failed to read COMMUT_AUTHORIZED_PUBLIC_KEY_PEM_FILE: ");
                m.append(path.as_str());
                m
            },
            RuntimeError::ReadDefault { path, .. } => {
                let mut m = String::from_str("failed to read default authorized public key at ");
                m.append(path.as_str());
                m
            },
        }
    }
}

/// Check the command-line arguments (the program name first): none may follow.
pub fn parse_cli_args_from(args: &Vec<String>) -> (r: Result<(), RuntimeError>)
    ensures
        r is Ok <==> args@.len() <= 1,
        r matches Err(e) ==> e matches RuntimeError::UnknownArgument(arg) && arg@ == args@[1]@,
{
    if args.len() > 1 {
        Err(RuntimeError::UnknownArgument(args[1].clone()))
    } else {
        Ok(())
    }
}

/// The default authorized public key location under `home`.
pub fn default_authorized_public_key_path_with(home: Option<&str>) -> (r: Result<String, RuntimeError>)
    ensures
        match home {
            Some(h) => if h@.len() > 0 {
                r matches Ok(path) && path@ == path_join(h@, DEFAULT_AUTHORIZED_PUBLIC_KEY_RELATIVE_PATH@)
            } else {
                r == Err::<String, RuntimeError>(RuntimeError::HomeMissing)
            },
            None => r == Err::<String, RuntimeError>(RuntimeError::HomeMissing),
        },
{
    match home {
        Some(h) => {
            if h.is_empty() {
                Err(RuntimeError::HomeMissing)
            } else {
                Ok(join_path(h, DEFAULT_AUTHORIZED_PUBLIC_KEY_RELATIVE_PATH))
            }
        },
        None => Err(RuntimeError::HomeMissing),
    }
}

/// The text of an optional value.
pub open spec fn text_of(value: Option<&str>) -> Option<Seq<char>> {
    match value {
        Some(t) => Some(t@),
        None => None,
    }
}

/// The value is set and not blank.
pub open spec fn set_and_not_blank(value: Option<Seq<char>>) -> bool {
    value matches Some(t) && !is_blank(t)
}

/// Where the authorized public key comes from.
#[derive(Debug, Clone, PartialEq, Eq)]
pub enum KeySource {
    /// Read the PEM from the file named by `COMMUT_AUTHORIZED_PUBLIC_KEY_PEM_FILE`.
    OverrideFile(String),
    /// The PEM given inline by `COMMUT_AUTHORIZED_PUBLIC_KEY_PEM`.
    Inline(String),
    /// Read the PEM from the default location under `$HOME`.
    DefaultFile(String),
}

/// Choose the authorized key's source from the values of
/// `COMMUT_AUTHORIZED_PUBLIC_KEY_PEM_FILE`, `COMMUT_AUTHORIZED_PUBLIC_KEY_PEM`
/// and `HOME`: a blank variable counts as unset.
pub fn load_authorized_public_key_pem_with(file_override: Option<&str>, inline_pem: Option<&str>, home: Option<&str>) -> (r: Result<KeySource, RuntimeError>)
    ensures
        if set_and_not_blank(text_of(file_override)) {
            r matches Ok(KeySource::OverrideFile(path)) && path@ == text_of(file_override)->Some_0
        } else if set_and_not_blank(text_of(inline_pem)) {
            r matches Ok(KeySource::Inline(text)) && text@ == text_of(inline_pem)->Some_0
        } else if text_of(home) matches Some(h) && h.len() > 0 {
            r matches Ok(KeySource::DefaultFile(path)) && path@ == path_join(
                text_of(home)->Some_0,
                DEFAULT_AUTHORIZED_PUBLIC_KEY_RELATIVE_PATH@,
            )
        } else {
            r == Err::<KeySource, RuntimeError>(RuntimeError::HomeMissing)
        },
{
    if let Some(p) = file_override {
        if !is_blank_text(p) {
            return Ok(KeySource::OverrideFile(String::from_str(p)));
        }
    }
    if let Some(pem) = inline_pem {
        if !is_blank_text(pem) {
            return Ok(KeySource::Inline(String::from_str(pem)));
        }
    }
    let default_path = default_authorized_public_key_path_with(home)?;
    Ok(KeySource::DefaultFile(default_path))
}

} // verus!
