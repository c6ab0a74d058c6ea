//! Heuristics that attach a short, friendly warning to a risky command line.
//!
//! The advice is a hint for the person about to approve a command; it never
//! blocks anything. Only the pipe-to-shell pattern ignores letter case; every
//! other pattern is an exact, case-sensitive piece of text.
//!
//! A command line is judged by its first token and by its tokens joined with
//! spaces. The script of `bash -lc <script>` is judged once more by the same
//! patterns. A script has no first token, so a rule that asks for a command
//! (`rm`, `chmod`, `dd`) holds of a script in which that name stands as a word
//! of its own: at the start or after white space or one of `;`, `&`, `|`, `(`,
//! `)`, and before the end or one of these. Key material that a script names
//! is already found in the joined form.

use crate::text::{
    chars_of, contains, contains_text, join, join_with_space, occurs_at, occurs_at_index,
    optional_text, same_text, texts,
};
use vstd::prelude::*;
use vstd::string::*;

verus! {

/// The regular expression for a download by curl or wget whose output is
/// piped into `sh` or `bash`, in any letter case.
pub const PIPE_TO_SHELL_PATTERN: &'static str = r"(?i)(curl|wget)[^\n|]*\|\s*(sh|bash)";

/// The command line pipes a download into a shell.
pub const ADVICE_PIPE_TO_SHELL: &'static str =
    "detected a curl/wget pipeline into a shell; this is dangerous because it executes remote code blindly";

/// `rm` is asked to remove recursively and without asking.
pub const ADVICE_RM_RF: &'static str =
    "detected a potentially destructive rm -rf; double-check paths before continuing";

/// `chmod` is asked for permissions that let everyone write.
pub const ADVICE_CHMOD_777: &'static str = "detected chmod 777; avoid world-writable permissions";

/// `dd` writes to a device or a file.
pub const ADVICE_DD: &'static str = "detected dd to a device/file; verify target to avoid data loss";

/// The command line names key material, a wallet or a credential.
pub const ADVICE_SENSITIVE_PATHS: &'static str =
    "access to sensitive keys/wallet paths detected; ensure you trust the command";

/// The script of `bash -lc` pipes a download into a shell.
pub const ADVICE_SCRIPT_PIPE_TO_SHELL: &'static str =
    "detected a curl/wget pipeline into a shell inside bash -lc";

/// The script of `bash -lc` removes recursively and without asking.
pub const ADVICE_SCRIPT_RM_RF: &'static str =
    "detected potentially destructive rm -rf inside bash -lc";

/// The script of `bash -lc` asks for permissions that let everyone write.
pub const ADVICE_SCRIPT_CHMOD_777: &'static str =
    "detected chmod 777 inside bash -lc; avoid world-writable permissions";

/// The script of `bash -lc` lets `dd` write to a device or a file.
pub const ADVICE_SCRIPT_DD: &'static str =
    "detected dd to a device/file inside bash -lc; verify target to avoid data loss";

/// What regex-lite answers when asked whether `pattern` finds a match anywhere
/// in `haystack`: `None` where it rejects the pattern.
pub uninterp spec fn regex_search(pattern: Seq<char>, haystack: Seq<char>) -> Option<bool>;

/// Compiles `pattern` with `regex_lite::Regex::new` and asks the compiled
/// expression, with `Regex::is_match`, whether it matches anywhere in
/// `haystack`. Both are believed to depend on the two texts alone; nothing is
/// claimed about which texts match.
#[verifier::external_body]
fn regex_is_match(pattern: &str, haystack: &str) -> (found: Option<bool>)
    ensures
        found == regex_search(pattern@, haystack@),
{
    match regex_lite::Regex::new(pattern) {
        Ok(re) => Some(re.is_match(haystack)),
        Err(_) => None,
    }
}

/// `s` holds a curl or wget download piped into a shell.
pub open spec fn pipes_download_into_shell(s: Seq<char>) -> bool {
    regex_search(PIPE_TO_SHELL_PATTERN@, s) == Some(true)
}

/// Path fragments of key material, wallets and credentials.
pub open spec fn sensitive_markers() -> Seq<Seq<char>> {
    seq![
        ".ssh"@,
        ".gnupg"@,
        "wallet.dat"@,
        "keystore"@,
        "metamask"@,
        "ledger"@,
        "solana"@,
        "ethereum"@,
        "secp256k1"@,
        "id_rsa"@,
        "id_ed25519"@,
        "api_key"@,
        "private_key"@,
        "mnemonic"@,
    ]
}

/// `s` mentions one of the sensitive markers.
pub open spec fn touches_sensitive_paths(s: Seq<char>) -> bool {
    exists|i: int|
        0 <= i < sensitive_markers().len() && contains(s, #[trigger] sensitive_markers()[i])
}

/// `c` ends a word of a script: white space, or one of `;`, `&`, `|`, `(`, `)`.
pub open spec fn is_word_break(c: char) -> bool {
    c == ' ' || c == '\t' || c == '\n' || c == '\r' || c == ';' || c == '&' || c == '|' || c == '('
        || c == ')'
}

/// `word` stands in `script` at index `at` as a word of its own.
pub open spec fn word_at(script: Seq<char>, word: Seq<char>, at: int) -> bool {
    &&& occurs_at(script, word, at)
    &&& at == 0 || is_word_break(script[at - 1])
    &&& at + word.len() == script.len() || is_word_break(script[at + word.len()])
}

/// `script` runs the command `name`: the name stands in it as a word of its
/// own.
pub open spec fn runs(script: Seq<char>, name: Seq<char>) -> bool {
    exists|at: int| word_at(script, name, at)
}

/// The advice for the script of `bash -lc`, given whether it pipes a download
/// into a shell. The patterns are those of a plain command line, in the same
/// order; the first that applies decides.
pub open spec fn script_advice(script: Seq<char>, script_pipes: bool) -> Option<Seq<char>> {
    if script_pipes {
        Some(ADVICE_SCRIPT_PIPE_TO_SHELL@)
    } else if contains(script, "rm -rf"@) || (runs(script, "rm"@) && contains(script, "-rf"@)) {
        Some(ADVICE_SCRIPT_RM_RF@)
    } else if runs(script, "chmod"@) && contains(script, "777"@) {
        Some(ADVICE_SCRIPT_CHMOD_777@)
    } else if runs(script, "dd"@) && (contains(script, "/dev/"@) || contains(script, "of="@)) {
        Some(ADVICE_SCRIPT_DD@)
    } else {
        None
    }
}

/// The script of a `bash -lc <script>` command line, if `command` is one.
pub open spec fn bash_lc_script(command: Seq<Seq<char>>) -> Option<Seq<char>> {
    if command.len() >= 3 && command[0] == "bash"@ && command[1] == "-lc"@ {
        Some(command[2])
    } else {
        None
    }
}

/// The advice for `command`, given whether its joined form and whether its
/// `bash -lc` script pipe a download into a shell. The first rule that applies
/// decides; a pipe that stands in the script of `bash -lc` is reported as
/// such.
pub open spec fn advice_given(
    command: Seq<Seq<char>>,
    joined_pipes: bool,
    script_pipes: bool,
) -> Option<Seq<char>> {
    let joined = join(command, seq![' ']);
    if command.len() == 0 {
        None
    } else if joined_pipes {
        if bash_lc_script(command) is Some && script_pipes {
            Some(ADVICE_SCRIPT_PIPE_TO_SHELL@)
        } else {
            Some(ADVICE_PIPE_TO_SHELL@)
        }
    } else if command[0] == "rm"@ && contains(joined, "-rf"@) {
        Some(ADVICE_RM_RF@)
    } else if command[0] == "chmod"@ && contains(joined, "777"@) {
        Some(ADVICE_CHMOD_777@)
    } else if command[0] == "dd"@ && (contains(joined, "/dev/"@) || contains(joined, "of="@)) {
        Some(ADVICE_DD@)
    } else if touches_sensitive_paths(joined) {
        Some(ADVICE_SENSITIVE_PATHS@)
    } else {
        match bash_lc_script(command) {
            Some(script) => script_advice(script, script_pipes),
            None => None,
        }
    }
}

/// The advice for `command`: `None` for an empty command and where no rule
/// applies.
pub open spec fn security_advice(command: Seq<Seq<char>>) -> Option<Seq<char>> {
    advice_given(
        command,
        pipes_download_into_shell(join(command, seq![' '])),
        match bash_lc_script(command) {
            Some(script) => pipes_download_into_shell(script),
            None => false,
        },
    )
}

/// Whether `s` pipes a curl or wget download into `sh` or `bash`, in any
/// letter case. A pattern that regex-lite rejects matches nothing.
pub fn contains_curl_or_wget_pipe_to_shell(s: &str) -> (found: bool)
    ensures
        found == pipes_download_into_shell(s@),
{
    match regex_is_match(PIPE_TO_SHELL_PATTERN, s) {
        Some(found) => found,
        None => false,
    }
}

fn mentions_sensitive_marker(hay: &[char]) -> (found: bool)
    ensures
        found == touches_sensitive_paths(hay@),
{
    let markers: Vec<&'static str> = vec![
        ".ssh",
        ".gnupg",
        "wallet.dat",
        "keystore",
        "metamask",
        "ledger",
        "solana",
        "ethereum",
        "secp256k1",
        "id_rsa",
        "id_ed25519",
        "api_key",
        "private_key",
        "mnemonic",
    ];
    let mut i: usize = 0;
    while i < markers.len()
        invariant
            i <= markers@.len(),
            markers@.len() == sensitive_markers().len(),
            forall|j: int| 0 <= j < markers@.len() ==> markers@[j]@ == sensitive_markers()[j],
            forall|j: int| 0 <= j < i ==> !contains(hay@, #[trigger] sensitive_markers()[j]),
        decreases markers@.len() - i,
    {
        if contains_text(hay, markers[i]) {
            return true;
        }
        i += 1;
    }
    false
}

/// Whether `s` mentions a path fragment of key material, a wallet or a
/// credential. The fragments are matched exactly, letter case included.
pub fn touches_sensitive_crypto_paths(s: &str) -> (touches: bool)
    ensures
        touches == touches_sensitive_paths(s@),
{
    let hay = chars_of(s);
    mentions_sensitive_marker(hay.as_slice())
}

fn ends_word(c: char) -> (ends: bool)
    ensures
        ends == is_word_break(c),
{
    c == ' ' || c == '\t' || c == '\n' || c == '\r' || c == ';' || c == '&' || c == '|' || c == '('
        || c == ')'
}

/// Whether `script` runs the command `name`.
pub fn runs_command(script: &[char], name: &str) -> (found: bool)
    ensures
        found == runs(script@, name@),
{
    let word = chars_of(name);
    if word.len() > script.len() {
        return false;
    }
    let last: usize = script.len() - word.len();
    let mut at: usize = 0;
    loop
        invariant
            last == script@.len() - word@.len(),
            word@ == name@,
            at <= last,
            forall|i: int| 0 <= i < at ==> !word_at(script@, name@, i),
        decreases last - at,
    {
        if occurs_at_index(script, word.as_slice(), at) && (at == 0 || ends_word(script[at - 1]))
            && (at == last || ends_word(script[at + word.len()])) {
            assert(word_at(script@, name@, at as int));
            return true;
        }
        if at == last {
            return false;
        }
        at += 1;
    }
}

/// The advice for the script of `bash -lc`, once it is known whether the
/// script pipes a download into a shell.
pub fn advice_for_script(script: &str, script_pipes: bool) -> (advice: Option<String>)
    ensures
        optional_text(advice) == script_advice(script@, script_pipes),
{
    if script_pipes {
        return Some(String::from_str(ADVICE_SCRIPT_PIPE_TO_SHELL));
    }
    let body = chars_of(script);
    let body = body.as_slice();
    if contains_text(body, "rm -rf") || (runs_command(body, "rm") && contains_text(body, "-rf")) {
        return Some(String::from_str(ADVICE_SCRIPT_RM_RF));
    }
    if runs_command(body, "chmod") && contains_text(body, "777") {
        return Some(String::from_str(ADVICE_SCRIPT_CHMOD_777));
    }
    if runs_command(body, "dd") && (contains_text(body, "/dev/") || contains_text(body, "of=")) {
        return Some(String::from_str(ADVICE_SCRIPT_DD));
    }
    None
}

/// The script of a `bash -lc <script>` command line.
fn script_of_bash_lc(command: &[String]) -> (script: Option<&String>)
    ensures
        match script {
            Some(s) => bash_lc_script(texts(command@)) == Some(s@),
            None => bash_lc_script(texts(command@)) is None,
        },
{
    if command.len() >= 3 && same_text(command[0].as_str(), "bash") && same_text(
        command[1].as_str(),
        "-lc",
    ) {
        Some(&command[2])
    } else {
        None
    }
}

/// The advice for `command`, once it is known whether its joined form
/// (`joined_pipes`) and its `bash -lc` script (`script_pipes`) pipe a download
/// into a shell.
pub fn advice_from_findings(command: &[String], joined_pipes: bool, script_pipes: bool) -> (advice:
    Option<String>)
    ensures
        optional_text(advice) == advice_given(texts(command@), joined_pipes, script_pipes),
{
    if command.len() == 0 {
        return None;
    }
    if joined_pipes {
        if script_pipes && script_of_bash_lc(command).is_some() {
            return Some(String::from_str(ADVICE_SCRIPT_PIPE_TO_SHELL));
        }
        return Some(String::from_str(ADVICE_PIPE_TO_SHELL));
    }
    let joined = join_with_space(command);
    let hay = chars_of(joined.as_str());
    let cmd0 = command[0].as_str();
    if same_text(cmd0, "rm") && contains_text(hay.as_slice(), "-rf") {
        return Some(String::from_str(ADVICE_RM_RF));
    }
    if same_text(cmd0, "chmod") && contains_text(hay.as_slice(), "777") {
        return Some(String::from_str(ADVICE_CHMOD_777));
    }
    if same_text(cmd0, "dd") && (contains_text(hay.as_slice(), "/dev/") || contains_text(
        hay.as_slice(),
        "of=",
    )) {
        return Some(String::from_str(ADVICE_DD));
    }
    if mentions_sensitive_marker(hay.as_slice()) {
        return Some(String::from_str(ADVICE_SENSITIVE_PATHS));
    }
    match script_of_bash_lc(command) {
        Some(script) => advice_for_script(script.as_str(), script_pipes),
        None => None,
    }
}

/// A short warning for a risky command line, or `None` for an empty command
/// and for one that no rule flags.
pub fn compute_security_advice(command: &[String]) -> (advice: Option<String>)
    ensures
        optional_text(advice) == security_advice(texts(command@)),
{
    if command.len() == 0 {
        return None;
    }
    let joined = join_with_space(command);
    let joined_pipes = contains_curl_or_wget_pipe_to_shell(joined.as_str());
    let script_pipes = match script_of_bash_lc(command) {
        Some(script) => contains_curl_or_wget_pipe_to_shell(script.as_str()),
        None => false,
    };
    advice_from_findings(command, joined_pipes, script_pipes)
}

} // verus!
