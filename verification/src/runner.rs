//! Test runner adapter: the command that runs the unit tests with coverage,
//! and the live status that is shown while its output comes in.

use crate::hunk::token_end;
use crate::pm::{binary_name, pkg_mgr};
use crate::style::{bold, green, in_bold, in_green, in_red, red};
use crate::text::{
    chars_of, matches_at, next_char, occurs_at, position_of, same, slice_of, string_of, texts,
    trim, trimmed, white_space,
};
use vstd::prelude::*;
use vstd::string::StringExecFns;

verus! {

/// A run of the unit tests that is ready to be started.
pub struct TestCommand {
    /// The file name of the program.
    pub program: String,
    /// Its arguments.
    pub args: Vec<String>,
    /// What the progress indicator says while the tests run.
    pub message: String,
}

/// The name by which the package manager knows a package: the package in the
/// directory `zowe-explorer` is named `vscode-extension-for-zowe`, any other
/// has the name of its directory.
pub open spec fn package_name(package: Seq<char>) -> Seq<char> {
    if package == "zowe-explorer"@ {
        "vscode-extension-for-zowe"@
    } else {
        package
    }
}

/// The arguments of the test run: of one package, or of all of them.
pub open spec fn test_args(filter: Option<Seq<char>>) -> Seq<Seq<char>> {
    match filter {
        Some(package) => seq!["--filter"@, package_name(package), "test"@],
        None => seq!["-r"@, "test"@],
    }
}

/// What the progress indicator says while the tests run.
pub open spec fn test_message(filter: Option<Seq<char>>) -> Seq<char> {
    match filter {
        Some(package) => "Executing pnpm --filter "@ + package_name(package) + " test..."@,
        None => "Executing pnpm -r test..."@,
    }
}

/// Run the tests with coverage: the command to start, for one package or,
/// without a filter, for all of them.
pub fn run_tests(filter: &Option<String>, windows: bool) -> (command: TestCommand)
    ensures
        command.program@ == binary_name("pnpm"@, windows),
        texts(command.args@) == test_args(
            match filter {
                Some(package) => Some(package@),
                None => None,
            },
        ),
        command.message@ == test_message(
            match filter {
                Some(package) => Some(package@),
                None => None,
            },
        ),
{
    let program = pkg_mgr("pnpm", windows);
    let mut args: Vec<String> = Vec::new();
    match filter {
        Some(package) => {
            let name = if same(
                chars_of(package.as_str()).as_slice(),
                chars_of("zowe-explorer").as_slice(),
            ) {
                String::from_str("vscode-extension-for-zowe")
            } else {
                package.clone()
            };
            let mut message = String::from_str("Executing pnpm --filter ");
            message.append(name.as_str());
            message.append(" test...");
            args.push(String::from_str("--filter"));
            args.push(name);
            args.push(String::from_str("test"));
            assert(texts(args@) == test_args(Some(package@)));
            TestCommand { program, args, message }
        },
        None => {
            args.push(String::from_str("-r"));
            args.push(String::from_str("test"));
            assert(texts(args@) == test_args(None));
            TestCommand { program, args, message: String::from_str("Executing pnpm -r test...") }
        },
    }
}

/// What the progress indicator says once the tests have run.
pub open spec fn finish_text(success: bool) -> Seq<char> {
    if success {
        in_green("✓"@) + " "@ + in_green(in_bold("Tests passed"@))
    } else {
        in_red("✗"@) + " "@ + in_red(in_bold("Tests failed"@))
    }
}

/// What the progress indicator says once the tests have run. Success is the
/// exit status of the test run, whatever it has printed.
pub fn finish_message(success: bool) -> (text: String)
    ensures
        text@ == finish_text(success),
{
    if success {
        let mut text = green("✓");
        text.append(" ");
        text.append(green(bold("Tests passed").as_str()).as_str());
        text
    } else {
        let mut text = red("✗");
        text.append(" ");
        text.append(red(bold("Tests failed").as_str()).as_str());
        text
    }
}

/// The last position at or before `i` where `pat` occurs in `s`.
pub open spec fn rfind_from(s: Seq<char>, pat: Seq<char>, i: int) -> Option<int>
    decreases i + 1,
{
    if i < 0 {
        None
    } else if occurs_at(s, pat, i) {
        Some(i)
    } else {
        rfind_from(s, pat, i - 1)
    }
}

/// The last position where `pat` occurs in `s`.
pub open spec fn rfind(s: Seq<char>, pat: Seq<char>) -> Option<int> {
    rfind_from(s, pat, s.len() - pat.len())
}

/// The first word of `s` at or after position `i`, where there is one.
pub open spec fn first_word(s: Seq<char>, i: int) -> Option<Seq<char>>
    decreases s.len() - i,
{
    if i < 0 || i >= s.len() {
        None
    } else if white_space(s[i]) {
        first_word(s, i + 1)
    } else {
        Some(s.subrange(i, token_end(s, i)))
    }
}

/// `s` without its leading colons.
pub open spec fn strip_colons(s: Seq<char>) -> Seq<char>
    decreases s.len(),
{
    if s.len() > 0 && s[0] == ':' {
        strip_colons(s.drop_first())
    } else {
        s
    }
}

/// What a line says after its first colon, trimmed; nothing where the line
/// has no colon.
pub open spec fn after_colon(line: Seq<char>) -> Seq<char> {
    trim(strip_colons(line.skip(next_char(line, ':', 0))))
}

/// What the progress indicator says of a line that reports the result
/// `marker` of a test file: the symbol, the marker and the word that follows
/// the last `marker` of the line, which is the file's path. Where no word
/// follows, the symbol and what the line says after its first colon. `None`
/// where the line does not hold `marker`.
pub open spec fn result_status(line: Seq<char>, marker: Seq<char>, symbol: Seq<char>) -> Option<
    Seq<char>,
> {
    match rfind(line, marker) {
        None => None,
        Some(p) => match first_word(line, p + marker.len()) {
            Some(word) => Some(symbol + " "@ + marker + " "@ + word),
            None => Some(symbol + " "@ + after_colon(line)),
        },
    }
}

/// What the progress indicator says of a line of the tests' standard output:
/// a passed test file is reported before a failed one.
pub open spec fn stdout_status(line: Seq<char>) -> Option<Seq<char>> {
    match result_status(line, "PASS"@, "✓"@) {
        Some(status) => Some(status),
        None => result_status(line, "FAIL"@, "✗"@),
    }
}

/// What the progress indicator says of a line of the tests' standard error:
/// only failed test files are reported.
pub open spec fn stderr_status(line: Seq<char>) -> Option<Seq<char>> {
    result_status(line, "FAIL"@, "✗"@)
}

/// Finds the last position where `pat` occurs in `s`.
fn find_last(s: &[char], pat: &[char]) -> (r: Option<usize>)
    ensures
        r is Some == rfind(s@, pat@) is Some,
        r matches Some(p) ==> rfind(s@, pat@) == Some(p as int) && p + pat.len() <= s.len(),
{
    if pat.len() > s.len() {
        return None;
    }
    let mut i: usize = s.len() - pat.len();
    loop
        invariant
            i + pat.len() <= s.len(),
            rfind(s@, pat@) == rfind_from(s@, pat@, i as int),
        decreases i,
    {
        if matches_at(s, pat, i) {
            return Some(i);
        }
        if i == 0 {
            assert(rfind_from(s@, pat@, -1) is None);
            return None;
        }
        i -= 1;
    }
}

/// Finds the first word at or after a position.
fn word_from(s: &[char], from: usize) -> (r: Option<Vec<char>>)
    requires
        from <= s.len(),
    ensures
        r is Some == first_word(s@, from as int) is Some,
        r matches Some(w) ==> first_word(s@, from as int) == Some(w@),
{
    let n = s.len();
    let mut i: usize = from;
    while i < n && s[i].is_whitespace()
        invariant
            from <= i <= n == s.len(),
            first_word(s@, from as int) == first_word(s@, i as int),
        decreases n - i,
    {
        i += 1;
    }
    if i == n {
        return None;
    }
    let mut e: usize = i;
    while e < n && !s[e].is_whitespace()
        invariant
            i <= e <= n == s.len(),
            token_end(s@, i as int) == token_end(s@, e as int),
        decreases n - e,
    {
        e += 1;
    }
    Some(slice_of(s, i, e))
}

/// What a line says after its first colon.
fn said_after_colon(line: &[char]) -> (r: Vec<char>)
    ensures
        r@ == after_colon(line@),
{
    let n = line.len();
    let start = position_of(line, ':', 0);
    let mut i: usize = start;
    assert(line@.skip(start as int).len() == n - start);
    while i < n && line[i] == ':'
        invariant
            start <= i <= n == line.len(),
            strip_colons(line@.skip(start as int)) == strip_colons(line@.skip(i as int)),
        decreases n - i,
    {
        assert(line@.skip(i as int).drop_first() == line@.skip(i + 1));
        i += 1;
    }
    let rest = slice_of(line, i, n);
    assert(rest@ == line@.skip(i as int));
    trimmed(rest.as_slice())
}

/// What the progress indicator says of a line that reports a result.
fn status_of(line: &[char], marker: &str, symbol: &str) -> (r: Option<String>)
    ensures
        r is Some == result_status(line@, marker@, symbol@) is Some,
        r matches Some(status) ==> result_status(line@, marker@, symbol@) == Some(status@),
{
    let pat = chars_of(marker);
    match find_last(line, pat.as_slice()) {
        None => None,
        Some(p) => {
            let mut status = String::from_str(symbol);
            status.append(" ");
            match word_from(line, p + pat.len()) {
                Some(word) => {
                    status.append(marker);
                    status.append(" ");
                    status.append(string_of(word.as_slice()).as_str());
                },
                None => {
                    status.append(string_of(said_after_colon(line).as_slice()).as_str());
                },
            }
            Some(status)
        },
    }
}

/// Process a line of the standard output of the test command: what the
/// progress indicator is to say, if the line changes it.
pub fn process_stdout(line: &str) -> (r: Option<String>)
    ensures
        r is Some == stdout_status(line@) is Some,
        r matches Some(status) ==> stdout_status(line@) == Some(status@),
{
    let chars = chars_of(line);
    match status_of(chars.as_slice(), "PASS", "✓") {
        Some(status) => Some(status),
        None => status_of(chars.as_slice(), "FAIL", "✗"),
    }
}

/// Process a line of the standard error of the test command: what the
/// progress indicator is to say, if the line changes it.
pub fn process_stderr(line: &str) -> (r: Option<String>)
    ensures
        r is Some == stderr_status(line@) is Some,
        r matches Some(status) ==> stderr_status(line@) == Some(status@),
{
    let chars = chars_of(line);
    status_of(chars.as_slice(), "FAIL", "✗")
}

} // verus!
