//! `git x color-graph`: the full-color commit graph of all branches.
use vstd::prelude::*;
use crate::base::git::ProcessOutput;
use crate::base::text::{owned, trim, trim_str};
use crate::{GitXError, Result, is_git_error};

verus! {

/// The text `String::from_utf8_lossy` makes of `bytes`: the bytes decoded as
/// UTF-8, each invalid sequence replaced by U+FFFD.
pub uninterp spec fn lossy_text(bytes: Seq<u8>) -> Seq<char>;

/// `String::from_utf8_lossy(bytes).to_string()`. Claimed: the result is
/// `lossy_text(bytes)`, and bytes that are all ASCII become the same
/// characters (they are valid UTF-8, decoded one character per byte).
#[verifier::external_body]
fn lossy_utf8(bytes: &[u8]) -> (r: String)
    ensures
        r@ == lossy_text(bytes@),
        (forall|i: int| 0 <= i < bytes@.len() ==> #[trigger] bytes@[i] < 128) ==> r@ == bytes@.map_values(
            |b: u8| b as char,
        ),
{
    String::from_utf8_lossy(bytes).to_string()
}

/// Git's output as text (invalid UTF-8 replaced, see `lossy_text`).
pub fn convert_output_to_string(output: &[u8]) -> (r: String)
    ensures
        r@ == lossy_text(output@),
        (forall|i: int| 0 <= i < output@.len() ==> #[trigger] output@[i] < 128) ==> r@ == output@.map_values(
            |b: u8| b as char,
        ),
{
    lossy_utf8(output)
}

/// The arguments of the colored graph log.
pub fn get_color_git_log_args() -> (r: [&'static str; 7])
    ensures
        r@.map_values(|s: &str| s@) == seq![
            "log"@,
            "--oneline"@,
            "--graph"@,
            "--decorate"@,
            "--all"@,
            "--color=always"@,
            "--pretty=format:%C(auto)%h%d %s %C(dim)(%an, %ar)%C(reset)"@,
        ],
{
    let r = [
        "log",
        "--oneline",
        "--graph",
        "--decorate",
        "--all",
        "--color=always",
        "--pretty=format:%C(auto)%h%d %s %C(dim)(%an, %ar)%C(reset)",
    ];
    assert(r@.map_values(|s: &str| s@) =~= seq![
        "log"@,
        "--oneline"@,
        "--graph"@,
        "--decorate"@,
        "--all"@,
        "--color=always"@,
        "--pretty=format:%C(auto)%h%d %s %C(dim)(%an, %ar)%C(reset)"@,
    ]);
    r
}

/// The error line printed when the graph log fails.
pub fn format_color_git_error(stderr: &str) -> (r: String)
    ensures
        r@ == "❌ git log failed:\n"@ + stderr@,
{
    let mut r = owned("❌ git log failed:\n");
    r.append(stderr);
    r
}

/// The graph, from the finished `git log` of `get_color_git_log_args`: its
/// standard output, or an error with its trimmed error output.
pub fn run_color_graph(output: ProcessOutput) -> (r: Result<String>)
    ensures
        output.success ==> (r matches Ok(s) && s@ == output.stdout@),
        !output.success ==> is_git_error(r, "git log failed: "@ + trim(output.stderr@)),
{
    if output.success {
        Ok(output.stdout)
    } else {
        let mut m = owned("git log failed: ");
        let t = trim_str(output.stderr.as_str());
        m.append(t.as_str());
        Err(GitXError::GitCommand(m))
    }
}

} // verus!
