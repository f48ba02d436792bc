//! The texts that the informational actions print: the framed banner, the
//! usage menu and the tool information.

use vstd::prelude::*;
use vstd::string::StrSliceExecFns;
use vstd::string::StringExecFns;

verus! {

/// `s` repeated `n` times.
pub open spec fn repeated(s: Seq<char>, n: nat) -> Seq<char>
    decreases n,
{
    if n == 0 {
        Seq::empty()
    } else {
        repeated(s, (n - 1) as nat) + s
    }
}

/// Builds the string of `n` copies of `s`.
pub fn repeat_str(s: &str, n: usize) -> (r: String)
    ensures
        r@ == repeated(s@, n as nat),
{
    let mut r = String::new();
    let mut i: usize = 0;
    while i < n
        invariant
            i <= n,
            r@ == repeated(s@, i as nat),
        decreases n - i,
    {
        r.append(s);
        i += 1;
    }
    r
}

/// The name shown inside the banner frame.
pub open spec fn tool_name() -> Seq<char> {
    "RENAME TOOL (Renamix)"@
}

/// The banner: the tool name in a frame of `#`, five lines, each indented by
/// four spaces and ended by a newline.
pub open spec fn banner_chars() -> Seq<char> {
    let name = tool_name();
    let pad = repeated(" "@, 4);
    let border = repeated("#"@, name.len() + 8);
    let edge = repeated("#"@, 2);
    let gap = repeated(" "@, name.len() + 4);
    pad + border + "\n"@ + pad + edge + gap + edge + "\n"@ + pad + edge + "  "@ + name + "  "@
        + edge + "\n"@ + pad + edge + gap + edge + "\n"@ + pad + border + "\n"@
}

/// Builds the banner text.
pub fn banner_text() -> (r: String)
    ensures
        r@ == banner_chars(),
{
    let name = "RENAME TOOL (Renamix)";
    proof {
        reveal_strlit("RENAME TOOL (Renamix)");
    }
    let len = name.unicode_len();
    let pad = repeat_str(" ", 4);
    let border = repeat_str("#", len + 8);
    let edge = repeat_str("#", 2);
    let gap = repeat_str(" ", len + 4);
    let mut r = String::new();
    r.append(pad.as_str());
    r.append(border.as_str());
    r.append("\n");
    r.append(pad.as_str());
    r.append(edge.as_str());
    r.append(gap.as_str());
    r.append(edge.as_str());
    r.append("\n");
    r.append(pad.as_str());
    r.append(edge.as_str());
    r.append("  ");
    r.append(name);
    r.append("  ");
    r.append(edge.as_str());
    r.append("\n");
    r.append(pad.as_str());
    r.append(edge.as_str());
    r.append(gap.as_str());
    r.append(edge.as_str());
    r.append("\n");
    r.append(pad.as_str());
    r.append(border.as_str());
    r.append("\n");
    r
}

/// The usage menu, ended by a newline.
pub open spec fn menu_chars() -> Seq<char> {
    "
    Description:
    Rename a file or folder in the specified path.

    Syntax:
    rnmx -flag current_archive renamed_archive
    rnmx -flag # to query extra info

    Flags:
    -p, --path Specify the path to be renamed (Mandatory).

    -h, --help  Show this help menu and exit.

    -i, --info  Show tool info, repository link, author...

    Examples:
    # renaming a directory
    rnmx -p my_folder/ my_renamed_folder/

    # renaming an archive using verbose arguments
    rnmx --path my_archive.ext my_renamed_archived.ext
    "@ + "\n"@
}

/// The full help output: the banner followed by the usage menu.
pub open spec fn help_chars() -> Seq<char> {
    banner_chars() + menu_chars()
}

/// Builds the full help output.
pub fn help_text() -> (r: String)
    ensures
        r@ == help_chars(),
{
    let mut r = banner_text();
    r.append(
        "
    Description:
    Rename a file or folder in the specified path.

    Syntax:
    rnmx -flag current_archive renamed_archive
    rnmx -flag # to query extra info

    Flags:
    -p, --path Specify the path to be renamed (Mandatory).

    -h, --help  Show this help menu and exit.

    -i, --info  Show tool info, repository link, author...

    Examples:
    # renaming a directory
    rnmx -p my_folder/ my_renamed_folder/

    # renaming an archive using verbose arguments
    rnmx --path my_archive.ext my_renamed_archived.ext
    ",
    );
    r.append("\n");
    proof {
        assert(r@ =~= help_chars());
    }
    r
}

/// The author, license and version text, ended by a newline.
pub open spec fn info_chars() -> Seq<char> {
    "author: Leandrys Osorio (Amtr4x)\nLicense: MIT\nrelease-version: 1.0\n\n for donations read the README.md info at: https://github.com/Amtr4x/rnmx?tab=readme-ov-file#can-i-make-a-thank-you-donation"@
        + "\n"@
}

/// Builds the tool information text.
pub fn info_text() -> (r: String)
    ensures
        r@ == info_chars(),
{
    let mut r = String::from_str(
        "author: Leandrys Osorio (Amtr4x)\nLicense: MIT\nrelease-version: 1.0\n\n for donations read the README.md info at: https://github.com/Amtr4x/rnmx?tab=readme-ov-file#can-i-make-a-thank-you-donation",
    );
    r.append("\n");
    r
}

} // verus!
