//! What a script file says of itself: the description in its first
//! comment.

use crate::text::{
    chars_of, lines_of, lines_text, same_text, slice_of, spec_starts_with, split_lines,
    starts_with, text_of, to_uppercase, trim_bounds, trim_text, uppercase_text,
};
use vstd::prelude::*;

verus! {

/// `s` without the block-comment ends `#>` at its end.
pub open spec fn strip_comment_ends(s: Seq<char>) -> Seq<char>
    decreases s.len(),
{
    if s.len() >= 2 && s[s.len() - 2] == '#' && s[s.len() - 1] == '>' {
        strip_comment_ends(s.take(s.len() - 2))
    } else {
        s
    }
}

/// What a trimmed line of a script means for its description.
pub enum LineMeaning {
    /// The line opens a block of inline script metadata.
    OpensMetadata,
    /// The line is empty, a shebang or an empty comment: look further.
    Skip,
    /// The line is a comment with this text: the description.
    Describes(Seq<char>),
    /// The line is code: there is no description.
    Ends,
}

/// What a trimmed line outside a metadata block means. The line
/// `# /// script` opens a metadata block. Empty lines, shebangs and empty
/// `#` comments are skipped. A `#` comment, a `REM` comment or the first
/// line of a `<#` block comment describes the script with its trimmed text,
/// if it has any. Anything else ends the search.
pub open spec fn line_meaning(trimmed: Seq<char>) -> LineMeaning {
    if trimmed == "# /// script"@ {
        LineMeaning::OpensMetadata
    } else if trimmed.len() == 0 || spec_starts_with(trimmed, "#!"@) {
        LineMeaning::Skip
    } else if trimmed[0] == '#' {
        let text = trim_text(trimmed.skip(1));
        if text.len() > 0 {
            LineMeaning::Describes(text)
        } else {
            LineMeaning::Skip
        }
    } else if spec_starts_with(uppercase_text(trimmed), "REM "@) && trimmed.len() >= 4
        && trim_text(trimmed.skip(4)).len() > 0 {
        LineMeaning::Describes(trim_text(trimmed.skip(4)))
    } else if spec_starts_with(trimmed, "<#"@) && trim_text(
        strip_comment_ends(trim_text(trimmed.skip(2))),
    ).len() > 0 {
        LineMeaning::Describes(trim_text(strip_comment_ends(trim_text(trimmed.skip(2)))))
    } else {
        LineMeaning::Ends
    }
}

/// The description that the lines from `from` on give, inside or outside a
/// metadata block. Inside a block every line is skipped; the line `# ///`
/// closes it.
pub open spec fn description_from(lines: Seq<Seq<char>>, from: int, in_block: bool) -> Option<
    Seq<char>,
>
    decreases lines.len() - from,
{
    if from < 0 || from >= lines.len() {
        None
    } else {
        let trimmed = trim_text(lines[from]);
        if line_meaning(trimmed) is OpensMetadata {
            description_from(lines, from + 1, true)
        } else if in_block {
            description_from(lines, from + 1, trimmed != "# ///"@)
        } else {
            match line_meaning(trimmed) {
                LineMeaning::Skip => description_from(lines, from + 1, false),
                LineMeaning::Describes(text) => Some(text),
                _ => None,
            }
        }
    }
}

/// The description of a script with the content `content`.
pub open spec fn description_of(content: Seq<char>) -> Option<Seq<char>> {
    description_from(lines_of(content), 0, false)
}

fn trimmed_chars(chars: &Vec<char>) -> (trimmed: Vec<char>)
    ensures
        trimmed@ == trim_text(chars@),
{
    let (start, end) = trim_bounds(chars);
    slice_of(chars, start, end)
}

fn without_comment_ends(chars: &Vec<char>) -> (rest: Vec<char>)
    ensures
        rest@ == strip_comment_ends(chars@),
{
    let mut end: usize = chars.len();
    assert(chars@.take(end as int) =~= chars@);
    while end >= 2 && chars[end - 2] == '#' && chars[end - 1] == '>'
        invariant
            end <= chars@.len(),
            strip_comment_ends(chars@.take(end as int)) == strip_comment_ends(chars@),
        decreases end,
    {
        let ghost kept = chars@.take(end as int);
        assert(kept[kept.len() - 2] == chars@[end - 2]);
        assert(kept[kept.len() - 1] == chars@[end - 1]);
        assert(kept.take(kept.len() - 2) =~= chars@.take(end - 2));
        end -= 2;
    }
    proof {
        let kept = chars@.take(end as int);
        if kept.len() >= 2 {
            assert(kept[kept.len() - 2] == chars@[end - 2]);
            assert(kept[kept.len() - 1] == chars@[end - 1]);
        }
        assert(chars@.subrange(0, end as int) =~= kept);
    }
    slice_of(chars, 0, end)
}

/// What one line of a script means, given the line trimmed.
fn meaning(trimmed: &Vec<char>) -> (found: (u8, Option<String>))
    ensures
        match line_meaning(trimmed@) {
            LineMeaning::OpensMetadata => found.0 == 0 && found.1 is None,
            LineMeaning::Skip => found.0 == 1 && found.1 is None,
            LineMeaning::Describes(text) => found.0 == 2 && found.1 is Some && found.1->Some_0@
                == text,
            LineMeaning::Ends => found.0 == 3 && found.1 is None,
        },
{
    let line = text_of(trimmed);
    if same_text(line.as_str(), "# /// script") {
        return (0, None);
    }
    if trimmed.len() == 0 || starts_with(line.as_str(), "#!") {
        return (1, None);
    }
    if trimmed[0] == '#' {
        assert(trimmed@.skip(1) =~= trimmed@.subrange(1, trimmed@.len() as int));
        let text = trimmed_chars(&slice_of(trimmed, 1, trimmed.len()));
        if text.len() > 0 {
            return (2, Some(text_of(&text)));
        }
        return (1, None);
    }
    if starts_with(to_uppercase(line.as_str()).as_str(), "REM ") && trimmed.len() >= 4 {
        assert(trimmed@.skip(4) =~= trimmed@.subrange(4, trimmed@.len() as int));
        let text = trimmed_chars(&slice_of(trimmed, 4, trimmed.len()));
        if text.len() > 0 {
            return (2, Some(text_of(&text)));
        }
    }
    if starts_with(line.as_str(), "<#") {
        proof {
            reveal_strlit("<#");
        }
        assert(trimmed@.len() >= 2);
        assert(trimmed@.skip(2) =~= trimmed@.subrange(2, trimmed@.len() as int));
        let inner = trimmed_chars(&slice_of(trimmed, 2, trimmed.len()));
        let text = trimmed_chars(&without_comment_ends(&inner));
        if text.len() > 0 {
            return (2, Some(text_of(&text)));
        }
    }
    (3, None)
}

/// Extracts the description of a script from its content: the text of its
/// first comment line, if the script begins with one.
pub fn extract_description(content: &str) -> (description: Option<String>)
    ensures
        crate::registry::opt_text(description) == description_of(content@),
{
    let lines = split_lines(content);
    let ghost texts = lines_of(content@);
    let mut in_block = false;
    let mut i: usize = 0;
    while i < lines.len()
        invariant
            i <= lines@.len(),
            lines_text(lines@) == texts,
            description_from(texts, i as int, in_block) == description_of(content@),
        decreases lines@.len() - i,
    {
        assert(texts[i as int] == lines@[i as int]@);
        let trimmed = trimmed_chars(&chars_of(lines[i].as_str()));
        let (kind, text) = meaning(&trimmed);
        if kind == 0 {
            in_block = true;
        } else if in_block {
            if same_text(text_of(&trimmed).as_str(), "# ///") {
                in_block = false;
            }
        } else if kind == 1 {
        } else if kind == 2 {
            return text;
        } else {
            return None;
        }
        i += 1;
    }
    None
}

} // verus!
