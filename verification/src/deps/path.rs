//! Putting the dependency directory on the user's `PATH`: the lines added
//! to shell profiles, and how a profile is edited to add or remove them.

use vstd::prelude::*;
use crate::text::{
    chars_of, concat2, concat3, contains, contains_str, ends_with, ends_with_chars, lines, lines_of, occurs_at,
    owned, pieces_view, string_from_chars,
};

verus! {

/// The comment that marks the lines this program adds.
pub open spec fn marker() -> Seq<char> {
    "# Added by souris-dw"@
}

/// The lines that put `dir` first on `PATH` in a POSIX shell profile.
pub open spec fn export_text(dir: Seq<char>) -> Seq<char> {
    "\n# Added by souris-dw\nexport PATH=\""@ + dir + ":$PATH\"\n"@
}

/// The lines that put `dir` first on `PATH` in a fish configuration.
pub open spec fn fish_text(dir: Seq<char>) -> Seq<char> {
    "\n# Added by souris-dw\nset -x PATH \""@ + dir + "\" $PATH\n"@
}

/// The lines that put `dir` first on `PATH` in a POSIX shell profile.
pub fn export_line(dir: &str) -> (s: String)
    ensures
        s@ == export_text(dir@),
{
    concat3("\n# Added by souris-dw\nexport PATH=\"", dir, ":$PATH\"\n")
}

/// The lines that put `dir` first on `PATH` in a fish configuration.
pub fn set_content_line(dir: &str) -> (s: String)
    ensures
        s@ == fish_text(dir@),
{
    concat3("\n# Added by souris-dw\nset -x PATH \"", dir, "\" $PATH\n")
}

/// The lines for the profile at `file`: fish's syntax when the file's path
/// ends with `fish`, the POSIX shell's otherwise.
pub open spec fn profile_text(file: Seq<char>, dir: Seq<char>) -> Seq<char> {
    if ends_with(file, "fish"@) { fish_text(dir) } else { export_text(dir) }
}

proof fn lemma_text_mentions_dir(contents: Seq<char>, file: Seq<char>, dir: Seq<char>)
    ensures
        contains(contents + profile_text(file, dir), dir),
{
    reveal_strlit("\n# Added by souris-dw\nexport PATH=\"");
    reveal_strlit("\n# Added by souris-dw\nset -x PATH \"");
    let head = if ends_with(file, "fish"@) {
        "\n# Added by souris-dw\nset -x PATH \""@
    } else {
        "\n# Added by souris-dw\nexport PATH=\""@
    };
    let tail = if ends_with(file, "fish"@) { "\" $PATH\n"@ } else { ":$PATH\"\n"@ };
    let all = contents + profile_text(file, dir);
    assert(all =~= contents + head + dir + tail);
    let i: int = (contents.len() + head.len()) as int;
    assert(all.subrange(i, i + dir.len()) =~= dir);
    assert(occurs_at(all, dir, i));
}

/// The profile `contents` of the file at `file` with the lines that put
/// `dir` on `PATH` appended; `None` when the profile already mentions
/// `dir` and is left as it is. A profile once edited mentions `dir`, so a
/// second edit leaves it alone.
pub fn with_bin_dir(contents: &str, file: &str, dir: &str) -> (r: Option<String>)
    ensures
        r is None <==> contains(contents@, dir@),
        r matches Some(x) ==> x@ == contents@ + profile_text(file@, dir@) && contains(x@, dir@),
{
    if contains_str(contents, dir) {
        return None;
    }
    let fish = ends_with_chars(&chars_of(file), &chars_of("fish"));
    let line = if fish { set_content_line(dir) } else { export_line(dir) };
    proof {
        lemma_text_mentions_dir(contents@, file@, dir@);
    }
    Some(concat2(contents, line.as_str()))
}

/// The lines that a removal keeps: those that mention neither `dir` nor
/// the marker comment.
pub open spec fn kept_lines(ls: Seq<Seq<char>>, dir: Seq<char>) -> Seq<Seq<char>>
    decreases ls.len(),
{
    if ls.len() == 0 {
        Seq::empty()
    } else {
        let init = kept_lines(ls.drop_last(), dir);
        if !contains(ls.last(), dir) && !contains(ls.last(), marker()) { init.push(ls.last()) } else { init }
    }
}

/// Lines joined with `\n` between them.
pub open spec fn join_lines(ls: Seq<Seq<char>>) -> Seq<char>
    decreases ls.len(),
{
    if ls.len() == 0 {
        Seq::empty()
    } else if ls.len() == 1 {
        ls[0]
    } else {
        join_lines(ls.drop_last()) + "\n"@ + ls.last()
    }
}

/// The profile `contents` without the lines that mention `dir` or the
/// marker comment, joined with `\n`; `None` when the profile does not
/// mention `dir` and is left as it is.
pub fn without_bin_dir(contents: &str, dir: &str) -> (r: Option<String>)
    ensures
        r is None <==> !contains(contents@, dir@),
        r matches Some(x) ==> x@ == join_lines(kept_lines(lines(contents@), dir@)),
{
    if !contains_str(contents, dir) {
        return None;
    }
    let ls = lines_of(&chars_of(contents));
    let ghost all = pieces_view(ls@);
    let d = chars_of(dir);
    let m = chars_of("# Added by souris-dw");
    let mut out: Vec<char> = Vec::new();
    let mut count: usize = 0;
    let mut i: usize = 0;
    assert(all.subrange(0, 0) =~= Seq::<Seq<char>>::empty());
    while i < ls.len()
        invariant
            i <= ls.len(),
            all == pieces_view(ls@),
            d@ == dir@,
            m@ == marker(),
            count <= i,
            count == kept_lines(all.subrange(0, i as int), dir@).len(),
            out@ == join_lines(kept_lines(all.subrange(0, i as int), dir@)),
        decreases ls.len() - i,
    {
        let line = &ls[i];
        let ghost pre = all.subrange(0, i as int);
        let ghost next = all.subrange(0, i + 1);
        assert(next.drop_last() =~= pre);
        assert(next.last() == line@);
        let mentions_dir = crate::text::find_chars(line, &d).is_some();
        let mentions_marker = crate::text::find_chars(line, &m).is_some();
        if !mentions_dir && !mentions_marker {
            let ghost kept = kept_lines(pre, dir@);
            if count > 0 {
                out.push('\n');
            }
            let mut k: usize = 0;
            let ghost mid = out@;
            while k < line.len()
                invariant
                    k <= line.len(),
                    out@ == mid + line@.subrange(0, k as int),
                decreases line.len() - k,
            {
                out.push(line[k]);
                k = k + 1;
            }
            assert(line@.subrange(0, line.len() as int) =~= line@);
            proof {
                let nk = kept.push(line@);
                assert(kept_lines(next, dir@) == nk);
                if count > 0 {
                    assert(nk.drop_last() =~= kept);
                    assert(out@ =~= join_lines(kept) + "\n"@ + line@) by {
                        reveal_strlit("\n");
                    }
                } else {
                    assert(nk.len() == 1);
                    assert(out@ =~= line@);
                }
            }
            count = count + 1;
        } else {
            assert(kept_lines(next, dir@) == kept_lines(pre, dir@));
        }
        i = i + 1;
    }
    assert(all.subrange(0, ls.len() as int) =~= all);
    Some(string_from_chars(&out))
}


/// Adding the `PATH` lines to a profile is done once: the edited profile
/// mentions the directory, so editing it again leaves it as it is.
pub proof fn law_profile_edit_once(contents: Seq<char>, file: Seq<char>, dir: Seq<char>)
    ensures
        contains(contents + profile_text(file, dir), dir),
{
    lemma_text_mentions_dir(contents, file, dir);
}

/// Removing the directory keeps no line that mentions it, and no marker
/// comment.
pub proof fn law_removal_keeps_no_mention(ls: Seq<Seq<char>>, dir: Seq<char>)
    ensures
        forall|i: int| 0 <= i < kept_lines(ls, dir).len() ==> !contains(#[trigger] kept_lines(ls, dir)[i], dir)
            && !contains(kept_lines(ls, dir)[i], marker()),
    decreases ls.len(),
{
    if ls.len() > 0 {
        law_removal_keeps_no_mention(ls.drop_last(), dir);
        let init = kept_lines(ls.drop_last(), dir);
        let k = kept_lines(ls, dir);
        assert forall|i: int| 0 <= i < k.len() implies !contains(#[trigger] k[i], dir) && !contains(k[i], marker()) by {
            if i < init.len() {
                assert(k[i] == init[i]);
            } else {
                assert(k[i] == ls.last());
            }
        }
    }
}

} // verus!
