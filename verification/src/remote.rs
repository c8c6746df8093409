//! The text-level half of talking to the remote host: the listing command,
//! the parse of its output into filenames, and remote path construction.
//!
//! The remote listing arrives as one block of newline-delimited text; every
//! non-empty line is one filename.

use vstd::prelude::*;
use vstd::string::*;

verus! {

/// Index of the first line break in `s`, or `s.len()` if there is none.
pub open spec fn first_line_break(s: Seq<char>) -> int
    decreases s.len(),
{
    if s.len() == 0 {
        0
    } else if s[0] == '\n' {
        0
    } else {
        1 + first_line_break(s.drop_first())
    }
}

/// `first_line_break` points at the first `'\n'`, or past the end.
pub proof fn lemma_first_line_break_bounds(s: Seq<char>)
    ensures
        0 <= first_line_break(s) <= s.len(),
        first_line_break(s) < s.len() ==> s[first_line_break(s)] == '\n',
        forall|k: int| 0 <= k < first_line_break(s) ==> s[k] != '\n',
    decreases s.len(),
{
    if s.len() > 0 && s[0] != '\n' {
        lemma_first_line_break_bounds(s.drop_first());
        assert forall|k: int| 0 <= k < first_line_break(s) implies s[k] != '\n' by {
            if k > 0 {
                assert(s.drop_first()[k - 1] == s[k]);
            }
        }
    }
}

/// Any index with a line break at it and none before it is the first one.
proof fn lemma_first_line_break_unique(s: Seq<char>, j: int)
    requires
        0 <= j <= s.len(),
        j == s.len() || s[j] == '\n',
        forall|k: int| 0 <= k < j ==> s[k] != '\n',
    ensures
        first_line_break(s) == j,
    decreases s.len(),
{
    if s.len() > 0 && s[0] != '\n' {
        lemma_first_line_break_unique(s.drop_first(), j - 1);
    }
}

/// The non-empty lines of listing output, in order; each one is treated as a
/// filename.
pub open spec fn listing_lines(s: Seq<char>) -> Seq<Seq<char>>
    decreases s.len(),
    via listing_lines_decreases
{
    if s.len() == 0 {
        Seq::empty()
    } else {
        let brk = first_line_break(s);
        let head = s.subrange(0, brk);
        let tail = if brk == s.len() {
            Seq::<char>::empty()
        } else {
            s.subrange(brk + 1, s.len() as int)
        };
        if head.len() == 0 {
            listing_lines(tail)
        } else {
            seq![head] + listing_lines(tail)
        }
    }
}

#[via_fn]
proof fn listing_lines_decreases(s: Seq<char>) {
    lemma_first_line_break_bounds(s);
}

/// Finds the first line break at or after `start`, or the end of the text.
fn find_line_break(text: &str, start: usize) -> (brk: usize)
    requires
        start <= text@.len(),
    ensures
        start <= brk <= text@.len(),
        brk - start == first_line_break(text@.subrange(start as int, text@.len() as int)),
{
    let length = text.unicode_len();
    let mut index: usize = start;
    while index < length
        invariant
            start <= index <= length,
            length == text@.len(),
            forall|k: int| start <= k < index ==> text@[k] != '\n',
        decreases length - index,
    {
        if text.get_char(index) == '\n' {
            proof {
                let suffix = text@.subrange(start as int, text@.len() as int);
                lemma_first_line_break_unique(suffix, index - start);
            }
            return index;
        }
        index += 1;
    }
    proof {
        let suffix = text@.subrange(start as int, text@.len() as int);
        lemma_first_line_break_unique(suffix, index - start);
    }
    index
}

/// Parses the listing output from `start` onwards.
fn parse_listing_from(listing_output: &str, start: usize) -> (file_names: Vec<String>)
    requires
        start <= listing_output@.len(),
    ensures
        file_names@.map_values(|s: String| s@) == listing_lines(
            listing_output@.subrange(start as int, listing_output@.len() as int),
        ),
    decreases listing_output@.len() - start,
{
    let ghost suffix = listing_output@.subrange(start as int, listing_output@.len() as int);
    let length = listing_output.unicode_len();
    if start == length {
        let file_names: Vec<String> = Vec::new();
        proof {
            assert(file_names@.map_values(|s: String| s@) =~= listing_lines(suffix));
        }
        return file_names;
    }
    let brk = find_line_break(listing_output, start);
    let next_start = if brk == length {
        brk
    } else {
        brk + 1
    };
    let mut tail_names = parse_listing_from(listing_output, next_start);
    proof {
        lemma_first_line_break_bounds(suffix);
        assert(suffix.subrange(0, (brk - start) as int) =~= listing_output@.subrange(
            start as int,
            brk as int,
        ));
        if brk < length {
            assert(suffix.subrange(brk - start + 1, suffix.len() as int)
                =~= listing_output@.subrange(next_start as int, listing_output@.len() as int));
        } else {
            assert(listing_output@.subrange(next_start as int, listing_output@.len() as int)
                =~= Seq::<char>::empty());
        }
    }
    if brk == start {
        tail_names
    } else {
        let head = listing_output.substring_char(start, brk).to_owned();
        let mut file_names: Vec<String> = Vec::new();
        file_names.push(head);
        file_names.append(&mut tail_names);
        proof {
            assert(file_names@.map_values(|s: String| s@) =~= listing_lines(suffix));
        }
        file_names
    }
}

/// Splits the listing command's standard output into the remote filenames:
/// one per non-empty line, in listing order.
pub fn parse_listing(listing_output: &str) -> (file_names: Vec<String>)
    ensures
        file_names@.map_values(|s: String| s@) == listing_lines(listing_output@),
{
    let file_names = parse_listing_from(listing_output, 0);
    proof {
        assert(listing_output@.subrange(0, listing_output@.len() as int) =~= listing_output@);
    }
    file_names
}

/// The shell command whose standard output lists the remote directory.
pub fn listing_command(remote_dir_path: &str) -> (command: String)
    ensures
        command@ == "cd "@ + remote_dir_path@ + " && ls"@,
{
    String::from_str("cd ").concat(remote_dir_path).concat(" && ls")
}

/// The fully qualified remote path of one file in the remote directory.
pub fn remote_file_path(remote_dir_path: &str, file_name: &str) -> (path: String)
    ensures
        path@ == remote_dir_path@ + "/"@ + file_name@,
{
    String::from_str(remote_dir_path).concat("/").concat(file_name)
}

} // verus!
