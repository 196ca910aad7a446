//! The site list: the text of a list file, and the entries it holds.
//!
//! A list file holds one entry to a line. White space around an entry does
//! not count, an empty line holds none, and a line whose first character
//! after the white space is `#` is a comment.

use crate::config::texts;
use crate::text::chars_of;
use crate::text::find_char;
use crate::text::first_index;
use crate::text::string_of;
use crate::text::trim_bounds;
use crate::text::trimmed;
use vstd::prelude::*;
use vstd::string::*;

verus! {

/// Whether a line, white space taken away, is an entry: it is not empty and
/// is no comment.
pub open spec fn is_entry(line: Seq<char>) -> bool {
    line.len() > 0 && line[0] != '#'
}

/// The entry that the first line of `text` holds, if it holds one.
pub open spec fn first_entry(text: Seq<char>) -> Seq<Seq<char>> {
    let line = trimmed(text.take(first_index(text, '\n')));
    if is_entry(line) {
        seq![line]
    } else {
        seq![]
    }
}

/// The entries of a site list, in the order of their lines.
pub open spec fn site_entries(text: Seq<char>) -> Seq<Seq<char>>
    decreases text.len(),
{
    let end = first_index(text, '\n');
    if 0 <= end < text.len() {
        first_entry(text) + site_entries(text.skip(end + 1))
    } else {
        first_entry(text)
    }
}

/// Reads the text of a site list.
pub fn parse_sites(conf: &str) -> (entries: Vec<String>)
    ensures
        texts(entries@) == site_entries(conf@),
{
    let chars = chars_of(conf);
    let mut entries: Vec<String> = Vec::new();
    let mut start: usize = 0;
    assert(chars@.skip(0) =~= chars@);
    assert(texts(entries@) =~= Seq::<Seq<char>>::empty());
    loop
        invariant_except_break
            site_entries(conf@) == texts(entries@) + site_entries(chars@.skip(start as int)),
        invariant
            chars@ == conf@,
            start <= chars@.len(),
        ensures
            texts(entries@) == site_entries(conf@),
        decreases chars@.len() - start,
    {
        let ghost rest = chars@.skip(start as int);
        let ghost before = texts(entries@);
        let end = find_char(&chars, start, '\n');
        let (a, b) = trim_bounds(&chars, start, end);
        assert(rest.take(end - start) =~= chars@.subrange(start as int, end as int));
        let ghost line = chars@.subrange(a as int, b as int);
        if a < b && chars[a] != '#' {
            assert(line[0] == chars@[a as int]);
            let entry = string_of(&chars, a, b);
            entries.push(entry);
            assert(texts(entries@) =~= before + seq![line]);
        } else {
            assert(!is_entry(line)) by {
                if a < b {
                    assert(line[0] == chars@[a as int]);
                }
            }
            assert(before + Seq::<Seq<char>>::empty() =~= before);
        }
        assert(texts(entries@) == before + first_entry(rest));
        if end == chars.len() {
            break;
        }
        assert(rest.skip(end - start + 1) =~= chars@.skip(end as int + 1));
        assert(before + (first_entry(rest) + site_entries(rest.skip(end - start + 1))) =~= (before
            + first_entry(rest)) + site_entries(rest.skip(end - start + 1)));
        start = end + 1;
    }
    entries
}

} // verus!
