use vstd::prelude::*;
use vstd::string::StrSliceExecFns;

use crate::list::{TodoList, holds_lines};

verus! {

/// A line as it is read: a carriage return just before its newline is dropped.
pub open spec fn strip_cr(line: Seq<char>) -> Seq<char> {
    if line.len() > 0 && line.last() == '\r' {
        line.drop_last()
    } else {
        line
    }
}

/// Reading `s` from the start: the lines completed so far, and the
/// characters of the line not yet ended by a newline.
pub open spec fn scan(s: Seq<char>) -> (Seq<Seq<char>>, Seq<char>)
    decreases s.len(),
{
    if s.len() == 0 {
        (Seq::empty(), Seq::empty())
    } else {
        let (done, cur) = scan(s.drop_last());
        if s.last() == '\n' {
            (done.push(strip_cr(cur)), Seq::empty())
        } else {
            (done, cur.push(s.last()))
        }
    }
}

/// The lines of a text: split at each newline, without the newline (nor a
/// carriage return just before it); a last line with no newline after it
/// still counts, and an empty text has no lines.
pub open spec fn lines_spec(s: Seq<char>) -> Seq<Seq<char>> {
    let (done, cur) = scan(s);
    if cur.len() == 0 {
        done
    } else {
        done.push(cur)
    }
}

/// Splits a text into its lines (see [`lines_spec`]).
pub fn split_lines(content: &str) -> (r: Vec<String>)
    ensures
        r@.map_values(|l: String| l@) == lines_spec(content@),
{
    let len = content.unicode_len();
    let mut r: Vec<String> = Vec::new();
    let mut start: usize = 0;
    let mut i: usize = 0;
    while i < len
        invariant
            len == content@.len(),
            start <= i <= len,
            scan(content@.take(i as int)) == (
            r@.map_values(|l: String| l@),
            content@.subrange(start as int, i as int),
            ),
        decreases len - i,
    {
        let c = content.get_char(i);
        proof {
            let p = content@.take(i + 1);
            assert(p.drop_last() =~= content@.take(i as int));
        }
        if c == '\n' {
            let end = if i > start && content.get_char(i - 1) == '\r' {
                i - 1
            } else {
                i
            };
            let line = content.substring_char(start, end).to_owned();
            let ghost before = r@;
            r.push(line);
            proof {
                let cur = content@.subrange(start as int, i as int);
                assert(strip_cr(cur) =~= content@.subrange(start as int, end as int));
                assert(r@.map_values(|l: String| l@) =~= before.map_values(|l: String| l@).push(
                    strip_cr(cur),
                ));
                assert(content@.subrange((i + 1) as int, (i + 1) as int) =~= Seq::<char>::empty());
            }
            start = i + 1;
        } else {
            proof {
                assert(content@.subrange(start as int, i + 1) =~= content@.subrange(
                    start as int,
                    i as int,
                ).push(c));
            }
        }
        i = i + 1;
    }
    assert(content@.take(len as int) =~= content@);
    if start < len {
        let line = content.substring_char(start, len).to_owned();
        let ghost before = r@;
        r.push(line);
        assert(r@.map_values(|l: String| l@) =~= before.map_values(|l: String| l@).push(
            content@.subrange(start as int, len as int),
        ));
    }
    r
}

impl TodoList {
    /// Replaces the whole list by one task for each line of `content`.
    pub fn load_contents(&mut self, content: &str)
        requires
            old(self).wf(),
        ensures
            final(self).wf(),
            final(self).is_editing == old(self).is_editing,
            holds_lines(final(self).tasks@, lines_spec(content@)),
    {
        let lines = split_lines(content);
        self.load(&lines);
    }
}

} // verus!
