use vstd::prelude::*;

verus! {

/// A line as it is shown: a trailing carriage return, left over from a
/// `\r\n` ending, is not part of it.
pub open spec fn strip_cr(line: Seq<char>) -> Seq<char> {
    if line.len() > 0 && line.last() == '\r' {
        line.drop_last()
    } else {
        line
    }
}

/// The display lines of `s[start..]`, where `s[start..i]` is already known to
/// hold no line feed. Each line ends at a `\n` (which is dropped, with a `\r`
/// just before it); a last line without a terminator counts only when it is
/// not empty.
pub open spec fn lines_from(s: Seq<char>, start: int, i: int) -> Seq<Seq<char>>
    decreases s.len() - i,
{
    if i >= s.len() {
        if start < s.len() {
            seq![s.subrange(start, s.len() as int)]
        } else {
            Seq::empty()
        }
    } else if s[i] == '\n' {
        seq![strip_cr(s.subrange(start, i))] + lines_from(s, i + 1, i + 1)
    } else {
        lines_from(s, start, i + 1)
    }
}

/// The display lines of a block of text.
pub open spec fn lines_of(s: Seq<char>) -> Seq<Seq<char>> {
    lines_from(s, 0, 0)
}

/// The character at `i`: read in constant time when the text is all ASCII,
/// by decoding from the start otherwise.
fn char_at(content: &str, ascii: bool, i: usize) -> (c: char)
    requires
        ascii == content.is_ascii(),
        i < content@.len(),
    ensures
        c == content@[i as int],
{
    if ascii {
        let b = content.get_ascii(i);
        b as char
    } else {
        content.get_char(i)
    }
}

/// The characters `from..to` of the text, as an owned string.
fn slice_of(content: &str, ascii: bool, from: usize, to: usize) -> (r: String)
    requires
        ascii == content.is_ascii(),
        from <= to <= content@.len(),
    ensures
        r@ == content@.subrange(from as int, to as int),
{
    if ascii {
        content.substring_ascii(from, to).to_owned()
    } else {
        content.substring_char(from, to).to_owned()
    }
}

/// Splits `content` into the lines that are shown above the viewport.
pub fn display_lines(content: &str) -> (r: Vec<String>)
    ensures
        r@.len() == lines_of(content@).len(),
        forall|k: int| 0 <= k < r@.len() ==> #[trigger] r@[k]@ == lines_of(content@)[k],
{
    let ascii = content.is_ascii();
    let n = content.unicode_len();
    let mut out: Vec<String> = Vec::new();
    let mut start: usize = 0;
    let mut i: usize = 0;
    while i < n
        invariant
            n == content@.len(),
            ascii == content.is_ascii(),
            start <= i <= n,
            out@.map_values(|l: String| l@) + lines_from(content@, start as int, i as int)
                == lines_of(content@),
        decreases n - i,
    {
        let c = char_at(content, ascii, i);
        if c == '\n' {
            let mut end: usize = i;
            if end > start && char_at(content, ascii, end - 1) == '\r' {
                end = end - 1;
            }
            let line = slice_of(content, ascii, start, end);
            proof {
                let s = content@;
                assert(line@ == strip_cr(s.subrange(start as int, i as int)));
                assert(lines_from(s, start as int, i as int) == seq![strip_cr(
                    s.subrange(start as int, i as int),
                )] + lines_from(s, i + 1, i + 1));
            }
            out.push(line);
            proof {
                let s = content@;
                assert(out@.map_values(|l: String| l@) + lines_from(s, i + 1, i + 1)
                    =~= lines_of(s));
            }
            start = i + 1;
        }
        i = i + 1;
    }
    if start < n {
        let line = slice_of(content, ascii, start, n);
        out.push(line);
    }
    proof {
        assert(out@.map_values(|l: String| l@) =~= lines_of(content@));
    }
    out
}

/// The largest number of lines that one insertion above the viewport takes.
pub const MAX_INSERT_HEIGHT: u16 = 65535;

/// A run of consecutive lines inserted above the viewport in one go, in a
/// region `height` lines high.
#[derive(Debug)]
pub struct Chunk {
    pub lines: Vec<String>,
    pub height: u16,
}

impl Chunk {
    /// The lines of the chunk.
    pub open spec fn view_lines(&self) -> Seq<Seq<char>> {
        self.lines@.map_values(|l: String| l@)
    }
}

/// The lines of `chunks`, one chunk after the other.
pub open spec fn joined(chunks: Seq<Chunk>) -> Seq<Seq<char>>
    decreases chunks.len(),
{
    if chunks.len() == 0 {
        Seq::empty()
    } else {
        joined(chunks.drop_last()) + chunks.last().view_lines()
    }
}

/// `chunks` inserts exactly `lines`, in order: joined they give `lines`; each
/// chunk is as high as it has lines, holds at least one and at most
/// `MAX_INSERT_HEIGHT`, and only the last may hold fewer than that.
pub open spec fn chunks_of(chunks: Seq<Chunk>, lines: Seq<Seq<char>>) -> bool {
    &&& joined(chunks) == lines
    &&& forall|c: int|
        0 <= c < chunks.len() ==> {
            &&& 1 <= (#[trigger] chunks[c]).lines@.len() <= MAX_INSERT_HEIGHT
            &&& chunks[c].height as int == chunks[c].lines@.len()
            &&& (c + 1 < chunks.len() ==> chunks[c].lines@.len() == MAX_INSERT_HEIGHT)
        }
}

/// Cuts `lines` into the chunks that insert all of them above the viewport.
pub fn insert_chunks(lines: &Vec<String>) -> (r: Vec<Chunk>)
    ensures
        chunks_of(r@, lines@.map_values(|l: String| l@)),
{
    let ghost all = lines@.map_values(|l: String| l@);
    let n = lines.len();
    let max = MAX_INSERT_HEIGHT as usize;
    let mut out: Vec<Chunk> = Vec::new();
    let mut start: usize = 0;
    while start < n
        invariant
            n == lines@.len(),
            all == lines@.map_values(|l: String| l@),
            max == MAX_INSERT_HEIGHT,
            start <= n,
            joined(out@) == all.subrange(0, start as int),
            forall|c: int|
                0 <= c < out@.len() ==> {
                    &&& 1 <= (#[trigger] out@[c]).lines@.len() <= MAX_INSERT_HEIGHT
                    &&& out@[c].height as int == out@[c].lines@.len()
                    &&& (c + 1 < out@.len() || start < n ==> out@[c].lines@.len()
                        == MAX_INSERT_HEIGHT)
                },
        decreases n - start,
    {
        let end: usize = if n - start > max {
            start + max
        } else {
            n
        };
        let mut chunk: Vec<String> = Vec::new();
        let mut i: usize = start;
        while i < end
            invariant
                n == lines@.len(),
                all == lines@.map_values(|l: String| l@),
                start <= i <= end <= n,
                chunk@.map_values(|l: String| l@) == all.subrange(start as int, i as int),
                chunk@.len() == i - start,
            decreases end - i,
        {
            chunk.push(lines[i].clone());
            proof {
                assert(chunk@.map_values(|l: String| l@) =~= all.subrange(start as int, i + 1));
            }
            i = i + 1;
        }
        let ghost before = out@;
        let height = (end - start) as u16;
        out.push(Chunk { lines: chunk, height });
        proof {
            assert(out@.drop_last() == before);
            assert(joined(out@) =~= all.subrange(0, end as int));
        }
        start = end;
    }
    proof {
        assert(all.subrange(0, n as int) =~= all);
    }
    out
}

} // verus!
