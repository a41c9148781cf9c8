//! The output pump: from the bytes that a child writes to the lines that
//! are reported.
//!
//! A pump reads its pipe in chunks of any size. `LineFramer` cuts the bytes
//! into complete lines, whatever the chunks are, and `decode_line` turns a
//! line into text without ever failing: bytes that are not valid UTF-8
//! become replacement characters.

use vstd::prelude::*;

verus! {

/// The byte that ends a line.
pub const LINE_FEED: u8 = 10;

/// The byte that may stand before the line feed and then belongs to the
/// line ending.
pub const CARRIAGE_RETURN: u8 = 13;

/// `line` without a carriage return at its end.
pub open spec fn without_return(line: Seq<u8>) -> Seq<u8> {
    if line.len() > 0 && line.last() == CARRIAGE_RETURN {
        line.drop_last()
    } else {
        line
    }
}

/// The complete lines in `bytes` after the line `current` that is being
/// read: each ends with a line feed, which is not part of it, and neither is
/// a carriage return right before the line feed.
pub open spec fn complete_lines(bytes: Seq<u8>, current: Seq<u8>) -> Seq<Seq<u8>>
    decreases bytes.len(),
{
    if bytes.len() == 0 {
        seq![]
    } else if bytes[0] == LINE_FEED {
        seq![without_return(current)] + complete_lines(bytes.drop_first(), seq![])
    } else {
        complete_lines(bytes.drop_first(), current.push(bytes[0]))
    }
}

/// What is left of `bytes` after its last line feed, behind `current`: the
/// beginning of a line that is not complete yet.
pub open spec fn unfinished(bytes: Seq<u8>, current: Seq<u8>) -> Seq<u8>
    decreases bytes.len(),
{
    if bytes.len() == 0 {
        current
    } else if bytes[0] == LINE_FEED {
        unfinished(bytes.drop_first(), seq![])
    } else {
        unfinished(bytes.drop_first(), current.push(bytes[0]))
    }
}

/// The bytes of a list of lines.
pub open spec fn line_bytes(lines: Seq<Vec<u8>>) -> Seq<Seq<u8>> {
    lines.map_values(|l: Vec<u8>| l@)
}

/// Cuts a stream of bytes into lines.
#[derive(Debug)]
pub struct LineFramer {
    pending: Vec<u8>,
}

impl View for LineFramer {
    type V = Seq<u8>;

    /// The beginning of the line that is being read.
    closed spec fn view(&self) -> Seq<u8> {
        self.pending@
    }
}

impl LineFramer {
    /// A framer that has read nothing.
    pub fn new() -> (framer: Self)
        ensures
            framer@ == Seq::<u8>::empty(),
    {
        LineFramer { pending: Vec::new() }
    }

    /// Takes in the next chunk of the stream and returns the lines that it
    /// completes, in order.
    pub fn feed(&mut self, chunk: &[u8]) -> (lines: Vec<Vec<u8>>)
        ensures
            line_bytes(lines@) == complete_lines(chunk@, old(self)@),
            final(self)@ == unfinished(chunk@, old(self)@),
    {
        let mut lines: Vec<Vec<u8>> = Vec::new();
        let mut i: usize = 0;
        assert(chunk@.skip(0) =~= chunk@);
        assert(line_bytes(lines@) =~= Seq::<Seq<u8>>::empty());
        while i < chunk.len()
            invariant
                i <= chunk@.len(),
                line_bytes(lines@) + complete_lines(chunk@.skip(i as int), self.pending@)
                    == complete_lines(chunk@, old(self)@),
                unfinished(chunk@.skip(i as int), self.pending@) == unfinished(chunk@, old(self)@),
            decreases chunk@.len() - i,
        {
            let ghost rest = chunk@.skip(i as int);
            let ghost shown = line_bytes(lines@);
            let ghost before = self.pending@;
            assert(rest[0] == chunk@[i as int]);
            assert(rest.drop_first() =~= chunk@.skip(i + 1));
            if chunk[i] == LINE_FEED {
                let mut line: Vec<u8> = Vec::new();
                core::mem::swap(&mut self.pending, &mut line);
                let n = line.len();
                if n > 0 && line[n - 1] == CARRIAGE_RETURN {
                    line.pop();
                }
                assert(line@ =~= without_return(before));
                lines.push(line);
                assert(line_bytes(lines@) =~= shown + seq![without_return(before)]);
                assert(self.pending@ =~= Seq::<u8>::empty());
                assert(line_bytes(lines@) + complete_lines(chunk@.skip(i + 1), seq![]) =~= shown
                    + complete_lines(rest, before));
            } else {
                self.pending.push(chunk[i]);
            }
            i += 1;
        }
        assert(line_bytes(lines@) + Seq::<Seq<u8>>::empty() =~= line_bytes(lines@));
        lines
    }

    /// Ends the stream: what was read of a last line without a line feed is
    /// a line too, unless it is empty.
    pub fn finish(self) -> (last: Option<Vec<u8>>)
        ensures
            last is Some <==> self@.len() > 0,
            last is Some ==> last->Some_0@ == self@,
    {
        if self.pending.len() > 0 {
            Some(self.pending)
        } else {
            None
        }
    }
}

/// Framing does not depend on how the stream is cut into chunks: feeding
/// `first` and then `second` completes the same lines, and leaves the same
/// unfinished line, as feeding both at once.
pub proof fn law_framing_ignores_chunks(first: Seq<u8>, second: Seq<u8>, current: Seq<u8>)
    ensures
        complete_lines(first + second, current) == complete_lines(first, current) + complete_lines(
            second,
            unfinished(first, current),
        ),
        unfinished(first + second, current) == unfinished(second, unfinished(first, current)),
    decreases first.len(),
{
    if first.len() == 0 {
        assert(first + second =~= second);
        assert(complete_lines(first, current) + complete_lines(second, current)
            =~= complete_lines(second, current));
    } else {
        assert((first + second).drop_first() =~= first.drop_first() + second);
        assert((first + second)[0] == first[0]);
        if first[0] == LINE_FEED {
            law_framing_ignores_chunks(first.drop_first(), second, seq![]);
            assert(complete_lines(first + second, current) =~= complete_lines(first, current)
                + complete_lines(second, unfinished(first, current)));
        } else {
            law_framing_ignores_chunks(first.drop_first(), second, current.push(first[0]));
        }
    }
}

/// What `String::from_utf8_lossy` makes of a line: its text, with the
/// replacement character in the place of every maximal run of bytes that is
/// not valid UTF-8.
pub uninterp spec fn lossy_text(bytes: Seq<u8>) -> Seq<char>;

/// Decodes a line leniently. It never fails.
///
/// Calls `String::from_utf8_lossy`, whose result depends on the bytes
/// alone.
#[verifier::external_body]
fn from_utf8_lossy(bytes: &[u8]) -> (text: String)
    ensures
        text@ == lossy_text(bytes@),
{
    String::from_utf8_lossy(bytes).into_owned()
}

/// The text of one line of output.
pub fn decode_line(line: &Vec<u8>) -> (text: String)
    ensures
        text@ == lossy_text(line@),
{
    from_utf8_lossy(line.as_slice())
}

} // verus!
