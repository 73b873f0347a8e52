//! The reader: it takes logical lines off a byte source, unfolds them, and assembles the
//! properties that they declare into a card.

use crate::card::{empty_card, fold_property, VCard, VCardView};
use crate::errors::{ErrorView, IoFailure, VCardError};
use crate::model::{Payload, PropertyKind, PropertyView};
use crate::property::{decode_line, Property};
use crate::text::{same_text, text_from_utf8};
use vstd::prelude::*;
use vstd::slice::slice_to_vec;
use vstd::string::*;
use vstd::utf8::{decode_utf8, valid_utf8};

verus! {

/// The line length that a reader allows unless told otherwise.
pub const DEFAULT_MAX_LINE_LENGTH: u64 = 5000;

/// The number of bytes that the scratch buffer for thrown-away lines holds at most.
pub const SCRATCH_SIZE: usize = 1024;

/// How many bytes one `read` hands out: from the returned bytes alone while there are any,
/// else from the source.
pub open spec fn read_count(returned: nat, rest: nat, n: nat) -> nat {
    if returned == 0 {
        if n <= rest {
            n
        } else {
            rest
        }
    } else if n <= returned {
        n
    } else {
        returned
    }
}

/// A byte source that can take back up to two bytes that were read from it.
pub struct PushbackReader {
    input: Vec<u8>,
    pos: usize,
    buf: [u8; 2],
    // never more than 2
    num_returned_bytes: usize,
}

impl View for PushbackReader {
    type V = Seq<u8>;

    /// The bytes that are still to be read: the returned ones, then the rest of the source.
    closed spec fn view(&self) -> Seq<u8> {
        self.returned() + self.rest()
    }
}

impl PushbackReader {
    #[verifier::type_invariant]
    spec fn well_formed(&self) -> bool {
        self.pos <= self.input@.len() && self.num_returned_bytes <= 2
    }

    /// The bytes that were returned and not read again.
    pub closed spec fn returned(&self) -> Seq<u8> {
        self.buf@.take(self.num_returned_bytes as int)
    }

    /// The part of the source that was never read.
    pub closed spec fn rest(&self) -> Seq<u8> {
        self.input@.skip(self.pos as int)
    }

    /// A reader over `input`, with no byte returned.
    pub fn new(input: Vec<u8>) -> (r: PushbackReader)
        ensures
            r@ == input@,
            r.returned().len() == 0,
            r.rest() == input@,
    {
        let r = PushbackReader { input, pos: 0, buf: [0, 0], num_returned_bytes: 0 };
        assert(r.returned() =~= Seq::<u8>::empty());
        assert(r.rest() =~= input@);
        assert(r@ =~= input@);
        r
    }

    /// Gives one byte back. It stands after the bytes returned before; with two bytes
    /// already returned, those are dropped first.
    pub fn return_byte(&mut self, b: u8)
        ensures
            final(self).returned() == if old(self).returned().len() >= 2 {
                seq![b]
            } else {
                old(self).returned().push(b)
            },
            final(self).rest() == old(self).rest(),
            final(self)@ == final(self).returned() + final(self).rest(),
    {
        proof {
            use_type_invariant(&*self);
        }
        if self.num_returned_bytes >= 2 {
            self.num_returned_bytes = 0;
        }
        if self.num_returned_bytes == 0 {
            self.buf = [b, self.buf[1]];
        } else {
            self.buf = [self.buf[0], b];
        }
        self.num_returned_bytes = self.num_returned_bytes + 1;
        assert(self.returned() =~= if old(self).returned().len() >= 2 {
            seq![b]
        } else {
            old(self).returned().push(b)
        });
    }

    /// Gives two bytes back; bytes returned before are dropped.
    pub fn return_bytes(&mut self, b: [u8; 2])
        ensures
            final(self).returned() == seq![b[0], b[1]],
            final(self).rest() == old(self).rest(),
            final(self)@ == final(self).returned() + final(self).rest(),
    {
        proof {
            use_type_invariant(&*self);
        }
        self.buf = b;
        self.num_returned_bytes = 2;
        assert(self.returned() =~= seq![b[0], b[1]]);
    }

    /// Reads up to `n` bytes. While returned bytes are left, only those are handed out.
    pub fn read(&mut self, n: usize) -> (r: Vec<u8>)
        ensures
            r@ == old(self)@.take(
                read_count(old(self).returned().len(), old(self).rest().len(), n as nat) as int,
            ),
            final(self).returned() == if old(self).returned().len() > 0 && r@.len() == 1 {
                old(self).returned().skip(1)
            } else {
                Seq::<u8>::empty()
            },
            final(self).rest() == if old(self).returned().len() > 0 {
                old(self).rest()
            } else {
                old(self).rest().skip(r@.len() as int)
            },
            final(self)@ == final(self).returned() + final(self).rest(),
    {
        proof {
            use_type_invariant(&*self);
        }
        let ghost before = self@;
        let mut r: Vec<u8> = Vec::new();
        if self.num_returned_bytes == 0 {
            let left = self.input.len() - self.pos;
            let k = if n <= left {
                n
            } else {
                left
            };
            let mut i: usize = 0;
            while i < k
                invariant
                    i <= k,
                    self.pos + k <= self.input.len(),
                    r@ == self.input@.subrange(self.pos as int, self.pos + i),
                decreases k - i,
            {
                r.push(self.input[self.pos + i]);
                i += 1;
                assert(self.input@.subrange(self.pos as int, self.pos + i) =~= self.input@.subrange(
                    self.pos as int,
                    self.pos + i - 1,
                ).push(self.input@[self.pos + i - 1]));
            }
            assert(old(self).returned() =~= Seq::<u8>::empty());
            assert(r@ =~= before.take(k as int));
            self.pos = self.pos + k;
            assert(self.rest() =~= old(self).rest().skip(k as int));
            assert(self.returned() =~= Seq::<u8>::empty());
            return r;
        }
        if n >= 1 {
            r.push(self.buf[0]);
        }
        if n >= 2 && self.num_returned_bytes == 2 {
            r.push(self.buf[1]);
        }
        assert(r@ =~= before.take(
            read_count(old(self).returned().len(), old(self).rest().len(), n as nat) as int,
        ));
        if r.len() == 1 {
            self.buf = [self.buf[1], self.buf[1]];
            self.num_returned_bytes = self.num_returned_bytes - 1;
            assert(self.returned() =~= old(self).returned().skip(1));
        } else {
            self.num_returned_bytes = 0;
            assert(self.returned() =~= Seq::<u8>::empty());
        }
        r
    }

    /// The bytes that are still to be read; the reader is given up.
    pub fn into_rest(self) -> (r: Vec<u8>)
        ensures
            r@ == self@,
    {
        proof {
            use_type_invariant(&self);
        }
        let mut r: Vec<u8> = Vec::new();
        if self.num_returned_bytes >= 1 {
            r.push(self.buf[0]);
        }
        if self.num_returned_bytes >= 2 {
            r.push(self.buf[1]);
        }
        assert(r@ =~= self.returned());
        let mut i: usize = self.pos;
        while i < self.input.len()
            invariant
                self.pos <= i <= self.input.len(),
                r@ == self.returned() + self.input@.subrange(self.pos as int, i as int),
            decreases self.input.len() - i,
        {
            r.push(self.input[i]);
            i += 1;
            assert(self.input@.subrange(self.pos as int, i as int) =~= self.input@.subrange(
                self.pos as int,
                i - 1,
            ).push(self.input@[i - 1]));
            assert(r@ =~= self.returned() + self.input@.subrange(self.pos as int, i as int));
        }
        assert(self.input@.subrange(self.pos as int, self.input@.len() as int) =~= self.rest());
        r
    }

    /// Reads exactly `n` bytes, or fails at the end of the source, with all of it read.
    pub fn read_exact(&mut self, n: usize) -> (r: Result<Vec<u8>, VCardError>)
        ensures
            match r {
                Ok(bytes) => n <= old(self)@.len() && bytes@ == old(self)@.take(n as int)
                    && final(self)@ == old(self)@.skip(n as int),
                Err(e) => n > old(self)@.len() && e@ == ErrorView::Io(IoFailure::UnexpectedEof)
                    && final(self)@.len() == 0,
            },
            r is Ok && (2 <= n || (0 < n && old(self).returned().len() <= n))
                ==> final(self).returned().len() == 0 && final(self).rest() == final(self)@,
            r is Ok && 0 < n ==> final(self).returned().len() == 0 || final(self).returned().len()
                < old(self).returned().len(),
    {
        let mut out: Vec<u8> = Vec::new();
        proof {
            use_type_invariant(&*self);
            assert(out@ + self@ =~= old(self)@);
        }
        while out.len() < n
            invariant
                out@.len() <= n,
                out@ + self@ == old(self)@,
                self@ == self.returned() + self.rest(),
                self.returned().len() <= 2,
                old(self).returned().len() <= n ==> (out@.len() == 0 && self.returned()
                    == old(self).returned()) || self.returned().len() == 0,
                (out@.len() == 0 && self.returned() == old(self).returned())
                    || self.returned().len() == 0
                    || self.returned().len() < old(self).returned().len(),
            decreases n - out@.len(),
        {
            let ghost now = self@;
            let ghost got = out@;
            let mut chunk = self.read(n - out.len());
            if chunk.len() == 0 {
                return Err(VCardError::Io(IoFailure::UnexpectedEof));
            }
            out.append(&mut chunk);
            proof {
                use_type_invariant(&*self);
                assert(out@ + self@ =~= got + now);
            }
        }
        proof {
            assert(out@ =~= old(self)@.take(n as int));
            assert(self@ =~= old(self)@.skip(n as int));
            if 2 <= n || (0 < n && old(self).returned().len() <= n) {
                assert(self.rest() =~= self@);
            }
        }
        Ok(out)
    }
}

/// Whether `b` is a space or a horizontal tab: the mark of a folded line.
pub open spec fn is_fold(b: u8) -> bool {
    b == 32 || b == 9
}

/// Whether `b` is a space, a tab, a line feed or a carriage return.
pub open spec fn is_blank(b: u8) -> bool {
    b == 32 || b == 9 || b == 10 || b == 13
}

/// How the reading of one physical line ended.
pub enum LineEnd {
    /// A carriage return and a line feed were read.
    Complete,
    /// The buffer held more than the allowed number of bytes.
    TooLong,
    /// The source ended first.
    Eof,
}

/// The reading of one physical line: how it ended, what the buffer then holds, and what is
/// left of the source.
pub struct LineScan {
    pub end: LineEnd,
    pub buf: Seq<u8>,
    pub rest: Seq<u8>,
}

/// Reads one physical line from `input` into `buf`. Before each byte is read, the buffer
/// must hold no more than `max` bytes. A carriage return is never stored: followed by a
/// line feed it ends the line; followed by any other byte it is dropped, and the reading
/// goes on at that byte, which may itself be the carriage return of the line break.
pub open spec fn scan_line(input: Seq<u8>, buf: Seq<u8>, max: u64) -> LineScan
    decreases input.len(),
{
    if buf.len() > max {
        LineScan { end: LineEnd::TooLong, buf, rest: input }
    } else if input.len() == 0 {
        LineScan { end: LineEnd::Eof, buf, rest: input }
    } else if input[0] != 13 {
        scan_line(input.skip(1), buf.push(input[0]), max)
    } else if input.len() == 1 {
        LineScan { end: LineEnd::Eof, buf, rest: Seq::empty() }
    } else if input[1] == 10 {
        LineScan { end: LineEnd::Complete, buf, rest: input.skip(2) }
    } else {
        scan_line(input.skip(1), buf, max)
    }
}

/// A physical line that was read to its end took at least two bytes off the source and
/// left no more in the buffer than allowed.
pub proof fn lemma_scan_line(input: Seq<u8>, buf: Seq<u8>, max: u64)
    ensures
        scan_line(input, buf, max).rest.len() <= input.len(),
        scan_line(input, buf, max).end is Complete ==> scan_line(input, buf, max).rest.len() + 2
            <= input.len() && scan_line(input, buf, max).buf.len() <= max,
        scan_line(input, buf, max).end is Eof ==> scan_line(input, buf, max).rest.len() == 0,
        buf.len() <= scan_line(input, buf, max).buf.len(),
    decreases input.len(),
{
    if buf.len() > max {
    } else if input.len() == 0 {
    } else if input[0] != 13 {
        lemma_scan_line(input.skip(1), buf.push(input[0]), max);
    } else if input.len() == 1 {
    } else if input[1] == 10 {
    } else {
        lemma_scan_line(input.skip(1), buf, max);
    }
}

/// A physical line leaves no carriage return in a buffer that held none.
pub proof fn lemma_scan_line_plain(input: Seq<u8>, buf: Seq<u8>, max: u64)
    requires
        forall|i: int| 0 <= i < buf.len() ==> #[trigger] buf[i] != 13,
    ensures
        forall|i: int|
            0 <= i < scan_line(input, buf, max).buf.len() ==> #[trigger] scan_line(
                input,
                buf,
                max,
            ).buf[i] != 13,
    decreases input.len(),
{
    if buf.len() > max {
    } else if input.len() == 0 {
    } else if input[0] != 13 {
        lemma_scan_line_plain(input.skip(1), buf.push(input[0]), max);
    } else if input.len() == 1 {
    } else if input[1] == 10 {
    } else {
        lemma_scan_line_plain(input.skip(1), buf, max);
    }
}

/// What is left of `input` after one physical line was passed over, or nothing if the
/// source ends before the line does. The line is not kept, so it may have any length.
pub open spec fn skip_line(input: Seq<u8>) -> Option<Seq<u8>>
    decreases input.len(),
{
    if input.len() == 0 {
        None
    } else if input[0] != 13 {
        skip_line(input.skip(1))
    } else if input.len() == 1 {
        None
    } else if input[1] == 10 {
        Some(input.skip(2))
    } else {
        skip_line(input.skip(1))
    }
}

/// A physical line that was passed over took at least two bytes off the source.
pub proof fn lemma_skip_line(input: Seq<u8>)
    ensures
        skip_line(input) is Some ==> skip_line(input)->Some_0.len() + 2 <= input.len(),
    decreases input.len(),
{
    if input.len() == 0 {
    } else if input[0] != 13 {
        lemma_skip_line(input.skip(1));
    } else if input.len() == 1 {
    } else if input[1] == 10 {
    } else {
        lemma_skip_line(input.skip(1));
    }
}

/// What the two bytes after a line break say of the line that follows.
#[derive(Debug, Clone, Copy, PartialEq, Eq)]
pub enum LineInspection {
    /// Fewer than two bytes are left.
    NoMoreContent,
    /// A fold mark followed by another blank: the physical line is to be thrown away.
    Discard,
    /// A fold mark followed by content: the logical line goes on.
    LogicalLine,
    /// No fold mark: the next property begins.
    NewProperty,
}

/// What follows a line break in `input`.
pub open spec fn inspect(input: Seq<u8>) -> LineInspection {
    if input.len() < 2 {
        LineInspection::NoMoreContent
    } else if !is_fold(input[0]) {
        LineInspection::NewProperty
    } else if is_blank(input[1]) {
        LineInspection::Discard
    } else {
        LineInspection::LogicalLine
    }
}

/// What is left to read after the inspection: everything, but for a fold mark that was
/// taken off, or nothing where fewer than two bytes were left.
pub open spec fn after_inspect(input: Seq<u8>) -> Seq<u8> {
    match inspect(input) {
        LineInspection::NoMoreContent => Seq::empty(),
        LineInspection::LogicalLine => input.skip(1),
        _ => input,
    }
}

/// How the reading of one logical line ended.
pub enum LineOutcome {
    /// The line, unfolded and without its line breaks; `more` says whether content follows.
    Line { bytes: Seq<u8>, more: bool },
    TooLong,
    Eof,
}

/// The reading of one logical line: how it ended, and what is left of the source.
pub struct LineResult {
    pub outcome: LineOutcome,
    pub rest: Seq<u8>,
}

/// The rest of a logical line whose first physical line is in `buf`: each folded line is
/// added to `buf` without its fold mark, each line to throw away is passed over, until a
/// line begins without a fold mark or fewer than two bytes are left.
pub open spec fn continue_line(input: Seq<u8>, buf: Seq<u8>, max: u64) -> LineResult
    decreases input.len(),
{
    match inspect(input) {
        LineInspection::NoMoreContent => LineResult {
            outcome: LineOutcome::Line { bytes: buf, more: false },
            rest: Seq::empty(),
        },
        LineInspection::NewProperty => LineResult {
            outcome: LineOutcome::Line { bytes: buf, more: true },
            rest: input,
        },
        LineInspection::Discard => {
            match skip_line(input) {
                Some(rest) => {
                    proof {
                        lemma_skip_line(input);
                    }
                    continue_line(rest, buf, max)
                },
                None => LineResult { outcome: LineOutcome::Eof, rest: Seq::empty() },
            }
        },
        LineInspection::LogicalLine => {
            let s = scan_line(input.skip(1), buf, max);
            match s.end {
                LineEnd::Complete => {
                    proof {
                        lemma_scan_line(input.skip(1), buf, max);
                    }
                    continue_line(s.rest, s.buf, max)
                },
                LineEnd::TooLong => LineResult { outcome: LineOutcome::TooLong, rest: s.rest },
                LineEnd::Eof => LineResult { outcome: LineOutcome::Eof, rest: s.rest },
            }
        },
    }
}

/// The bytes of `END:VCARD`.
pub open spec fn end_line() -> Seq<u8> {
    seq![69u8, 78u8, 68u8, 58u8, 86u8, 67u8, 65u8, 82u8, 68u8]
}

/// One logical line off `input`. The end of the source in the middle of the first physical
/// line is an error, unless what was read is exactly `END:VCARD`.
pub open spec fn logical_line(input: Seq<u8>, max: u64) -> LineResult {
    let s = scan_line(input, Seq::empty(), max);
    match s.end {
        LineEnd::Complete => continue_line(s.rest, s.buf, max),
        LineEnd::TooLong => LineResult { outcome: LineOutcome::TooLong, rest: s.rest },
        LineEnd::Eof => if s.buf == end_line() {
            continue_line(s.rest, s.buf, max)
        } else {
            LineResult { outcome: LineOutcome::Eof, rest: s.rest }
        },
    }
}

/// The rest of a logical line leaves no more of the source than there was.
pub proof fn lemma_continue_line(input: Seq<u8>, buf: Seq<u8>, max: u64)
    ensures
        continue_line(input, buf, max).rest.len() <= input.len(),
    decreases input.len(),
{
    match inspect(input) {
        LineInspection::Discard => {
            lemma_skip_line(input);
            match skip_line(input) {
                Some(rest) => {
                    lemma_continue_line(rest, buf, max);
                },
                None => {},
            }
        },
        LineInspection::LogicalLine => {
            let s = scan_line(input.skip(1), buf, max);
            lemma_scan_line(input.skip(1), buf, max);
            if s.end is Complete {
                lemma_continue_line(s.rest, s.buf, max);
            }
        },
        _ => {},
    }
}

/// A logical line that was read took at least one byte off the source.
pub proof fn lemma_logical_line(input: Seq<u8>, max: u64)
    ensures
        logical_line(input, max).rest.len() <= input.len(),
        logical_line(input, max).outcome is Line ==> logical_line(input, max).rest.len()
            < input.len(),
{
    let s = scan_line(input, Seq::empty(), max);
    lemma_scan_line(input, Seq::empty(), max);
    lemma_continue_line(s.rest, s.buf, max);
    if s.end is Eof && s.buf == end_line() {
        assert(s.buf.len() == 9);
        lemma_scan_consumes(input, Seq::empty(), max);
    }
}

/// Each byte that a physical line adds to the buffer was taken off the source.
pub proof fn lemma_scan_consumes(input: Seq<u8>, buf: Seq<u8>, max: u64)
    ensures
        scan_line(input, buf, max).buf.len() - buf.len() + scan_line(input, buf, max).rest.len()
            <= input.len(),
    decreases input.len(),
{
    if buf.len() > max {
    } else if input.len() == 0 {
    } else if input[0] != 13 {
        lemma_scan_consumes(input.skip(1), buf.push(input[0]), max);
    } else if input.len() == 1 {
    } else if input[1] == 10 {
    } else {
        lemma_scan_consumes(input.skip(1), buf, max);
    }
}

/// The error that an unfinished line ends in.
pub open spec fn line_error(end: LineEnd, max: u64) -> ErrorView {
    match end {
        LineEnd::TooLong => ErrorView::MaxLineLengthExceeded(max),
        _ => ErrorView::Io(IoFailure::UnexpectedEof),
    }
}

/// Reads one physical line from `inner` into `buf`.
pub fn read_line_into(inner: &mut PushbackReader, max: u64, buf: &mut Vec<u8>) -> (r: Result<
    (),
    VCardError,
>)
    ensures
        final(buf)@ == scan_line(old(inner)@, old(buf)@, max).buf,
        final(inner)@ == scan_line(old(inner)@, old(buf)@, max).rest,
        match r {
            Ok(()) => scan_line(old(inner)@, old(buf)@, max).end is Complete,
            Err(e) => !(scan_line(old(inner)@, old(buf)@, max).end is Complete) && e@
                == line_error(scan_line(old(inner)@, old(buf)@, max).end, max),
        },
{
    loop
        invariant
            scan_line(inner@, buf@, max) == scan_line(old(inner)@, old(buf)@, max),
        decreases inner@.len(),
    {
        if buf.len() as u64 > max {
            return Err(VCardError::MaxLineLengthExceeded(max));
        }
        let ghost input = inner@;
        proof {
            use_type_invariant(&*inner);
        }
        let first = match inner.read_exact(1) {
            Ok(b) => b[0],
            Err(e) => {
                assert(input.len() == 0);
                assert(inner@ =~= input);
                return Err(e);
            },
        };
        assert(first == input[0]);
        if first == 13 {
            let second = match inner.read_exact(1) {
                Ok(b) => b[0],
                Err(e) => {
                    assert(input.len() == 1);
                    assert(inner@ =~= Seq::<u8>::empty());
                    return Err(e);
                },
            };
            assert(second == input[1]);
            assert(inner@ =~= input.skip(2));
            if second == 10 {
                return Ok(());
            }
            // not a line break: the byte is looked at again, it may begin one
            assert(inner.returned().len() == 0);
            inner.return_byte(second);
            assert(inner@ =~= input.skip(1));
        } else {
            buf.push(first);
        }
    }
}

/// Passes over one physical line of `inner`. The bytes go through `scratch`, which is
/// emptied whenever it holds `SCRATCH_SIZE` bytes, so that it never grows beyond that.
pub fn skip_line_of(inner: &mut PushbackReader, scratch: &mut Vec<u8>) -> (r: Result<
    (),
    VCardError,
>)
    ensures
        match skip_line(old(inner)@) {
            Some(rest) => r is Ok && final(inner)@ == rest,
            None => r is Err && r->Err_0@ == ErrorView::Io(IoFailure::UnexpectedEof)
                && final(inner)@.len() == 0,
        },
{
    scratch.clear();
    loop
        invariant
            skip_line(inner@) == skip_line(old(inner)@),
        decreases inner@.len(),
    {
        let ghost input = inner@;
        proof {
            use_type_invariant(&*inner);
        }
        let first = match inner.read_exact(1) {
            Ok(b) => b[0],
            Err(e) => {
                assert(input.len() == 0);
                return Err(e);
            },
        };
        assert(first == input[0]);
        if first == 13 {
            let second = match inner.read_exact(1) {
                Ok(b) => b[0],
                Err(e) => {
                    assert(input.len() == 1);
                    return Err(e);
                },
            };
            assert(second == input[1]);
            assert(inner@ =~= input.skip(2));
            if second == 10 {
                return Ok(());
            }
            assert(inner.returned().len() == 0);
            inner.return_byte(second);
            assert(inner@ =~= input.skip(1));
        } else {
            if scratch.len() >= SCRATCH_SIZE {
                scratch.clear();
            }
            scratch.push(first);
        }
    }
}

/// A reader that takes vCard properties off a byte source one by one.
///
/// A property can span several physical lines; together they are its logical line.
/// `max_logical_line_length` bounds the bytes that are buffered for one line.
pub struct VCardReader {
    inner: PushbackReader,
    discard_buf: Vec<u8>,
    pub max_logical_line_length: u64,
}

/// A reader as a mathematical value. The scratch buffer is no part of it: what it holds
/// never shows.
pub struct ReaderView {
    /// The bytes that are still to be read.
    pub input: Seq<u8>,
    pub max: u64,
}

impl View for VCardReader {
    type V = ReaderView;

    closed spec fn view(&self) -> ReaderView {
        ReaderView { input: self.inner@, max: self.max_logical_line_length }
    }
}

/// The reader after one logical line was read.
pub open spec fn after_line(r: ReaderView) -> ReaderView {
    ReaderView { input: logical_line(r.input, r.max).rest, max: r.max }
}

/// The text of the next logical line and whether content follows it, or the error that
/// reading it ends in.
pub open spec fn next_line(r: ReaderView) -> Result<(Seq<char>, bool), ErrorView> {
    match logical_line(r.input, r.max).outcome {
        LineOutcome::Line { bytes, more } => if valid_utf8(bytes) {
            Ok((decode_utf8(bytes), more))
        } else {
            Err(ErrorView::FromUtf8)
        },
        LineOutcome::TooLong => Err(ErrorView::MaxLineLengthExceeded(r.max)),
        LineOutcome::Eof => Err(ErrorView::Io(IoFailure::UnexpectedEof)),
    }
}

/// The next property and whether content follows it.
pub open spec fn next_property(r: ReaderView) -> Result<(PropertyView, bool), ErrorView> {
    match next_line(r) {
        Ok((line, more)) => match decode_line(line) {
            Ok(p) => Ok((p, more)),
            Err(e) => Err(e),
        },
        Err(e) => Err(e),
    }
}

/// The card that the properties from `r` on complete, starting from the card `c`.
pub open spec fn accumulate(r: ReaderView, c: VCardView) -> Result<VCardView, ErrorView>
    decreases r.input.len(),
{
    match next_property(r) {
        Err(e) => Err(e),
        Ok((p, more)) => match fold_property(c, p, more) {
            Err(e) => Err(e),
            Ok((next, done)) => if done {
                Ok(next)
            } else {
                proof {
                    lemma_logical_line(r.input, r.max);
                }
                accumulate(after_line(r), next)
            },
        },
    }
}

/// The reader after `accumulate` ran: it stops behind the property that ended the card or
/// that failed.
pub open spec fn after_accumulate(r: ReaderView, c: VCardView) -> ReaderView
    decreases r.input.len(),
{
    match next_property(r) {
        Err(e) => after_line(r),
        Ok((p, more)) => match fold_property(c, p, more) {
            Err(e) => after_line(r),
            Ok((next, done)) => if done {
                after_line(r)
            } else {
                proof {
                    lemma_logical_line(r.input, r.max);
                }
                after_accumulate(after_line(r), next)
            },
        },
    }
}

/// The version that a `VERSION` property declares.
pub open spec fn declared_version(p: PropertyView) -> crate::model::VersionValue {
    match p.value {
        Payload::Version(v) => v,
        _ => crate::model::VersionValue::V4,
    }
}

/// Whether `p` is `BEGIN:VCARD`.
pub open spec fn is_begin(p: PropertyView) -> bool {
    p.kind == PropertyKind::Begin && p.value == Payload::Text("VCARD"@)
}

/// The card that `r` holds next: a `BEGIN:VCARD` that content follows, a `VERSION` that
/// content follows, and then properties up to the `END` that ends the card.
pub open spec fn parse_card(r: ReaderView) -> Result<VCardView, ErrorView> {
    match next_property(r) {
        Err(e) => Err(e),
        Ok((b, more)) => if !is_begin(b) {
            Err(ErrorView::InvalidBeginProperty)
        } else if !more {
            Err(ErrorView::InvalidVersionProperty)
        } else {
            let r1 = after_line(r);
            match next_property(r1) {
                Err(e) => Err(e),
                Ok((v, more)) => if v.kind != PropertyKind::Version {
                    Err(ErrorView::InvalidVersionProperty)
                } else if !more {
                    Err(ErrorView::InvalidEndProperty)
                } else {
                    accumulate(after_line(r1), empty_card(declared_version(v)))
                },
            }
        },
    }
}

/// The reader after `parse_card` ran.
pub open spec fn after_parse_card(r: ReaderView) -> ReaderView {
    match next_property(r) {
        Err(e) => after_line(r),
        Ok((b, more)) => if !is_begin(b) || !more {
            after_line(r)
        } else {
            let r1 = after_line(r);
            match next_property(r1) {
                Err(e) => after_line(r1),
                Ok((v, more)) => if v.kind != PropertyKind::Version || !more {
                    after_line(r1)
                } else {
                    after_accumulate(after_line(r1), empty_card(declared_version(v)))
                },
            }
        },
    }
}

/// What reading a line produced, as mathematical values.
pub open spec fn outcome_line(r: Result<(String, bool), VCardError>) -> Result<
    (Seq<char>, bool),
    ErrorView,
> {
    match r {
        Ok((s, more)) => Ok((s@, more)),
        Err(e) => Err(e@),
    }
}

/// What reading a property produced, as mathematical values.
pub open spec fn outcome_property(r: Result<(Property, bool), VCardError>) -> Result<
    (PropertyView, bool),
    ErrorView,
> {
    match r {
        Ok((p, more)) => Ok((p@, more)),
        Err(e) => Err(e@),
    }
}

/// What reading a card produced, as mathematical values.
pub open spec fn outcome_card(r: Result<VCard, VCardError>) -> Result<VCardView, ErrorView> {
    match r {
        Ok(c) => Ok(c@),
        Err(e) => Err(e@),
    }
}

impl VCardReader {
    /// A reader over `input` that allows logical lines of up to 5000 bytes.
    pub fn new(input: &[u8]) -> (r: VCardReader)
        ensures
            r@ == (ReaderView { input: input@, max: 5000 }),
    {
        VCardReader::new_with_logical_line_limit(input, DEFAULT_MAX_LINE_LENGTH)
    }

    /// A reader over `input` that allows logical lines of up to `max_logical_line_length`
    /// bytes.
    pub fn new_with_logical_line_limit(input: &[u8], max_logical_line_length: u64) -> (r:
        VCardReader)
        ensures
            r@ == (ReaderView { input: input@, max: max_logical_line_length }),
    {
        VCardReader {
            inner: PushbackReader::new(slice_to_vec(input)),
            discard_buf: Vec::new(),
            max_logical_line_length,
        }
    }

    /// The bytes that the reader has not taken; the reader is given up. After a failure
    /// these are the bytes behind the failing line.
    pub fn into_rest(self) -> (r: Vec<u8>)
        ensures
            r@ == self@.input,
    {
        self.inner.into_rest()
    }

    /// Looks at the two bytes after a line break. A fold mark before content is taken off;
    /// everything else is given back.
    pub fn inspect_next_line(&mut self) -> (r: LineInspection)
        ensures
            r == inspect(old(self)@.input),
            final(self)@ == (ReaderView { input: after_inspect(old(self)@.input), ..old(self)@ }),
    {
        let ghost input = self.inner@;
        let pair = match self.inner.read_exact(2) {
            Ok(b) => b,
            Err(_) => {
                assert(self.inner@ =~= Seq::<u8>::empty());
                return LineInspection::NoMoreContent;
            },
        };
        let buf: [u8; 2] = [pair[0], pair[1]];
        if buf[0] != 32 && buf[0] != 9 {
            self.inner.return_bytes(buf);
            assert(self.inner@ =~= input);
            return LineInspection::NewProperty;
        }
        if buf[1] == 32 || buf[1] == 9 || buf[1] == 10 || buf[1] == 13 {
            self.inner.return_bytes(buf);
            assert(self.inner@ =~= input);
            LineInspection::Discard
        } else {
            self.inner.return_byte(buf[1]);
            assert(self.inner@ =~= input.skip(1));
            LineInspection::LogicalLine
        }
    }

    /// Reads one physical line into `buf`.
    pub fn read_physical_line(&mut self, buf: &mut Vec<u8>) -> (r: Result<(), VCardError>)
        ensures
            final(buf)@ == scan_line(old(self)@.input, old(buf)@, old(self)@.max).buf,
            final(self)@ == (ReaderView {
                input: scan_line(old(self)@.input, old(buf)@, old(self)@.max).rest,
                ..old(self)@
            }),
            match r {
                Ok(()) => scan_line(old(self)@.input, old(buf)@, old(self)@.max).end is Complete,
                Err(e) => !(scan_line(old(self)@.input, old(buf)@, old(self)@.max).end is Complete)
                    && e@ == line_error(
                    scan_line(old(self)@.input, old(buf)@, old(self)@.max).end,
                    old(self)@.max,
                ),
            },
    {
        read_line_into(&mut self.inner, self.max_logical_line_length, buf)
    }

    /// Reads one physical line and throws it away, however long it is.
    pub fn discard_line(&mut self) -> (r: Result<(), VCardError>)
        ensures
            match skip_line(old(self)@.input) {
                Some(rest) => r is Ok && final(self)@ == (ReaderView { input: rest, ..old(self)@ }),
                None => r is Err && r->Err_0@ == ErrorView::Io(IoFailure::UnexpectedEof)
                    && final(self)@ == (ReaderView { input: Seq::empty(), ..old(self)@ }),
            },
    {
        let r = skip_line_of(&mut self.inner, &mut self.discard_buf);
        proof {
            if r is Err {
                assert(self.inner@ =~= Seq::<u8>::empty());
            }
        }
        r
    }

    /// Reads one logical line: the text of a property, unfolded, and whether content
    /// follows it.
    pub fn read_logical_line(&mut self) -> (r: Result<(String, bool), VCardError>)
        ensures
            final(self)@ == after_line(old(self)@),
            outcome_line(r) == next_line(old(self)@),
    {
        let ghost start = self@;
        let ghost whole = logical_line(start.input, start.max);
        let mut buf: Vec<u8> = Vec::new();
        // a logical line always starts with a new property declaration
        match self.read_physical_line(&mut buf) {
            Ok(()) => {},
            Err(e) => {
                // some producers omit the line break after the last line
                let tolerated = match &e {
                    VCardError::Io(_) => is_end_line(&buf),
                    _ => false,
                };
                if !tolerated {
                    return Err(e);
                }
            },
        }
        let mut more = false;
        let mut done = false;
        while !done
            invariant
                self@.max == start.max,
                start == old(self)@,
                whole == logical_line(start.input, start.max),
                !done ==> continue_line(self@.input, buf@, start.max) == whole,
                done ==> self@ == after_line(start) && whole.outcome == (LineOutcome::Line {
                    bytes: buf@,
                    more,
                }),
            decreases
                    if done {
                        0
                    } else {
                        1 + self@.input.len()
                    },
        {
            let ghost input = self@.input;
            proof {
                lemma_skip_line(input);
                lemma_scan_line(input.skip(1), buf@, start.max);
            }
            match self.inspect_next_line() {
                LineInspection::NewProperty => {
                    more = true;
                    done = true;
                },
                LineInspection::NoMoreContent => {
                    more = false;
                    done = true;
                },
                LineInspection::Discard => {
                    match self.discard_line() {
                        Ok(()) => {},
                        Err(e) => {
                            return Err(e);
                        },
                    }
                },
                LineInspection::LogicalLine => {
                    match self.read_physical_line(&mut buf) {
                        Ok(()) => {},
                        Err(e) => {
                            return Err(e);
                        },
                    }
                },
            }
        }
        match text_from_utf8(buf) {
            Ok(line) => Ok((line, more)),
            Err(e) => Err(VCardError::FromUTF8Error(e)),
        }
    }

    /// Reads the next property, and whether content follows it.
    pub fn read_property(&mut self) -> (r: Result<(Property, bool), VCardError>)
        ensures
            final(self)@ == after_line(old(self)@),
            outcome_property(r) == next_property(old(self)@),
    {
        match self.read_logical_line() {
            Ok((line, more)) => match Property::from_str(line.as_str()) {
                Ok(p) => Ok((p, more)),
                Err(e) => Err(e),
            },
            Err(e) => Err(e),
        }
    }

    /// Reads one card.
    pub fn parse_vcard(&mut self) -> (r: Result<VCard, VCardError>)
        ensures
            final(self)@ == after_parse_card(old(self)@),
            outcome_card(r) == parse_card(old(self)@),
    {
        let (prop, more) = match self.read_property() {
            Ok(x) => x,
            Err(e) => {
                return Err(e);
            },
        };
        let kind = prop.kind();
        let begins = match &prop {
            Property::Begin { value } => same_text(value.as_str(), "VCARD"),
            _ => false,
        };
        assert(begins == is_begin(prop@));
        if !begins {
            return Err(VCardError::InvalidBeginProperty);
        }
        if !more {
            return Err(VCardError::InvalidVersionProperty);
        }
        let (prop, more) = match self.read_property() {
            Ok(x) => x,
            Err(e) => {
                return Err(e);
            },
        };
        if prop.kind() != PropertyKind::Version {
            return Err(VCardError::InvalidVersionProperty);
        }
        let version = match prop {
            Property::Version(v) => v,
            _ => {
                return Err(VCardError::InvalidVersionProperty);
            },
        };
        if !more {
            return Err(VCardError::InvalidEndProperty);
        }
        let mut result = VCard::new(version);
        loop
            invariant
                accumulate(self@, result@) == parse_card(old(self)@),
                after_accumulate(self@, result@) == after_parse_card(old(self)@),
            decreases self@.input.len(),
        {
            let ghost now = self@;
            proof {
                lemma_logical_line(now.input, now.max);
            }
            let (prop, more) = match self.read_property() {
                Ok(x) => x,
                Err(e) => {
                    return Err(e);
                },
            };
            match result.add_property(prop, more) {
                Ok(done) => {
                    if done {
                        return Ok(result);
                    }
                },
                Err(e) => {
                    return Err(e);
                },
            }
        }
    }
}

/// Whether `buf` holds exactly the bytes of `END:VCARD`.
pub fn is_end_line(buf: &Vec<u8>) -> (r: bool)
    ensures
        r == (buf@ == end_line()),
{
    let r = buf.len() == 9 && buf[0] == 69 && buf[1] == 78 && buf[2] == 68 && buf[3] == 58
        && buf[4] == 86 && buf[5] == 67 && buf[6] == 65 && buf[7] == 82 && buf[8] == 68;
    assert(r ==> buf@ =~= end_line());
    r
}

} // verus!
