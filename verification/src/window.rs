//! The row window: an offset and an optional limit applied to the rows of a
//! stream, as if its batches were laid end to end, without ever holding more
//! than the batch at hand.
//!
//! The window keeps two numbers between batches: the rows it has still to
//! skip and the rows it may still emit. For each batch it decides, from those
//! numbers and the length of the batch alone, which of nine cases applies,
//! which rows of the batch pass, and what the numbers become.

use crate::batch::batch_rows;
use crate::batch::batch_schema;
use crate::batch::RowBatch;
use vstd::prelude::*;

verus! {

/// What is left of a window between two batches.
pub struct WindowState {
    /// The rows still to skip.
    pub offset: nat,
    /// The rows that may still be emitted; `None` where there is no limit.
    pub limit: Option<nat>,
}

/// The nine cases of a window meeting a batch.
#[derive(Clone, Copy, Debug, PartialEq, Eq, Structural)]
pub enum WindowCase {
    /// The limit is used up: no row passes and nothing changes.
    Exhausted,
    /// Nothing to skip and no limit: the batch passes whole.
    PassAll,
    /// Nothing to skip and the limit ends within the batch: its first rows
    /// pass and the limit is used up.
    TakeHead,
    /// Nothing to skip and the limit reaches past the batch: the batch passes
    /// whole and the limit shrinks by its length.
    PassCounted,
    /// No limit and the offset ends within the batch: the rows behind the
    /// offset pass.
    DropHead,
    /// No limit and the offset reaches past the batch: no row passes and the
    /// offset shrinks by the length of the batch.
    SkipAll,
    /// Offset and limit both end within the batch: the rows between them
    /// pass and the limit is used up.
    TakeMiddle,
    /// A limit, and the offset reaches the end of the batch or past it: no
    /// row passes and the offset shrinks by the length of the batch.
    SkipCounted,
    /// The offset ends within the batch and the limit reaches past it: the
    /// rows behind the offset pass and the limit shrinks by their number.
    DropHeadCounted,
}

/// A run of rows within one batch.
#[derive(Clone, Copy, Debug, PartialEq, Eq, Structural)]
pub struct RowRange {
    /// The first row of the run.
    pub start: usize,
    /// The number of rows in the run.
    pub len: usize,
}

impl WindowState {
    /// The window that skips `offset` rows and then emits `limit` rows, or
    /// all that follow where there is no limit.
    pub open spec fn new(offset: nat, limit: Option<nat>) -> WindowState {
        WindowState { offset, limit }
    }

    /// Whether the limit is used up.
    pub open spec fn exhausted(self) -> bool {
        self.limit == Some(0nat)
    }

    /// The place in a batch of `len` rows at which the rows that pass begin:
    /// behind the rows that are still to skip, or at the end of the batch
    /// where those are more than it has.
    pub open spec fn start(self, len: nat) -> nat {
        if self.offset <= len {
            self.offset
        } else {
            len
        }
    }

    /// The number of rows of a batch of `len` rows that pass the window.
    pub open spec fn count(self, len: nat) -> nat {
        let rest = (len - self.start(len)) as nat;
        match self.limit {
            None => rest,
            Some(n) => if n <= rest {
                n
            } else {
                rest
            },
        }
    }

    /// What the window becomes by meeting a batch of `len` rows.
    pub open spec fn next(self, len: nat) -> WindowState {
        if self.exhausted() {
            self
        } else {
            WindowState {
                offset: (self.offset - self.start(len)) as nat,
                limit: match self.limit {
                    None => None,
                    Some(n) => Some((n - self.count(len)) as nat),
                },
            }
        }
    }

    /// The rows of `rows` that pass the window.
    pub open spec fn emit<T>(self, rows: Seq<T>) -> Seq<T> {
        rows.subrange(
            self.start(rows.len()) as int,
            (self.start(rows.len()) + self.count(rows.len())) as int,
        )
    }

    /// The batches that the window sends out when it is fed `batches` in
    /// order: for each batch the rows that pass, be they none.
    pub open spec fn outputs<T>(self, batches: Seq<Seq<T>>) -> Seq<Seq<T>>
        decreases batches.len(),
    {
        if batches.len() == 0 {
            Seq::empty()
        } else {
            seq![self.emit(batches.first())] + self.next(batches.first().len()).outputs(
                batches.drop_first(),
            )
        }
    }

    /// Whether `case` applies when the window meets a batch of `len` rows.
    /// The cases that have a limit take it to be more than zero, and those
    /// that have an offset take it to be more than zero: without that the
    /// first case, or one of those with nothing to skip, would apply as
    /// well.
    pub open spec fn applies(self, case: WindowCase, len: nat) -> bool {
        let o = self.offset;
        let bounded = self.limit is Some;
        let n = match self.limit {
            Some(n) => n,
            None => 0,
        };
        match case {
            WindowCase::Exhausted => bounded && n == 0,
            WindowCase::PassAll => o == 0 && !bounded,
            WindowCase::TakeHead => o == 0 && bounded && 0 < n <= len,
            WindowCase::PassCounted => o == 0 && bounded && 0 < n && n > len,
            WindowCase::DropHead => o > 0 && !bounded && o <= len,
            WindowCase::SkipAll => o > 0 && !bounded && o > len,
            WindowCase::TakeMiddle => o > 0 && bounded && 0 < n && o + n <= len,
            WindowCase::SkipCounted => o > 0 && bounded && 0 < n && o >= len,
            WindowCase::DropHeadCounted => o > 0 && bounded && 0 < n && o < len && o + n > len,
        }
    }

    /// The rows that pass in each case, as the case itself names them.
    pub open spec fn case_rows<T>(self, case: WindowCase, rows: Seq<T>) -> Seq<T> {
        let o = self.offset as int;
        let n = match self.limit {
            Some(n) => n as int,
            None => 0,
        };
        let len = rows.len() as int;
        match case {
            WindowCase::Exhausted | WindowCase::SkipAll | WindowCase::SkipCounted => Seq::empty(),
            WindowCase::PassAll | WindowCase::PassCounted => rows,
            WindowCase::TakeHead => rows.subrange(0, n),
            WindowCase::DropHead | WindowCase::DropHeadCounted => rows.subrange(o, len),
            WindowCase::TakeMiddle => rows.subrange(o, o + n),
        }
    }

    /// What the window becomes in each case, as the case itself names it.
    pub open spec fn case_next(self, case: WindowCase, len: nat) -> WindowState {
        let o = self.offset;
        let n = match self.limit {
            Some(n) => n,
            None => 0,
        };
        match case {
            WindowCase::Exhausted | WindowCase::PassAll => self,
            WindowCase::TakeHead => WindowState { offset: o, limit: Some(0nat) },
            WindowCase::PassCounted => WindowState { offset: o, limit: Some((n - len) as nat) },
            WindowCase::DropHead => WindowState { offset: 0, limit: None },
            WindowCase::SkipAll => WindowState { offset: (o - len) as nat, limit: None },
            WindowCase::TakeMiddle => WindowState { offset: 0, limit: Some(0nat) },
            WindowCase::SkipCounted => WindowState { offset: (o - len) as nat, limit: self.limit },
            WindowCase::DropHeadCounted => WindowState {
                offset: 0,
                limit: Some((n - (len - o)) as nat),
            },
        }
    }
}

/// `x`, or `len` where `x` lies beyond it.
pub open spec fn clip(x: int, len: int) -> int {
    if x <= len {
        x
    } else {
        len
    }
}

/// Exactly one of the nine cases applies to a window and a batch.
pub proof fn lemma_exactly_one_case(window: WindowState, len: nat)
    ensures
        exists|case: WindowCase| window.applies(case, len),
        forall|a: WindowCase, b: WindowCase|
            window.applies(a, len) && window.applies(b, len) ==> a == b,
{
    if window.limit is None {
        assert(window.applies(WindowCase::PassAll, len) || window.applies(
            WindowCase::DropHead,
            len,
        ) || window.applies(WindowCase::SkipAll, len));
    } else if window.limit == Some(0nat) {
        assert(window.applies(WindowCase::Exhausted, len));
    } else if window.offset == 0 {
        assert(window.applies(WindowCase::TakeHead, len) || window.applies(
            WindowCase::PassCounted,
            len,
        ));
    } else {
        assert(window.applies(WindowCase::TakeMiddle, len) || window.applies(
            WindowCase::SkipCounted,
            len,
        ) || window.applies(WindowCase::DropHeadCounted, len));
    }
}

/// In the case that applies, the rows that pass and the state that follows
/// are those that the case names: `emit` and `next` say the same in one
/// formula.
pub proof fn lemma_case_outcome<T>(window: WindowState, case: WindowCase, rows: Seq<T>)
    requires
        window.applies(case, rows.len()),
    ensures
        window.emit(rows) == window.case_rows(case, rows),
        window.next(rows.len()) == window.case_next(case, rows.len()),
{
    assert(window.emit(rows) =~= window.case_rows(case, rows));
}

/// Neither number of a window ever grows, and a window whose limit is used
/// up stays as it is and lets no row pass.
pub proof fn lemma_window_shrinks(window: WindowState, len: nat)
    ensures
        window.next(len).offset <= window.offset,
        window.limit is None <==> window.next(len).limit is None,
        window.limit matches Some(n) ==> window.next(len).limit->0 <= n,
        window.exhausted() ==> window.next(len) == window && window.count(len) == 0,
{
}

/// The rows that pass a window from two runs of rows laid end to end are
/// those that pass from the first, followed by those that pass from the
/// second once the window has met the first.
pub proof fn lemma_emit_concat<T>(window: WindowState, head: Seq<T>, tail: Seq<T>)
    ensures
        window.emit(head + tail) == window.emit(head) + window.next(head.len()).emit(tail),
{
    assert(window.emit(head + tail) =~= window.emit(head) + window.next(head.len()).emit(tail));
}

/// The window over a stream: the rows of the batches sent out, laid end to
/// end, are the rows from `offset` up to `offset + limit` of the rows of the
/// batches fed in, laid end to end; up to the last row where there is no
/// limit, and clipped to the rows that there are.
pub proof fn lemma_window_of_stream<T>(window: WindowState, batches: Seq<Seq<T>>)
    ensures
        window.outputs(batches).flatten() == window.emit(batches.flatten()),
        window.emit(batches.flatten()) == batches.flatten().subrange(
            clip(window.offset as int, batches.flatten().len() as int),
            match window.limit {
                None => batches.flatten().len() as int,
                Some(n) => clip((window.offset + n) as int, batches.flatten().len() as int),
            },
        ),
    decreases batches.len(),
{
    if batches.len() == 0 {
        assert(window.outputs(batches).flatten() =~= window.emit(batches.flatten()));
    } else {
        let head = batches.first();
        let rest = batches.drop_first();
        let after = window.next(head.len());
        lemma_window_of_stream(after, rest);
        lemma_emit_concat(window, head, rest.flatten());
        let sent = window.outputs(batches);
        assert(sent.first() == window.emit(head));
        assert(sent.drop_first() =~= after.outputs(rest));
    }
}

/// The rows that pass do not depend on how the stream is cut into batches.
pub proof fn lemma_window_ignores_batching<T>(
    window: WindowState,
    one: Seq<Seq<T>>,
    other: Seq<Seq<T>>,
)
    requires
        one.flatten() == other.flatten(),
    ensures
        window.outputs(one).flatten() == window.outputs(other).flatten(),
{
    lemma_window_of_stream(window, one);
    lemma_window_of_stream(window, other);
}

/// The window sends out one batch for each batch fed in, empty ones
/// included.
pub proof fn lemma_one_output_per_input<T>(window: WindowState, batches: Seq<Seq<T>>)
    ensures
        window.outputs(batches).len() == batches.len(),
    decreases batches.len(),
{
    if batches.len() > 0 {
        lemma_one_output_per_input(window.next(batches.first().len()), batches.drop_first());
    }
}

/// The window of one stream, fed batch by batch.
#[derive(Clone, Copy, Debug, PartialEq, Eq)]
pub struct RowWindow {
    offset_remaining: usize,
    limit_remaining: Option<usize>,
}

impl View for RowWindow {
    type V = WindowState;

    closed spec fn view(&self) -> WindowState {
        WindowState {
            offset: self.offset_remaining as nat,
            limit: match self.limit_remaining {
                Some(n) => Some(n as nat),
                None => None,
            },
        }
    }
}

impl RowWindow {
    /// A window that skips the first `offset` rows of a stream and then
    /// emits `limit` rows, or all that follow where `limit` is `None`.
    pub fn new(offset: usize, limit: Option<usize>) -> (window: RowWindow)
        ensures
            window@ == WindowState::new(
                offset as nat,
                match limit {
                    Some(n) => Some(n as nat),
                    None => None,
                },
            ),
    {
        RowWindow { offset_remaining: offset, limit_remaining: limit }
    }

    /// The rows still to skip.
    pub fn offset_remaining(&self) -> (offset: usize)
        ensures
            offset == self@.offset,
    {
        self.offset_remaining
    }

    /// The rows that may still be emitted; `None` where there is no limit.
    pub fn limit_remaining(&self) -> (limit: Option<usize>)
        ensures
            self@.limit == match limit {
                Some(n) => Some(n as nat),
                None => None,
            },
    {
        self.limit_remaining
    }

    /// Which of the nine cases applies to a batch of `batch_len` rows.
    pub fn classify(&self, batch_len: usize) -> (case: WindowCase)
        ensures
            self@.applies(case, batch_len as nat),
    {
        let o = self.offset_remaining;
        match self.limit_remaining {
            None => if o == 0 {
                WindowCase::PassAll
            } else if o <= batch_len {
                WindowCase::DropHead
            } else {
                WindowCase::SkipAll
            },
            Some(n) => if n == 0 {
                WindowCase::Exhausted
            } else if o == 0 {
                if n <= batch_len {
                    WindowCase::TakeHead
                } else {
                    WindowCase::PassCounted
                }
            } else if o >= batch_len {
                WindowCase::SkipCounted
            } else if n <= batch_len - o {
                WindowCase::TakeMiddle
            } else {
                WindowCase::DropHeadCounted
            },
        }
    }

    /// Meets a batch of `batch_len` rows: says which of its rows pass and
    /// moves the window on.
    pub fn advance(&mut self, batch_len: usize) -> (range: RowRange)
        ensures
            range.start == old(self)@.start(batch_len as nat),
            range.len == old(self)@.count(batch_len as nat),
            range.start + range.len <= batch_len,
            final(self)@ == old(self)@.next(batch_len as nat),
            final(self)@.offset <= old(self)@.offset,
            old(self)@.exhausted() ==> range.len == 0 && final(self)@ == old(self)@,
    {
        let o = self.offset_remaining;
        let n = match self.limit_remaining {
            Some(n) => n,
            None => 0,
        };
        match self.classify(batch_len) {
            WindowCase::Exhausted => RowRange {
                start: if o <= batch_len {
                    o
                } else {
                    batch_len
                },
                len: 0,
            },
            WindowCase::PassAll => RowRange { start: 0, len: batch_len },
            WindowCase::TakeHead => {
                self.limit_remaining = Some(0);
                RowRange { start: 0, len: n }
            },
            WindowCase::PassCounted => {
                self.limit_remaining = Some(n - batch_len);
                RowRange { start: 0, len: batch_len }
            },
            WindowCase::DropHead => {
                self.offset_remaining = 0;
                RowRange { start: o, len: batch_len - o }
            },
            WindowCase::SkipAll => {
                self.offset_remaining = o - batch_len;
                RowRange { start: batch_len, len: 0 }
            },
            WindowCase::TakeMiddle => {
                self.offset_remaining = 0;
                self.limit_remaining = Some(0);
                RowRange { start: o, len: n }
            },
            WindowCase::SkipCounted => {
                self.offset_remaining = o - batch_len;
                RowRange { start: batch_len, len: 0 }
            },
            WindowCase::DropHeadCounted => {
                let passed = batch_len - o;
                self.offset_remaining = 0;
                self.limit_remaining = Some(n - passed);
                RowRange { start: o, len: passed }
            },
        }
    }

    /// Meets `input`: gives the batch of its rows that pass, under the same
    /// schema and be they none, and moves the window on. A batch that passes
    /// whole is handed back as it came.
    pub fn apply(&mut self, input: RowBatch) -> (output: RowBatch)
        ensures
            batch_rows(output) == old(self)@.emit(batch_rows(input)),
            batch_schema(output) == batch_schema(input),
            final(self)@ == old(self)@.next(batch_rows(input).len()),
    {
        let batch_len = input.num_rows();
        let range = self.advance(batch_len);
        if range.len == batch_len {
            assert(batch_rows(input) =~= old(self)@.emit(batch_rows(input)));
            input
        } else {
            input.slice(range.start, range.len)
        }
    }
}

} // verus!
