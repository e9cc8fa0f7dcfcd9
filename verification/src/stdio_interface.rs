//! The console transport: records go to standard output, commands come
//! from standard input.
//!
//! Reading and writing the streams is the surrounding program's work. This
//! module decides what a line that was read means, turns pending events
//! into the records to print, and decides what a failed write means.

use vstd::prelude::*;
use vstd::string::*;
use crate::event_buffer::EventBuffer;
use crate::sdl_event::SdlEvent;
use crate::shutdown::ShutdownToken;
use crate::transport::{
    all_one_line, error_text, records_of, serialize_all, texts_of, WriteOutcome,
};

verus! {

/// Whether a character is white space: the characters with the Unicode
/// property `White_Space`.
pub open spec fn is_white_space(c: char) -> bool {
    let code = c as u32;
    ||| 0x09 <= code <= 0x0D
    ||| code == 0x20
    ||| code == 0x85
    ||| code == 0xA0
    ||| code == 0x1680
    ||| 0x2000 <= code <= 0x200A
    ||| code == 0x2028
    ||| code == 0x2029
    ||| code == 0x202F
    ||| code == 0x205F
    ||| code == 0x3000
}

/// `text` without the white space it begins with.
pub open spec fn trim_start(text: Seq<char>) -> Seq<char>
    decreases text.len(),
{
    if text.len() > 0 && is_white_space(text.first()) {
        trim_start(text.drop_first())
    } else {
        text
    }
}

/// `text` without the white space it ends with.
pub open spec fn trim_end(text: Seq<char>) -> Seq<char>
    decreases text.len(),
{
    if text.len() > 0 && is_white_space(text.last()) {
        trim_end(text.drop_last())
    } else {
        text
    }
}

/// `text` without the white space around it.
pub open spec fn trimmed(text: Seq<char>) -> Seq<char> {
    trim_end(trim_start(text))
}

/// The one command that the console understands.
pub open spec fn exit_command() -> Seq<char> {
    "exit"@
}

/// Whether a line is the exit command: it is, once the white space around
/// it is gone, exactly `exit`.
pub open spec fn is_exit(line: Seq<char>) -> bool {
    trimmed(line) == exit_command()
}

/// Where the leading white space of `text` ends, the rest is what
/// `trim_start` keeps.
pub proof fn lemma_trim_start_at(text: Seq<char>, start: int)
    requires
        0 <= start <= text.len(),
        forall|i: int| 0 <= i < start ==> is_white_space(#[trigger] text[i]),
        start == text.len() || !is_white_space(text[start]),
    ensures
        trim_start(text) == text.subrange(start, text.len() as int),
    decreases start,
{
    if start == 0 {
        assert(text.subrange(0, text.len() as int) =~= text);
    } else {
        let rest = text.drop_first();
        assert(is_white_space(text[0]));
        assert forall|i: int| 0 <= i < start - 1 implies is_white_space(#[trigger] rest[i]) by {
            assert(rest[i] == text[i + 1]);
        }
        lemma_trim_start_at(rest, start - 1);
        assert(rest.subrange(start - 1, rest.len() as int) =~= text.subrange(
            start,
            text.len() as int,
        ));
    }
}

/// Where the trailing white space of `text` begins, what is before it is
/// what `trim_end` keeps.
pub proof fn lemma_trim_end_at(text: Seq<char>, end: int)
    requires
        0 <= end <= text.len(),
        forall|i: int| end <= i < text.len() ==> is_white_space(#[trigger] text[i]),
        end == 0 || !is_white_space(text[end - 1]),
    ensures
        trim_end(text) == text.subrange(0, end),
    decreases text.len() - end,
{
    if end == text.len() {
        assert(text.subrange(0, end) =~= text);
    } else {
        let rest = text.drop_last();
        assert(is_white_space(text[text.len() - 1]));
        lemma_trim_end_at(rest, end);
        assert(rest.subrange(0, end) =~= text.subrange(0, end));
    }
}

/// Tells whether a character is white space.
pub fn char_is_white_space(c: char) -> (white: bool)
    ensures
        white == is_white_space(c),
{
    let code: u32 = c as u32;
    (0x09 <= code && code <= 0x0D) || code == 0x20 || code == 0x85 || code == 0xA0 || code
        == 0x1680 || (0x2000 <= code && code <= 0x200A) || code == 0x2028 || code == 0x2029 || code
        == 0x202F || code == 0x205F || code == 0x3000
}

/// Tells whether a line is the exit command.
pub fn is_exit_command(line: &str) -> (exit: bool)
    ensures
        exit == is_exit(line@),
{
    let length = line.unicode_len();
    let mut start: usize = 0;
    while start < length && char_is_white_space(line.get_char(start))
        invariant
            length == line@.len(),
            start <= length,
            forall|i: int| 0 <= i < start ==> is_white_space(#[trigger] line@[i]),
        decreases length - start,
    {
        start = start + 1;
    }
    let mut end: usize = length;
    while end > start && char_is_white_space(line.get_char(end - 1))
        invariant
            length == line@.len(),
            start <= end <= length,
            forall|i: int| end <= i < length ==> is_white_space(#[trigger] line@[i]),
        decreases end,
    {
        end = end - 1;
    }
    proof {
        let kept = line@.subrange(start as int, length as int);
        lemma_trim_start_at(line@, start as int);
        assert forall|i: int| end - start <= i < kept.len() implies is_white_space(
            #[trigger] kept[i],
        ) by {
            assert(kept[i] == line@[i + start]);
        }
        if end > start {
            assert(kept[end - start - 1] == line@[end - 1]);
        }
        lemma_trim_end_at(kept, end - start);
        assert(kept.subrange(0, end - start) =~= line@.subrange(start as int, end as int));
        assert(trimmed(line@) == line@.subrange(start as int, end as int));
        reveal_strlit("exit");
    }
    if end - start != 4 {
        return false;
    }
    let exit = line.get_char(start) == 'e' && line.get_char(start + 1) == 'x' && line.get_char(
        start + 2,
    ) == 'i' && line.get_char(start + 3) == 't';
    proof {
        let word = line@.subrange(start as int, end as int);
        assert(word[0] == line@[start as int]);
        assert(word[1] == line@[start + 1]);
        assert(word[2] == line@[start + 2]);
        assert(word[3] == line@[start + 3]);
        if exit {
            assert(word =~= "exit"@);
        }
    }
    exit
}

/// How an attempt to read one line from the input stream ended.
#[derive(Debug)]
pub enum LineRead {
    /// A line was read. It may still carry its line ending.
    Line(String),
    /// The stream has ended.
    EndOfStream,
    /// The read failed.
    Failed,
}

/// Whether what was read asks for shutdown: the exit command does, and so
/// do the end of the stream and a failed read. Any other line does not.
pub open spec fn requests_shutdown(input: LineRead) -> bool {
    match input {
        LineRead::Line(line) => is_exit(line@),
        LineRead::EndOfStream => true,
        LineRead::Failed => true,
    }
}

/// The reading half of the console transport.
#[derive(Debug)]
pub struct StdinReader {}

impl StdinReader {
    /// A reader.
    pub fn new() -> StdinReader {
        StdinReader {  }
    }

    /// Takes in what one attempt to read a line gave, and requests shutdown
    /// where it asks for that. A token that is set stays set.
    pub fn read(&mut self, input: &LineRead, done: &mut ShutdownToken)
        ensures
            final(done).is_set() == (old(done).is_set() || requests_shutdown(*input)),
    {
        let stop = match input {
            LineRead::Line(line) => is_exit_command(line.as_str()),
            LineRead::EndOfStream => true,
            LineRead::Failed => true,
        };
        if stop {
            done.set();
        }
    }
}

/// The error for a write to the output stream that failed.
pub open spec fn write_failed_message() -> Seq<char> {
    "Failed to write to buffer."@
}

/// The error for a flush of the output stream that failed.
pub open spec fn flush_failed_message() -> Seq<char> {
    "Failed to flush buffer."@
}

/// The error that a write outcome gives on the console, if any. However
/// many bytes a successful write took, it is no error.
pub open spec fn console_error(outcome: WriteOutcome) -> Option<Seq<char>> {
    match outcome {
        WriteOutcome::Written(_) => None,
        WriteOutcome::WriteFailed => Some(write_failed_message()),
        WriteOutcome::FlushFailed => Some(flush_failed_message()),
    }
}

/// The writing half of the console transport.
#[derive(Debug)]
pub struct StdoutWriter {}

impl StdoutWriter {
    /// A writer.
    pub fn new() -> StdoutWriter {
        StdoutWriter {  }
    }

    /// Takes everything pending out of `events` and returns its records,
    /// oldest first, to be printed one by one.
    pub fn write(&mut self, events: &mut EventBuffer) -> (records: Vec<String>)
        ensures
            texts_of(records@) == records_of(old(events)@),
            all_one_line(texts_of(records@)),
            final(events)@ == Seq::<SdlEvent>::empty(),
    {
        let drained = events.drain_all();
        serialize_all(&drained)
    }

    /// Takes in how printing one record ended. A failed write and a failed
    /// flush are returned as errors and request shutdown.
    pub fn written(&mut self, outcome: WriteOutcome, done: &mut ShutdownToken) -> (result: Result<(), String>)
        ensures
            error_text(result) == console_error(outcome),
            final(done).is_set() == (old(done).is_set() || result is Err),
    {
        match outcome {
            WriteOutcome::Written(_) => Ok(()),
            WriteOutcome::WriteFailed => {
                done.set();
                Err("Failed to write to buffer.".to_owned())
            },
            WriteOutcome::FlushFailed => {
                done.set();
                Err("Failed to flush buffer.".to_owned())
            },
        }
    }
}

} // verus!
