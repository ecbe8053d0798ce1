//! Reading the outcome of the command that lists pending updates.
//!
//! The command prints one pending update per line. Running it is left to
//! the caller, who reports what happened; this module turns the report
//! into the list of update identifiers or into the reason for a failure.

use crate::event::identifiers_of;
use vstd::prelude::*;
use vstd::utf8::{decode_utf8, valid_utf8};

verus! {

/// The byte that ends a line.
pub const LINE_FEED: u8 = 10;

/// The byte that may stand before a line feed and is not part of the line.
pub const CARRIAGE_RETURN: u8 = 13;

/// Why a check for pending updates failed.
#[derive(Clone, Copy, Debug, PartialEq, Eq, Structural)]
pub enum CheckError {
    /// The command could not be launched.
    SpawnFailed,
    /// The command's output could not be read as text.
    ReadFailed,
    /// The command ended abnormally and left no usable output.
    ExitFailed,
}

/// What the caller saw when it ran the command.
#[derive(Clone, Debug, PartialEq, Eq)]
pub enum CommandReport {
    /// The command could not be started.
    NotLaunched,
    /// The command ran but its output stream broke before its end.
    OutputLost,
    /// The command ran to its end. `exit_code` is absent when it did not
    /// exit by itself, as when a signal ended it.
    Finished { stdout: Vec<u8>, exit_code: Option<i32> },
}

/// Length of the first line of `bytes`: the number of bytes before the
/// first line feed, or all of them if there is none.
pub open spec fn line_end(bytes: Seq<u8>) -> int
    decreases bytes.len(),
{
    if bytes.len() == 0 || bytes[0] == LINE_FEED {
        0
    } else {
        1 + line_end(bytes.skip(1))
    }
}

/// The line without the carriage return that may end it.
pub open spec fn trim_carriage_return(line: Seq<u8>) -> Seq<u8> {
    if line.len() > 0 && line.last() == CARRIAGE_RETURN {
        line.drop_last()
    } else {
        line
    }
}

/// The non-empty lines of `bytes`, in order, each without its line ending.
///
/// A line ends with a line feed, or with a carriage return and a line
/// feed; the last line may go without. A carriage return that no line
/// feed follows belongs to its line.
pub open spec fn usable_lines(bytes: Seq<u8>) -> Seq<Seq<u8>>
    decreases bytes.len(),
{
    if bytes.len() == 0 {
        Seq::empty()
    } else {
        let end = line_end(bytes);
        let ended = 0 <= end < bytes.len();
        let cut = if ended {
            end + 1
        } else {
            bytes.len() as int
        };
        let line = if ended {
            trim_carriage_return(bytes.take(end))
        } else {
            bytes
        };
        let rest = usable_lines(bytes.skip(cut));
        if line.len() > 0 {
            seq![line] + rest
        } else {
            rest
        }
    }
}

/// Whether every line is well-formed UTF-8.
pub open spec fn all_text(lines: Seq<Seq<u8>>) -> bool {
    forall|i: int| 0 <= i < lines.len() ==> valid_utf8(#[trigger] lines[i])
}

/// The lines as text.
pub open spec fn texts_of(lines: Seq<Seq<u8>>) -> Seq<Seq<char>> {
    Seq::new(lines.len(), |i: int| decode_utf8(lines[i]))
}

/// What a check amounts to, given what the caller saw.
///
/// A launch failure, output that is not text, and an abnormal end with no
/// update listed are failures. Anything else is the list of updates, which
/// may be empty: a command that reports no updates is not an error,
/// whatever code it exits with.
pub open spec fn check_outcome(report: CommandReport) -> Result<Seq<Seq<char>>, CheckError> {
    match report {
        CommandReport::NotLaunched => Err(CheckError::SpawnFailed),
        CommandReport::OutputLost => Err(CheckError::ReadFailed),
        CommandReport::Finished { stdout, exit_code } => {
            let lines = usable_lines(stdout@);
            if !all_text(lines) {
                Err(CheckError::ReadFailed)
            } else if exit_code is None && lines.len() == 0 {
                Err(CheckError::ExitFailed)
            } else {
                Ok(texts_of(lines))
            }
        },
    }
}

/// The first line is as long as the run of bytes before the first line feed.
pub proof fn lemma_line_end(bytes: Seq<u8>, end: int)
    requires
        0 <= end <= bytes.len(),
        forall|k: int| 0 <= k < end ==> bytes[k] != LINE_FEED,
        end == bytes.len() || bytes[end] == LINE_FEED,
    ensures
        line_end(bytes) == end,
    decreases end,
{
    if end > 0 {
        let tail = bytes.skip(1);
        assert forall|k: int| 0 <= k < end - 1 implies tail[k] != LINE_FEED by {
            assert(tail[k] == bytes[k + 1]);
        }
        lemma_line_end(tail, end - 1);
    }
}

/// The first line ends at or before the end of the bytes, holds no line
/// feed, and is followed by one unless the bytes end with it.
pub proof fn lemma_line_end_is_first_line_feed(bytes: Seq<u8>)
    ensures
        0 <= line_end(bytes) <= bytes.len(),
        forall|k: int| 0 <= k < line_end(bytes) ==> bytes[k] != LINE_FEED,
        line_end(bytes) == bytes.len() || bytes[line_end(bytes)] == LINE_FEED,
    decreases bytes.len(),
{
    if bytes.len() == 0 || bytes[0] == LINE_FEED {
    } else {
        let tail = bytes.skip(1);
        lemma_line_end_is_first_line_feed(tail);
        assert forall|k: int| 0 <= k < line_end(bytes) implies bytes[k] != LINE_FEED by {
            if k > 0 {
                assert(bytes[k] == tail[k - 1]);
            }
        }
        if line_end(bytes) < bytes.len() {
            assert(bytes[line_end(bytes)] == tail[line_end(tail)]);
        }
    }
}

/// Whether a byte string can stand as one line of a listing: it is not
/// empty, holds no line feed, and does not end in a carriage return.
pub open spec fn is_plain_line(line: Seq<u8>) -> bool {
    &&& line.len() > 0
    &&& forall|k: int| 0 <= k < line.len() ==> line[k] != LINE_FEED
    &&& line.last() != CARRIAGE_RETURN
}

/// Every line that is read is non-empty and holds no line feed.
pub proof fn lemma_usable_lines_hold_no_line_feed(bytes: Seq<u8>)
    ensures
        forall|i: int|
            0 <= i < usable_lines(bytes).len() ==> (#[trigger] usable_lines(bytes)[i]).len() > 0,
        forall|i: int, k: int|
            0 <= i < usable_lines(bytes).len() && 0 <= k < usable_lines(bytes)[i].len()
                ==> #[trigger] usable_lines(bytes)[i][k] != LINE_FEED,
    decreases bytes.len(),
{
    if bytes.len() > 0 {
        lemma_line_end_is_first_line_feed(bytes);
        let end = line_end(bytes);
        let cut = if end < bytes.len() {
            end + 1
        } else {
            bytes.len() as int
        };
        let line = if end < bytes.len() {
            trim_carriage_return(bytes.take(end))
        } else {
            bytes
        };
        let rest = usable_lines(bytes.skip(cut));
        lemma_usable_lines_hold_no_line_feed(bytes.skip(cut));
        assert forall|k: int| 0 <= k < line.len() implies line[k] != LINE_FEED by {
            assert(line[k] == bytes[k]);
        }
        let all = usable_lines(bytes);
        if line.len() > 0 {
            assert(all == seq![line] + rest);
            assert forall|i: int| 0 <= i < all.len() implies (#[trigger] all[i]).len() > 0 by {
                if i > 0 {
                    assert(all[i] == rest[i - 1]);
                }
            }
            assert forall|i: int, k: int|
                0 <= i < all.len() && 0 <= k < all[i].len() implies #[trigger] all[i][k]
                != LINE_FEED by {
                if i > 0 {
                    assert(all[i] == rest[i - 1]);
                }
            }
        }
    }
}

/// The listing that holds the given lines, each ended by a line feed.
pub open spec fn listing_of(lines: Seq<Seq<u8>>) -> Seq<u8>
    decreases lines.len(),
{
    if lines.len() == 0 {
        Seq::empty()
    } else {
        lines[0] + seq![LINE_FEED] + listing_of(lines.drop_first())
    }
}

/// What is written one update per line is read back as it was written.
pub proof fn lemma_listing_reads_back(lines: Seq<Seq<u8>>)
    requires
        forall|i: int| 0 <= i < lines.len() ==> is_plain_line(#[trigger] lines[i]),
    ensures
        usable_lines(listing_of(lines)) == lines,
    decreases lines.len(),
{
    if lines.len() == 0 {
        assert(usable_lines(listing_of(lines)) =~= lines);
    } else {
        let first = lines[0];
        let others = lines.drop_first();
        let bytes = listing_of(lines);
        assert(is_plain_line(first));
        assert forall|i: int| 0 <= i < others.len() implies is_plain_line(#[trigger] others[i]) by {
            assert(others[i] == lines[i + 1]);
        }
        lemma_listing_reads_back(others);
        let end = first.len() as int;
        assert forall|k: int| 0 <= k < end implies bytes[k] != LINE_FEED by {
            assert(bytes[k] == first[k]);
        }
        assert(bytes[end] == LINE_FEED);
        lemma_line_end(bytes, end);
        assert(bytes.take(end) =~= first);
        assert(bytes.skip(end + 1) =~= listing_of(others));
        assert(seq![first] + others =~= lines);
    }
}

/// `String::from_utf8` accepts exactly the byte strings that are
/// well-formed UTF-8 and returns the text they encode.
#[verifier::external_body]
fn text_of(bytes: Vec<u8>) -> (text: Option<String>)
    ensures
        text is Some <==> valid_utf8(bytes@),
        text matches Some(s) ==> s@ == decode_utf8(bytes@),
{
    match String::from_utf8(bytes) {
        Ok(text) => Some(text),
        Err(_) => None,
    }
}

/// Copies the bytes of `bytes` from `from` up to `to`.
fn copy_range(bytes: &Vec<u8>, from: usize, to: usize) -> (copy: Vec<u8>)
    requires
        from <= to <= bytes.len(),
    ensures
        copy@ == bytes@.subrange(from as int, to as int),
{
    let mut copy: Vec<u8> = Vec::new();
    let mut at: usize = from;
    while at < to
        invariant
            from <= at <= to <= bytes.len(),
            copy@ == bytes@.subrange(from as int, at as int),
        decreases to - at,
    {
        copy.push(bytes[at]);
        at = at + 1;
    }
    copy
}

/// Reads the update identifiers off the command's output: one for each
/// non-empty line. Fails if a line is not text.
pub fn parse_update_lines(stdout: &Vec<u8>) -> (parsed: Option<Vec<String>>)
    ensures
        parsed is Some <==> all_text(usable_lines(stdout@)),
        parsed matches Some(names) ==> identifiers_of(names@) == texts_of(usable_lines(stdout@)),
{
    let mut names: Vec<String> = Vec::new();
    let ghost mut done: Seq<Seq<u8>> = Seq::empty();
    let mut pos: usize = 0;
    assert(stdout@.skip(0) =~= stdout@);
    while pos < stdout.len()
        invariant
            pos <= stdout.len(),
            usable_lines(stdout@) == done + usable_lines(stdout@.skip(pos as int)),
            all_text(done),
            identifiers_of(names@) == texts_of(done),
        decreases stdout.len() - pos,
    {
        let ghost suffix = stdout@.skip(pos as int);
        let mut end: usize = pos;
        while end < stdout.len() && stdout[end] != LINE_FEED
            invariant
                pos <= end <= stdout.len(),
                forall|k: int| pos <= k < end ==> stdout@[k] != LINE_FEED,
            decreases stdout.len() - end,
        {
            end = end + 1;
        }
        let stop: usize = if end < stdout.len() && end > pos && stdout[end - 1]
            == CARRIAGE_RETURN {
            end - 1
        } else {
            end
        };
        let next: usize = if end < stdout.len() {
            end + 1
        } else {
            end
        };
        let line = copy_range(stdout, pos, stop);
        proof {
            assert forall|k: int| 0 <= k < end - pos implies suffix[k] != LINE_FEED by {
                assert(suffix[k] == stdout@[pos + k]);
            }
            lemma_line_end(suffix, end - pos);
            assert(suffix.take(end - pos) =~= stdout@.subrange(pos as int, end as int));
            assert(line@ =~= if end < stdout.len() {
                trim_carriage_return(suffix.take(end - pos))
            } else {
                suffix
            });
            assert(suffix.skip(next - pos) =~= stdout@.skip(next as int));
        }
        if line.len() > 0 {
            let ghost raw = line@;
            match text_of(line) {
                Some(name) => {
                    proof {
                        let grown = done.push(raw);
                        assert(grown + usable_lines(stdout@.skip(next as int)) =~= done + (seq![raw]
                            + usable_lines(stdout@.skip(next as int))));
                        assert(texts_of(grown) =~= texts_of(done).push(decode_utf8(raw)));
                        assert(identifiers_of(names@.push(name)) =~= identifiers_of(names@).push(
                            name@,
                        ));
                        done = grown;
                    }
                    names.push(name);
                },
                None => {
                    proof {
                        let all = usable_lines(stdout@);
                        assert(all[done.len() as int] == raw);
                    }
                    return None;
                },
            }
        }
        pos = next;
    }
    proof {
        assert(usable_lines(stdout@.skip(pos as int)) =~= Seq::<Seq<u8>>::empty());
        assert(done + Seq::<Seq<u8>>::empty() =~= done);
    }
    Some(names)
}

/// Turns what the caller saw into the result of the check.
pub fn resolve_check(report: CommandReport) -> (result: Result<Vec<String>, CheckError>)
    ensures
        match result {
            Ok(names) => check_outcome(report) == Ok::<Seq<Seq<char>>, CheckError>(
                identifiers_of(names@),
            ),
            Err(error) => check_outcome(report) == Err::<Seq<Seq<char>>, CheckError>(error),
        },
{
    match report {
        CommandReport::NotLaunched => Err(CheckError::SpawnFailed),
        CommandReport::OutputLost => Err(CheckError::ReadFailed),
        CommandReport::Finished { stdout, exit_code } => {
            match parse_update_lines(&stdout) {
                None => Err(CheckError::ReadFailed),
                Some(names) => {
                    assert(identifiers_of(names@).len() == names@.len());
                    assert(texts_of(usable_lines(stdout@)).len() == usable_lines(stdout@).len());
                    if exit_code.is_none() && names.len() == 0 {
                        Err(CheckError::ExitFailed)
                    } else {
                        Ok(names)
                    }
                },
            }
        },
    }
}

} // verus!
