//! Framing of the coding agent's protocol stream: newline-terminated lines of at most
//! 8 MiB, a carriage return before the newline dropped, and each line UTF-8 text.

use vstd::prelude::*;
use crate::text::utf8;

verus! {

/// The largest protocol line, in bytes with its line end.
pub open spec fn max_line_bytes() -> nat {
    8388608
}

/// How much of a chunk belongs to the current line: up to and with its first newline, or
/// all of it.
pub open spec fn line_part(chunk: Seq<u8>) -> int
    decreases chunk.len(),
{
    if chunk.len() == 0 {
        0
    } else if chunk[0] == 10u8 {
        1
    } else {
        1 + line_part(chunk.drop_first())
    }
}

/// A completed line without its newline and a carriage return before it.
pub open spec fn line_body(line: Seq<u8>) -> Seq<u8> {
    let l = if line.len() > 0 && line.last() == 10u8 { line.drop_last() } else { line };
    if l.len() > 0 && l.last() == 13u8 { l.drop_last() } else { l }
}

/// Reads protocol lines from chunks of the stream.
pub struct LineReader {
    pending: Vec<u8>,
}

/// What one chunk gave.
#[derive(Debug)]
pub struct LineFeed {
    /// How many bytes of the chunk were taken.
    pub consumed: usize,
    /// The line they completed, if they completed one.
    pub line: Option<Vec<u8>>,
}

impl LineReader {
    /// A line read so far never exceeds the limit.
    #[verifier::type_invariant]
    spec fn bounded(&self) -> bool {
        self.pending@.len() <= max_line_bytes()
    }

    /// The bytes of the line read so far.
    pub closed spec fn pending(&self) -> Seq<u8> {
        self.pending@
    }

    /// A reader at the start of a line.
    pub fn new() -> (r: Self)
        ensures
            r.pending() == Seq::<u8>::empty(),
    {
        LineReader { pending: Vec::new() }
    }

    /// Takes the next chunk of the stream: the part up to and with its first newline. A
    /// line longer than 8 MiB is refused, and the reader keeps what it had read.
    pub fn feed(&mut self, chunk: &[u8]) -> (r: Result<LineFeed, String>)
        requires
            chunk@.len() > 0,
        ensures
            ({
                let n = line_part(chunk@);
                let taken = old(self).pending() + chunk@.take(n);
                if old(self).pending().len() + n > max_line_bytes() {
                    &&& r matches Err(e) && e@ == "Codex app-server emitted an oversized protocol message"@
                    &&& final(self).pending() == old(self).pending()
                } else if chunk@[n - 1] == 10u8 {
                    r matches Ok(f) && {
                        &&& f.consumed == n
                        &&& f.line matches Some(l) && l@ == line_body(taken)
                        &&& final(self).pending() == Seq::<u8>::empty()
                    }
                } else {
                    r matches Ok(f) && {
                        &&& f.consumed == n
                        &&& f.line is None
                        &&& final(self).pending() == taken
                    }
                }
            }),
    {
        proof {
            use_type_invariant(&*self);
        }
        let mut n: usize = 0;
        while n < chunk.len() && chunk[n] != 10u8
            invariant
                n <= chunk@.len(),
                forall|i: int| 0 <= i < n ==> chunk@[i] != 10u8,
            decreases chunk.len() - n,
        {
            n = n + 1;
        }
        if n < chunk.len() {
            n = n + 1;
        }
        proof {
            line_part_is(chunk@, n as int);
        }
        if n > 8388608 - self.pending.len() {
            return Err("Codex app-server emitted an oversized protocol message".to_owned());
        }
        let mut taken = Vec::new();
        std::mem::swap(&mut taken, &mut self.pending);
        let ghost before = taken@;
        let mut i: usize = 0;
        while i < n
            invariant
                n <= chunk@.len(),
                i <= n,
                taken@ == before + chunk@.take(i as int),
            decreases n - i,
        {
            taken.push(chunk[i]);
            assert(taken@ =~= before + chunk@.take(i as int + 1));
            i = i + 1;
        }
        if chunk[n - 1] == 10u8 {
            let mut line = taken;
            let ghost whole = line@;
            line.pop();
            if line.len() > 0 && line[line.len() - 1] == 13u8 {
                line.pop();
            }
            assert(line@ =~= line_body(whole));
            Ok(LineFeed { consumed: n, line: Some(line) })
        } else {
            self.pending = taken;
            Ok(LineFeed { consumed: n, line: None })
        }
    }

    /// Ends the stream: the bytes of an unfinished last line, if there are any.
    pub fn finish(&mut self) -> (r: Option<Vec<u8>>)
        ensures
            old(self).pending().len() == 0 ==> r is None,
            old(self).pending().len() > 0 ==> (r matches Some(l) && l@ == old(self).pending()),
            final(self).pending() == Seq::<u8>::empty(),
    {
        let mut line = Vec::new();
        std::mem::swap(&mut line, &mut self.pending);
        if line.len() == 0 {
            None
        } else {
            Some(line)
        }
    }
}

proof fn line_part_is(chunk: Seq<u8>, n: int)
    requires
        1 <= n <= chunk.len(),
        forall|i: int| 0 <= i < n - 1 ==> chunk[i] != 10u8,
        chunk[n - 1] == 10u8 || n == chunk.len(),
    ensures
        line_part(chunk) == n,
    decreases n,
{
    if chunk[0] != 10u8 {
        let rest = chunk.drop_first();
        if n > 1 {
            assert forall|i: int| 0 <= i < n - 2 implies rest[i] != 10u8 by {
                assert(rest[i] == chunk[i + 1]);
            }
            assert(rest[n - 2] == chunk[n - 1]);
            line_part_is(rest, n - 1);
        } else {
            assert(rest.len() == 0);
            assert(line_part(rest) == 0);
        }
    }
}

/// Trusted: calls `String::from_utf8`, which std documents as giving back the bytes as a
/// string when they are UTF-8, and an error when they are not.
#[verifier::external_body]
fn utf8_string(bytes: Vec<u8>) -> (r: Option<String>)
    ensures
        r matches Some(s) ==> utf8(s@) == bytes@,
        r is None ==> forall|s: Seq<char>| utf8(s) != bytes@,
{
    String::from_utf8(bytes).ok()
}

/// A protocol line as text; bytes that are not UTF-8 are refused.
pub fn line_text(bytes: Vec<u8>) -> (r: Result<String, String>)
    ensures
        r matches Ok(s) ==> utf8(s@) == bytes@,
        r matches Err(e) ==> e@ == "Codex app-server emitted invalid UTF-8"@ && forall|s: Seq<char>| utf8(s) != bytes@,
{
    match utf8_string(bytes) {
        Some(s) => Ok(s),
        None => Err("Codex app-server emitted invalid UTF-8".to_owned()),
    }
}

} // verus!
