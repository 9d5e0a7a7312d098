//! Line codec: from a raw byte stream to UTF-8 text lines.
//!
//! Bytes arrive from the network in arbitrary chunks. The assembler
//! buffers them and hands back one line per `\n` found, decoded as UTF-8.
//! A line longer than the assembler's limit, or one that is not valid
//! UTF-8, is a protocol error; the caller is expected to drop the
//! connection on it.

use vstd::prelude::*;

verus! {

/// Default cap on the byte length of one line.
pub const DEFAULT_MAX_LINE: usize = 8192;

/// Why a line could not be produced from the buffered bytes.
#[derive(Clone, Copy, Debug, PartialEq, Eq, Structural)]
pub enum LineError {
    /// The buffered bytes hold, or can only ever complete to, a line
    /// longer than the assembler's limit.
    TooLong,
    /// A complete line was found but its bytes are not valid UTF-8.
    InvalidUtf8,
}

/// True when `s[i]` is the first newline byte in `s`.
pub open spec fn first_newline_at(s: Seq<u8>, i: int) -> bool {
    &&& 0 <= i < s.len()
    &&& s[i] == 10
    &&& forall|j: int| 0 <= j < i ==> s[j] != 10
}

/// True when `s` holds a newline byte anywhere.
pub open spec fn has_newline(s: Seq<u8>) -> bool {
    exists|i: int| 0 <= i < s.len() && s[i] == 10
}

/// One line's bytes with a single trailing carriage return removed: the
/// protocol splits on `\n` and tolerates clients that end lines with
/// `\r\n`.
pub open spec fn strip_cr(s: Seq<u8>) -> Seq<u8> {
    if s.len() > 0 && s[s.len() - 1] == 13 {
        s.drop_last()
    } else {
        s
    }
}

/// What `String::from_utf8` decodes the given bytes to: the character
/// sequence on valid UTF-8 input, `None` otherwise.
pub uninterp spec fn utf8_decode(b: Seq<u8>) -> Option<Seq<char>>;

/// Relies on `String::from_utf8`: it succeeds exactly on valid UTF-8
/// input, and its result depends on the bytes alone; the decoded text is
/// named `utf8_decode` and otherwise left opaque.
#[verifier::external_body]
fn bytes_to_string(b: Vec<u8>) -> (r: Option<String>)
    ensures
        r is Some <==> utf8_decode(b@) is Some,
        r matches Some(s) ==> utf8_decode(b@) == Some(s@),
{
    String::from_utf8(b).ok()
}

/// Assembles newline-delimited lines out of a stream of byte chunks.
pub struct LineAssembler {
    buf: Vec<u8>,
    limit: usize,
}

impl LineAssembler {
    /// The bytes fed in but not yet handed back as lines.
    pub closed spec fn pending(self) -> Seq<u8> {
        self.buf@
    }

    /// The cap on the byte length of one line.
    pub closed spec fn max_line(self) -> usize {
        self.limit
    }

    /// A fresh assembler with an empty buffer and the given line limit.
    pub fn new(limit: usize) -> (r: Self)
        ensures
            r.pending() == Seq::<u8>::empty(),
            r.max_line() == limit,
    {
        LineAssembler { buf: Vec::new(), limit }
    }

    /// How many bytes are buffered but not yet handed back.
    pub fn pending_len(&self) -> (r: usize)
        ensures
            r == self.pending().len(),
    {
        self.buf.len()
    }

    /// Append one chunk read from the network to the buffer.
    pub fn feed(&mut self, chunk: &[u8])
        requires
            old(self).pending().len() + chunk@.len() <= usize::MAX,
        ensures
            final(self).pending() == old(self).pending() + chunk@,
            final(self).max_line() == old(self).max_line(),
    {
        let n = chunk.len();
        for j in 0..n
            invariant
                n == chunk@.len(),
                self.buf@ == old(self).buf@ + chunk@.take(j as int),
                self.limit == old(self).limit,
        {
            self.buf.push(chunk[j]);
            proof {
                assert(chunk@.take(j + 1) == chunk@.take(j as int).push(chunk@[j as int]));
            }
        }
        proof {
            assert(chunk@.take(n as int) == chunk@);
        }
    }

    /// Try to take one complete line off the front of the buffer.
    ///
    /// Returns `Ok(Some(line))` when the buffer starts with a complete
    /// line no longer than the limit whose bytes are valid UTF-8, consuming
    /// the line and its newline; one carriage return standing just before
    /// the newline is stripped before decoding, so CRLF clients work.
    /// Returns `Ok(None)` when no newline has arrived yet and the partial
    /// line can still fit; `Err(TooLong)` when the first line, complete or
    /// not, already exceeds the limit; and `Err(InvalidUtf8)` when the
    /// first complete line is not UTF-8. On an error the buffer is left
    /// unchanged.
    #[verifier::rlimit(50)]
    #[verifier::loop_isolation(false)]
    pub fn poll_line(&mut self) -> (r: Result<Option<String>, LineError>)
        ensures
            final(self).max_line() == old(self).max_line(),
            r matches Ok(Some(line)) ==> exists|i: int|
                #[trigger] first_newline_at(old(self).pending(), i) && i <= old(self).max_line()
                    && utf8_decode(strip_cr(old(self).pending().take(i))) == Some(line@)
                    && final(self).pending() == old(self).pending().skip(i + 1),
            r is Ok && r->Ok_0 is None ==> !has_newline(old(self).pending())
                && old(self).pending().len() <= old(self).max_line() && *final(self) == *old(self),
            r == Err::<Option<String>, LineError>(LineError::TooLong) ==> *final(self) == *old(
                self,
            ) && ((exists|i: int|
                #[trigger] first_newline_at(old(self).pending(), i) && i > old(self).max_line())
                || (!has_newline(old(self).pending()) && old(self).pending().len() > old(
                    self,
                ).max_line())),
            r == Err::<Option<String>, LineError>(LineError::InvalidUtf8) ==> *final(self) == *old(
                self,
            ) && exists|i: int|
                #[trigger] first_newline_at(old(self).pending(), i) && i <= old(self).max_line()
                    && utf8_decode(strip_cr(old(self).pending().take(i))) is None,
            r is Err ==> r->Err_0 == LineError::TooLong || r->Err_0 == LineError::InvalidUtf8,
    {
        match find_newline(&self.buf) {
            None => {
                if self.buf.len() > self.limit {
                    Err(LineError::TooLong)
                } else {
                    Ok(None)
                }
            },
            Some(i) => {
                if i > self.limit {
                    return Err(LineError::TooLong);
                }
                let mut line_bytes: Vec<u8> = Vec::new();
                for j in 0..i
                    invariant
                        i < self.buf@.len(),
                        line_bytes@ == self.buf@.take(j as int),
                        self == old(self),
                {
                    line_bytes.push(self.buf[j]);
                    proof {
                        assert(self.buf@.take(j + 1) == self.buf@.take(j as int).push(
                            self.buf@[j as int],
                        ));
                    }
                }
                let len = self.buf.len();
                let mut rest: Vec<u8> = Vec::new();
                for j in (i + 1)..len
                    invariant
                        i + 1 <= len == self.buf@.len(),
                        rest@ == self.buf@.subrange(i + 1, j as int),
                        self == old(self),
                {
                    rest.push(self.buf[j]);
                    proof {
                        assert(self.buf@.subrange(i + 1, j + 1) == self.buf@.subrange(
                            i + 1,
                            j as int,
                        ).push(self.buf@[j as int]));
                    }
                }
                proof {
                    assert(rest@ == self.buf@.skip(i + 1));
                }
                let ghost s0 = self.buf@;
                let lb_len = line_bytes.len();
                if lb_len > 0 && line_bytes[lb_len - 1] == 13u8 {
                    let _last = line_bytes.pop();
                }
                let ghost lb = line_bytes@;
                proof {
                    assert(lb =~= strip_cr(s0.take(i as int)));
                }
                match bytes_to_string(line_bytes) {
                    Some(line) => {
                        self.buf = rest;
                        proof {
                            assert(s0 == old(self).pending());
                            assert(first_newline_at(old(self).pending(), i as int) && i as int
                                <= old(self).max_line() && utf8_decode(
                                strip_cr(old(self).pending().take(i as int)),
                            ) == Some(line@) && self.pending() == old(self).pending().skip(
                                i as int + 1,
                            ));
                        }
                        Ok(Some(line))
                    },
                    None => {
                        proof {
                            assert(s0 == old(self).pending());
                            assert(first_newline_at(old(self).pending(), i as int) && i as int
                                <= old(self).max_line() && utf8_decode(
                                strip_cr(old(self).pending().take(i as int)),
                            ) is None);
                        }
                        Err(LineError::InvalidUtf8)
                    },
                }
            },
        }
    }
}

/// Index of the first newline byte in `v`, if any.
fn find_newline(v: &Vec<u8>) -> (r: Option<usize>)
    ensures
        match r {
            Some(i) => first_newline_at(v@, i as int),
            None => !has_newline(v@),
        },
{
    let n = v.len();
    for i in 0..n
        invariant
            n == v@.len(),
            forall|j: int| 0 <= j < i ==> v@[j] != 10,
    {
        if v[i] == 10u8 {
            return Some(i);
        }
    }
    None
}

} // verus!
