//! Byte-stream input/output vocabulary for the kernel's file code: the error
//! kinds its operations report, reader/seeker traits, and the `Take` and
//! `Chain` adapters.
use vstd::prelude::*;

verus! {

/// Why an input/output operation failed.
#[derive(Debug, PartialEq, Eq, Structural, Copy, Clone)]
pub enum IoError {
    /// The source ended before the operation could complete.
    UnexpectedEof,
    /// The data read does not have the shape the operation needs.
    InvalidData,
    /// A parameter was outside the operation's domain.
    InvalidInput,
    /// The named entry does not exist.
    NotFound,
    /// The device did not answer in time.
    TimedOut,
    /// Any other failure.
    Other,
}

/// Whether a reader needs its buffer zeroed before it reads into it.
#[derive(Debug, PartialEq, Eq, Structural, Copy, Clone)]
pub struct Initializer {
    pub zero: bool,
}

impl Initializer {
    /// An initializer that zeroes buffers before use.
    pub fn zeroing() -> (r: Initializer)
        ensures
            r.zero,
    {
        Initializer { zero: true }
    }

    /// Whether the buffer should be zeroed.
    pub fn should_initialize(&self) -> (r: bool)
        ensures
            r == self.zero,
    {
        self.zero
    }
}

/// A position to seek to in a stream.
#[derive(Debug, PartialEq, Eq, Structural, Copy, Clone)]
pub enum SeekFrom {
    /// An offset from the start of the stream.
    Start(u64),
    /// An offset from the end of the stream.
    End(i64),
    /// An offset from the current position.
    Current(i64),
}

/// A source of bytes. `read` pulls up to `buf.len()` bytes into the front of
/// `buf` and reports how many arrived; zero means end of stream. A reader
/// never resizes the buffer.
pub trait Read {
    fn read(&mut self, buf: &mut Vec<u8>) -> (r: Result<usize, IoError>)
        ensures
            final(buf)@.len() == old(buf)@.len(),
            r matches Ok(n) ==> n <= old(buf)@.len(),
    ;
}

/// Pulls exactly one byte out of `reader`; a reader at its end is
/// `UnexpectedEof`.
pub fn read_one_byte<R: Read>(reader: &mut R) -> Result<u8, IoError> {
    let mut buf: Vec<u8> = vec![0u8];
    let n = match reader.read(&mut buf) {
        Ok(n) => n,
        Err(e) => {
            return Err(e);
        },
    };
    if n == 0 {
        return Err(IoError::UnexpectedEof);
    }
    Ok(buf[0])
}

/// A stream with a movable cursor.
pub trait Seek {
    fn seek(&mut self, pos: SeekFrom) -> Result<u64, IoError>;
}

/// A buffered source: exposes its internal buffer so callers can scan it, and
/// is told how much of it they consumed.
pub trait BufRead {
    fn fill_buf(&mut self) -> Result<&[u8], IoError>;

    fn consume(&mut self, amt: usize);
}

/// A reader limited to its first `limit` bytes.
pub struct Take<T> {
    inner: T,
    limit: u64,
}

impl<T> Take<T> {
    /// Limits `inner` to its next `limit` bytes.
    pub fn new(inner: T, limit: u64) -> (r: Take<T>)
        ensures
            r.spec_limit() == limit,
            r.spec_inner() == inner,
    {
        Take { inner, limit }
    }

    pub closed spec fn spec_limit(&self) -> u64 {
        self.limit
    }

    pub closed spec fn spec_inner(&self) -> T {
        self.inner
    }

    /// How many more bytes this adapter will let through.
    pub fn limit(&self) -> (r: u64)
        ensures
            r == self.spec_limit(),
    {
        self.limit
    }

    /// Resets how many more bytes this adapter will let through.
    pub fn set_limit(&mut self, limit: u64)
        ensures
            final(self).spec_limit() == limit,
            final(self).spec_inner() == old(self).spec_inner(),
    {
        self.limit = limit;
    }

    /// Unwraps the underlying reader.
    pub fn into_inner(self) -> (r: T)
        ensures
            r == self.spec_inner(),
    {
        self.inner
    }

    /// Borrows the underlying reader.
    pub fn get_ref(&self) -> (r: &T)
        ensures
            r == self.spec_inner(),
    {
        &self.inner
    }

    /// Borrows the underlying reader mutably.
    pub fn get_mut(&mut self) -> (r: &mut T)
        ensures
            *r == old(self).spec_inner(),
            final(self).spec_inner() == *final(r),
            final(self).spec_limit() == old(self).spec_limit(),
    {
        &mut self.inner
    }
}

impl<T: Read> Read for Take<T> {
    /// Reads from the underlying reader, but never past the limit: at most
    /// `limit` bytes come through, and the limit shrinks by what was read.
    fn read(&mut self, buf: &mut Vec<u8>) -> (r: Result<usize, IoError>) {
        if self.limit == 0 {
            return Ok(0);
        }
        let max: usize = if (buf.len() as u64) <= self.limit {
            buf.len()
        } else {
            self.limit as usize
        };
        let mut tmp: Vec<u8> = vec![0u8; max];
        let n = match self.inner.read(&mut tmp) {
            Ok(n) => n,
            Err(e) => {
                return Err(e);
            },
        };
        let mut i: usize = 0;
        while i < n
            invariant
                n <= max,
                max <= buf@.len(),
                tmp@.len() == max,
                buf@.len() == old(buf)@.len(),
            decreases n - i,
        {
            let byte = tmp[i];
            buf[i] = byte;
            i = i + 1;
        }
        self.limit = self.limit - n as u64;
        Ok(n)
    }
}

/// Two readers, the second taking over once the first is exhausted.
pub struct Chain<T, U> {
    first: T,
    second: U,
    done_first: bool,
}

impl<T, U> Chain<T, U> {
    /// Chains `first` before `second`.
    pub fn new(first: T, second: U) -> (r: Chain<T, U>)
        ensures
            r.spec_first() == first,
            r.spec_second() == second,
            !r.spec_done_first(),
    {
        Chain { first, second, done_first: false }
    }

    pub closed spec fn spec_first(&self) -> T {
        self.first
    }

    pub closed spec fn spec_second(&self) -> U {
        self.second
    }

    pub closed spec fn spec_done_first(&self) -> bool {
        self.done_first
    }

    /// Unwraps the two underlying readers.
    pub fn into_inner(self) -> (r: (T, U))
        ensures
            r.0 == self.spec_first(),
            r.1 == self.spec_second(),
    {
        (self.first, self.second)
    }

    /// Borrows the two underlying readers.
    pub fn get_ref(&self) -> (r: (&T, &U))
        ensures
            r.0 == self.spec_first(),
            r.1 == self.spec_second(),
    {
        (&self.first, &self.second)
    }

    /// Borrows the two underlying readers mutably.
    pub fn get_mut(&mut self) -> (r: (&mut T, &mut U))
        ensures
            *r.0 == old(self).spec_first(),
            *r.1 == old(self).spec_second(),
            final(self).spec_first() == *final(r.0),
            final(self).spec_second() == *final(r.1),
            final(self).spec_done_first() == old(self).spec_done_first(),
    {
        (&mut self.first, &mut self.second)
    }
}

impl<T: Read, U: Read> Read for Chain<T, U> {
    /// Reads from the first reader until it ends, then from the second.
    fn read(&mut self, buf: &mut Vec<u8>) -> (r: Result<usize, IoError>) {
        if !self.done_first {
            let n = match self.first.read(buf) {
                Ok(n) => n,
                Err(e) => {
                    return Err(e);
                },
            };
            if n > 0 {
                return Ok(n);
            }
            self.done_first = true;
        }
        self.second.read(buf)
    }
}

/// A byte-by-byte view over a reader.
pub struct Bytes<R> {
    pub inner: R,
}

/// A character-by-character view over a reader.
pub struct Chars<R> {
    pub inner: R,
}

/// Why pulling a character out of a byte stream failed.
#[derive(Debug, PartialEq, Eq, Structural, Copy, Clone)]
pub enum CharsError {
    /// The bytes do not form valid UTF-8.
    NotUtf8,
    /// The underlying reader failed.
    Other(IoError),
}

} // verus!
