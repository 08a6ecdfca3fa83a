//! A seekable cursor over a byte buffer, with the fixed-width little-endian
//! reads and the length-prefixed string read that the bank format is made of.

use vstd::prelude::*;
use vstd::utf8::*;

verus! {

/// Why a read or a seek on a [`ByteCursor`] failed.
#[derive(Debug, Clone, Copy, PartialEq, Eq)]
pub enum IOError {
    /// The stream holds no bytes where the operation needed them.
    UnexpectedEof,
    /// A seek aimed before the start of the stream.
    InvalidSeek,
    /// The bytes of a string are not valid UTF-8.
    InvalidData,
}

/// Whether `data` holds `n` bytes starting at offset `at`.
pub open spec fn holds(data: Seq<u8>, at: int, n: int) -> bool {
    0 <= at && 0 <= n && at + n <= data.len()
}

/// The byte at offset `at`.
pub open spec fn u8_at(data: Seq<u8>, at: int) -> u8
    recommends
        holds(data, at, 1),
{
    data[at]
}

/// The byte at offset `at`, read as a two's complement number.
pub open spec fn i8_at(data: Seq<u8>, at: int) -> i8
    recommends
        holds(data, at, 1),
{
    if data[at] < 128 {
        data[at] as i8
    } else {
        (data[at] - 256) as i8
    }
}

/// The two bytes at offset `at`, least significant first.
pub open spec fn u16_at(data: Seq<u8>, at: int) -> u16
    recommends
        holds(data, at, 2),
{
    (data[at] + 0x100 * data[at + 1]) as u16
}

/// The four bytes at offset `at`, least significant first.
pub open spec fn u32_at(data: Seq<u8>, at: int) -> u32
    recommends
        holds(data, at, 4),
{
    (data[at] + 0x100 * data[at + 1] + 0x1_0000 * data[at + 2] + 0x100_0000 * data[at + 3]) as u32
}

/// The length-prefixed string at offset `at`: a 32-bit length, then that
/// many bytes of UTF-8. Gives the text and the offset just behind it.
pub open spec fn string_at(data: Seq<u8>, at: int) -> Result<(Seq<char>, int), IOError> {
    if !holds(data, at, 4) {
        Err(IOError::UnexpectedEof)
    } else {
        let start = at + 4;
        let end = start + u32_at(data, at);
        if end > data.len() {
            Err(IOError::UnexpectedEof)
        } else if !valid_utf8(data.subrange(start, end)) {
            Err(IOError::InvalidData)
        } else {
            Ok((decode_utf8(data.subrange(start, end)), end))
        }
    }
}

/// A read position over borrowed bytes.
///
/// The position may lie beyond the end of the bytes: seeking there is
/// allowed, and only a later read fails.
#[derive(Debug, Clone, Copy)]
pub struct ByteCursor<'a> {
    data: &'a [u8],
    pos: u64,
}

impl<'a> ByteCursor<'a> {
    /// The bytes the cursor reads from.
    pub closed spec fn bytes(&self) -> Seq<u8> {
        self.data@
    }

    /// The offset of the next byte to be read.
    pub closed spec fn pos(&self) -> u64 {
        self.pos
    }

    /// The bytes of a cursor are a slice in memory, so a `usize` counts them.
    pub proof fn lemma_len(&self)
        ensures
            self.bytes().len() <= usize::MAX,
    {
        vstd::slice::axiom_spec_len(self.data);
    }

    /// Whether `n` bytes are left to read at the position.
    pub open spec fn has(&self, n: int) -> bool {
        holds(self.bytes(), self.pos() as int, n)
    }

    /// Whether `after` is this cursor moved to offset `pos`.
    pub open spec fn moved_to(&self, after: Self, pos: int) -> bool {
        after.bytes() == self.bytes() && after.pos() == pos
    }

    /// What reading a value of `n` bytes leaves behind: `value` and a
    /// cursor `n` bytes further when that many bytes are left, and
    /// otherwise [`IOError::UnexpectedEof`] and the cursor as it was.
    pub open spec fn read_as<T>(&self, after: Self, n: int, r: Result<T, IOError>, value: T) -> bool {
        if self.has(n) {
            r == Ok::<T, IOError>(value) && self.moved_to(after, self.pos() + n)
        } else {
            r == Err::<T, IOError>(IOError::UnexpectedEof) && after == *self
        }
    }

    /// What filling `N` bytes leaves behind: the next `N` bytes in the array
    /// and a cursor behind them when that many bytes are left, and
    /// otherwise [`IOError::UnexpectedEof`] with the cursor and the array
    /// as they were.
    pub open spec fn filled<const N: usize>(
        &self,
        after: Self,
        r: Result<(), IOError>,
        before: [u8; N],
        array: [u8; N],
    ) -> bool {
        if self.has(N as int) {
            &&& r is Ok
            &&& array@ == self.bytes().subrange(self.pos() as int, self.pos() + N)
            &&& self.moved_to(after, self.pos() + N)
        } else {
            r == Err::<(), IOError>(IOError::UnexpectedEof) && after == *self && array == before
        }
    }

    /// What reading a string leaves behind: the text of the string at the
    /// position and a cursor behind it, or the error of [`string_at`] and
    /// the cursor as it was.
    pub open spec fn read_text(&self, after: Self, r: Result<String, IOError>) -> bool {
        match string_at(self.bytes(), self.pos() as int) {
            Ok((text, end)) => r matches Ok(s) && s@ == text && self.moved_to(after, end),
            Err(e) => r == Err::<String, IOError>(e) && after == *self,
        }
    }

    /// A cursor at the start of `data`.
    pub fn new(data: &'a [u8]) -> (cursor: Self)
        ensures
            cursor.bytes() == data@,
            cursor.pos() == 0,
    {
        ByteCursor { data, pos: 0 }
    }

    /// The current position, counted in bytes from the start.
    pub fn stream_position(&self) -> (pos: u64)
        ensures
            pos == self.pos(),
    {
        self.pos
    }

    /// Moves the position by `offset` bytes, forward or backward, and
    /// returns the new position.
    ///
    /// A target before the start is an invalid seek. A target beyond the
    /// end of the bytes is fine; one beyond what a position can count is
    /// reported as the end of the stream.
    pub fn seek(&mut self, offset: i64) -> (r: Result<u64, IOError>)
        ensures
            match r {
                Ok(pos) => pos == old(self).pos() + offset && old(self).moved_to(*final(self), pos as int),
                Err(e) => *final(self) == *old(self) && if old(self).pos() + offset < 0 {
                    e == IOError::InvalidSeek
                } else {
                    e == IOError::UnexpectedEof && old(self).pos() + offset > u64::MAX
                },
            },
    {
        if offset < 0 {
            let back: u64 = if offset == i64::MIN {
                0x8000_0000_0000_0000u64
            } else {
                (-offset) as u64
            };
            if back > self.pos {
                return Err(IOError::InvalidSeek);
            }
            self.pos = self.pos - back;
        } else {
            let forward: u64 = offset as u64;
            if forward > u64::MAX - self.pos {
                return Err(IOError::UnexpectedEof);
            }
            self.pos = self.pos + forward;
        }
        Ok(self.pos)
    }
}

/// Fills `b` with the next `N` bytes and moves past them.
///
/// Fails with [`IOError::UnexpectedEof`], changing nothing, when fewer than
/// `N` bytes are left.
pub fn read_bytes<const N: usize>(reader: &mut ByteCursor, b: &mut [u8; N]) -> (r: Result<(), IOError>)
    ensures
        old(reader).filled(*final(reader), r, *old(b), *final(b)),
{
    let len: usize = reader.data.len();
    if reader.pos > len as u64 || (len as u64 - reader.pos) < N as u64 {
        return Err(IOError::UnexpectedEof);
    }
    let start: usize = reader.pos as usize;
    let mut i: usize = 0;
    while i < N
        invariant
            i <= N,
            start + N <= len,
            len == reader.data@.len(),
            *reader == *old(reader),
            start == reader.pos,
            b@.len() == N,
            forall|k: int| 0 <= k < i ==> b@[k] == reader.data@[start + k],
        decreases N - i,
    {
        b[i] = reader.data[start + i];
        i = i + 1;
    }
    reader.pos = reader.pos + N as u64;
    assert(b@ =~= old(reader).bytes().subrange(old(reader).pos() as int, old(reader).pos() + N));
    Ok(())
}

/// Reads one byte as a signed number.
pub fn read_i8(reader: &mut ByteCursor) -> (r: Result<i8, IOError>)
    ensures
        old(reader).read_as(*final(reader), 1, r, i8_at(old(reader).bytes(), old(reader).pos() as int)),
{
    let mut b = [0u8; 1];
    read_bytes(reader, &mut b)?;
    if b[0] < 128 {
        Ok(b[0] as i8)
    } else {
        Ok((b[0] as i16 - 256) as i8)
    }
}

/// Reads one byte.
pub fn read_u8(reader: &mut ByteCursor) -> (r: Result<u8, IOError>)
    ensures
        old(reader).read_as(*final(reader), 1, r, u8_at(old(reader).bytes(), old(reader).pos() as int)),
{
    let mut b = [0u8; 1];
    read_bytes(reader, &mut b)?;
    Ok(b[0])
}

/// Reads a little-endian 16-bit number.
pub fn read_u16(reader: &mut ByteCursor) -> (r: Result<u16, IOError>)
    ensures
        old(reader).read_as(*final(reader), 2, r, u16_at(old(reader).bytes(), old(reader).pos() as int)),
{
    let mut b = [0u8; 2];
    read_bytes(reader, &mut b)?;
    Ok(b[0] as u16 + 0x100 * (b[1] as u16))
}

/// Reads a little-endian 32-bit number.
pub fn read_u32(reader: &mut ByteCursor) -> (r: Result<u32, IOError>)
    ensures
        old(reader).read_as(*final(reader), 4, r, u32_at(old(reader).bytes(), old(reader).pos() as int)),
{
    let mut b = [0u8; 4];
    read_bytes(reader, &mut b)?;
    Ok(b[0] as u32 + 0x100 * (b[1] as u32) + 0x1_0000 * (b[2] as u32) + 0x100_0000 * (b[3] as u32))
}

/// Calls `String::from_utf8` and drops the reason of a refusal.
///
/// Taken on trust: the call accepts exactly the bytes that [`valid_utf8`]
/// accepts, and the string it returns holds the characters that
/// [`decode_utf8`] reads from them.
#[verifier::external_body]
fn string_from_utf8(data: Vec<u8>) -> (text: Option<String>)
    ensures
        text is Some <==> valid_utf8(data@),
        text matches Some(s) ==> s@ == decode_utf8(data@),
{
    match String::from_utf8(data) {
        Ok(s) => Some(s),
        Err(_) => None,
    }
}

/// Reads a length-prefixed string: a little-endian 32-bit length, then
/// that many bytes of UTF-8.
///
/// Fails with [`IOError::UnexpectedEof`] when the length or the bytes run
/// past the end, and with [`IOError::InvalidData`] when the bytes are not
/// valid UTF-8. A failed read leaves the cursor where it was.
pub fn read_string(reader: &mut ByteCursor) -> (r: Result<String, IOError>)
    ensures
        old(reader).read_text(*final(reader), r),
{
    let mut cursor = *reader;
    let size = read_u32(&mut cursor)?;
    let len: usize = cursor.data.len();
    if (len as u64 - cursor.pos) < size as u64 {
        return Err(IOError::UnexpectedEof);
    }
    let start: usize = cursor.pos as usize;
    let end: usize = start + size as usize;
    let data = vstd::slice::slice_to_vec(vstd::slice::slice_subrange(cursor.data, start, end));
    match string_from_utf8(data) {
        Some(s) => {
            cursor.pos = cursor.pos + size as u64;
            *reader = cursor;
            Ok(s)
        },
        None => Err(IOError::InvalidData),
    }
}

impl<'a> ByteCursor<'a> {
    /// Reads one byte as a signed number; see [`read_i8`].
    pub fn read_i8(&mut self) -> (r: Result<i8, IOError>)
        ensures
            old(self).read_as(*final(self), 1, r, i8_at(old(self).bytes(), old(self).pos() as int)),
    {
        read_i8(self)
    }

    /// Reads one byte; see [`read_u8`].
    pub fn read_u8(&mut self) -> (r: Result<u8, IOError>)
        ensures
            old(self).read_as(*final(self), 1, r, u8_at(old(self).bytes(), old(self).pos() as int)),
    {
        read_u8(self)
    }

    /// Reads a little-endian 16-bit number; see [`read_u16`].
    pub fn read_u16(&mut self) -> (r: Result<u16, IOError>)
        ensures
            old(self).read_as(*final(self), 2, r, u16_at(old(self).bytes(), old(self).pos() as int)),
    {
        read_u16(self)
    }

    /// Reads a little-endian 32-bit number; see [`read_u32`].
    pub fn read_u32(&mut self) -> (r: Result<u32, IOError>)
        ensures
            old(self).read_as(*final(self), 4, r, u32_at(old(self).bytes(), old(self).pos() as int)),
    {
        read_u32(self)
    }

    /// Fills `b` with the next `N` bytes; see [`read_bytes`].
    pub fn read_bytes<const N: usize>(&mut self, b: &mut [u8; N]) -> (r: Result<(), IOError>)
        ensures
            old(self).filled(*final(self), r, *old(b), *final(b)),
    {
        read_bytes(self, b)
    }

    /// Reads a length-prefixed string; see [`read_string`].
    pub fn read_string(&mut self) -> (r: Result<String, IOError>)
        ensures
            old(self).read_text(*final(self), r),
    {
        read_string(self)
    }
}

} // verus!
