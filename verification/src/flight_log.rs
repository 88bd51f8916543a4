//! Bookkeeping of the on-board flight log.
//!
//! The flight log stores a header in the first 4096 bytes of the flash
//! memory (see [`LogHeader`]) and, after it, packets one after the other,
//! each a COBS frame ending with a zero byte. This module keeps the cursors
//! and counters of the log: where the next packet is written, where the next
//! packet is read, and how the header changes; the bytes themselves are
//! encoded and moved by the caller.

use vstd::prelude::*;
use crate::w25qxxxjv::driver::{W25qxxxjv, Wusize};
pub use crate::flight_time::FlightTime;
use postcard::Error as PostcardError;
use vstd::string::StringSliceAdditionalSpecFns;

verus! {

/// The bytes `FLIGHTLOG V1`, present in the header to both version the data
/// and detect corruption.
pub const LOG_MAGIC_CONSTANT: [u8; 12] = [
    0x46, 0x4c, 0x49, 0x47, 0x48, 0x54, 0x4c, 0x4f, 0x47, 0x20, 0x56, 0x31,
];

/// Flash address of the first packet, right after the header's sector.
pub const FIRST_PACKET_ADDRESS: Wusize = 0x1000;

/// Number of bytes read from the flash at a time when looking for the end of
/// a packet.
pub const READ_CHUNK_LEN: usize = 32;

/// Longest flight name, in bytes.
pub const FLIGHT_NAME_CAPACITY: usize = 32;

#[verifier::external_type_specification]
#[verifier::external_body]
pub struct ExPostcardError(PostcardError);

/// The name of a flight: a `heapless` string of at most 32 bytes with a
/// one-byte length, as the flight log header stores it. Verus does not see
/// inside the string; what it holds is `flight_name_text`.
#[verifier::external_body]
#[derive(Debug)]
pub struct FlightName {
    name: heapless::String<32, u8>,
}

/// The characters that a flight name holds.
pub uninterp spec fn flight_name_text(name: FlightName) -> Seq<char>;

impl View for FlightName {
    type V = Seq<char>;

    open spec fn view(&self) -> Seq<char> {
        flight_name_text(*self)
    }
}

/// `heapless::String::<32, u8>::try_from(&str)`: it pushes the bytes of
/// `title` into an empty string of capacity 32, which fails exactly when
/// they do not fit; on success the string holds `title`.
#[verifier::external_body]
fn heapless_name_try_from(title: &str) -> (r: Option<FlightName>)
    ensures
        r is Some <==> title.spec_bytes().len() <= FLIGHT_NAME_CAPACITY,
        r matches Some(n) ==> flight_name_text(n) == title@,
{
    match heapless::String::<32, u8>::try_from(title) {
        Ok(name) => Some(FlightName { name }),
        Err(_) => None,
    }
}

/// `heapless::String::<32, u8>::as_str`: the text the string holds, which
/// never takes more than its 32 bytes of capacity.
#[verifier::external_body]
fn heapless_name_as_str(name: &FlightName) -> (r: &str)
    ensures
        r@ == flight_name_text(*name),
        r.spec_bytes().len() <= FLIGHT_NAME_CAPACITY,
{
    name.name.as_str()
}

impl FlightName {
    /// The name `title`, if it fits in 32 bytes.
    pub fn new(title: &str) -> (r: Option<Self>)
        ensures
            r is Some <==> title.spec_bytes().len() <= FLIGHT_NAME_CAPACITY,
            r matches Some(n) ==> n@ == title@,
    {
        heapless_name_try_from(title)
    }

    /// The name as a string slice.
    pub fn as_str(&self) -> (r: &str)
        ensures
            r@ == self@,
            r.spec_bytes().len() <= FLIGHT_NAME_CAPACITY,
    {
        heapless_name_as_str(self)
    }
}

/// Whether two magic values are equal, byte by byte.
fn magic_eq(a: &[u8; 12], b: &[u8; 12]) -> (r: bool)
    ensures
        r == (a@ == b@),
{
    let mut i: usize = 0;
    while i < 12
        invariant
            i <= 12,
            forall|j: int| 0 <= j < i ==> a@[j] == b@[j],
        decreases 12 - i,
    {
        if a[i] != b[i] {
            return false;
        }
        i = i + 1;
    }
    assert(a@ =~= b@);
    true
}

/// A header placed at the very start of the flash, storing persistent state
/// between boots.
#[derive(Debug)]
pub struct LogHeader {
    /// Magic constant (see [`LOG_MAGIC_CONSTANT`]).
    magic: [u8; 12],
    /// The position of the next write (address on the flash).
    write_cursor: Wusize,
    /// Time that the header was last updated.
    pub last_write: FlightTime,
    /// Total number of packets written.
    pub packet_count: usize,
    /// Name of the flight, for tracking.
    pub flight_name: Option<FlightName>,
}

impl LogHeader {
    /// The magic bytes the header holds.
    pub closed spec fn spec_magic(&self) -> Seq<u8> {
        self.magic@
    }

    /// The position of the next packet write.
    pub closed spec fn spec_write_cursor(&self) -> Wusize {
        self.write_cursor
    }

    /// The time of the last update.
    pub closed spec fn spec_last_write(&self) -> FlightTime {
        self.last_write
    }

    /// The number of packets written.
    pub closed spec fn spec_packet_count(&self) -> usize {
        self.packet_count
    }

    /// The flight name, if set.
    pub closed spec fn spec_flight_name(&self) -> Option<Seq<char>> {
        match self.flight_name {
            Some(n) => Some(n@),
            None => None,
        }
    }

    /// The header of an empty log, stamped with time `now`.
    pub fn fresh(now: FlightTime) -> (r: Self)
        ensures
            r.spec_magic() == LOG_MAGIC_CONSTANT@,
            r.spec_write_cursor() == FIRST_PACKET_ADDRESS,
            r.spec_last_write() == now,
            r.spec_packet_count() == 0,
            r.spec_flight_name() is None,
    {
        LogHeader {
            magic: LOG_MAGIC_CONSTANT,
            write_cursor: FIRST_PACKET_ADDRESS,
            last_write: now,
            packet_count: 0,
            flight_name: None,
        }
    }

    /// A header with the given fields (as decoded from the flash).
    pub fn from_parts(
        magic: [u8; 12],
        write_cursor: Wusize,
        last_write: FlightTime,
        packet_count: usize,
        flight_name: Option<FlightName>,
    ) -> (r: Self)
        ensures
            r.spec_magic() == magic@,
            r.spec_write_cursor() == write_cursor,
            r.spec_last_write() == last_write,
            r.spec_packet_count() == packet_count,
            r.spec_flight_name() == (match flight_name {
                Some(n) => Some(n@),
                None => None::<Seq<char>>,
            }),
    {
        LogHeader { magic, write_cursor, last_write, packet_count, flight_name }
    }

    /// The magic bytes.
    pub fn magic(&self) -> (r: [u8; 12])
        ensures
            r@ == self.spec_magic(),
    {
        self.magic
    }

    /// The position of the next packet write.
    pub fn write_cursor(&self) -> (r: Wusize)
        ensures
            r == self.spec_write_cursor(),
    {
        self.write_cursor
    }

    /// Whether the header carries the magic constant of this log version.
    pub fn magic_matches(&self) -> (r: bool)
        ensures
            r == (self.spec_magic() == LOG_MAGIC_CONSTANT@),
    {
        magic_eq(&self.magic, &LOG_MAGIC_CONSTANT)
    }
}

impl Default for LogHeader {
    /// The header of an empty log, stamped with the current time.
    fn default() -> (r: Self)
        ensures
            r.spec_magic() == LOG_MAGIC_CONSTANT@,
            r.spec_write_cursor() == FIRST_PACKET_ADDRESS,
            r.spec_packet_count() == 0,
            r.spec_flight_name() is None,
    {
        LogHeader::fresh(FlightTime::now())
    }
}

/// Error type for [`FlightLog`].
#[derive(Debug)]
pub enum Error<E> {
    W25(E),
    Serde(PostcardError),
    Cobs,
    MagicMismatch,
}

/// What feeding one chunk of flash bytes to the COBS frame accumulator gave:
/// the number of bytes of the chunk left after the end of the frame, if one
/// ended in it.
#[derive(Clone, Copy, Debug, PartialEq, Eq, Structural)]
pub enum FeedOutcome {
    /// The whole chunk went into the pending frame.
    Consumed,
    /// A frame ended but did not decode.
    DeserError { remaining: usize },
    /// The pending frame outgrew the accumulator.
    OverFull { remaining: usize },
    /// A frame ended and decoded into a packet.
    Success { remaining: usize },
}

/// Where the read cursor stands after a chunk read at `cursor` was fed.
pub open spec fn cursor_after_feed(cursor: int, outcome: FeedOutcome) -> int {
    match outcome {
        FeedOutcome::Consumed => cursor + READ_CHUNK_LEN,
        FeedOutcome::DeserError { remaining } => cursor + READ_CHUNK_LEN - remaining,
        FeedOutcome::OverFull { remaining } => cursor + READ_CHUNK_LEN - remaining,
        FeedOutcome::Success { remaining } => cursor + READ_CHUNK_LEN - remaining,
    }
}

/// The number of bytes left over by an outcome.
pub open spec fn outcome_remaining(outcome: FeedOutcome) -> int {
    match outcome {
        FeedOutcome::Consumed => 0,
        FeedOutcome::DeserError { remaining } => remaining as int,
        FeedOutcome::OverFull { remaining } => remaining as int,
        FeedOutcome::Success { remaining } => remaining as int,
    }
}

/// A wrapper around the flash memory that handles flight log logic.
pub struct FlightLog<'a, S, CS, D> {
    w25: W25qxxxjv<'a, S, CS, D>,
    /// The position of the next read (address on the flash).
    read_cursor: Wusize,
    /// Header to be written to the start.
    pub header: LogHeader,
}

impl<'a, S, CS, D> FlightLog<'a, S, CS, D> {
    /// The flash memory.
    pub closed spec fn flash(&self) -> W25qxxxjv<'a, S, CS, D> {
        self.w25
    }

    /// The position of the next packet read.
    pub closed spec fn spec_read_cursor(&self) -> Wusize {
        self.read_cursor
    }

    /// The header kept in memory.
    pub closed spec fn spec_header(&self) -> LogHeader {
        self.header
    }

    /// Creates a new flight log from a given flash memory.
    pub fn new(w25: W25qxxxjv<'a, S, CS, D>) -> (r: Self)
        ensures
            r.flash() == w25,
            r.spec_read_cursor() == FIRST_PACKET_ADDRESS,
            r.spec_header().spec_magic() == LOG_MAGIC_CONSTANT@,
            r.spec_header().spec_write_cursor() == FIRST_PACKET_ADDRESS,
            r.spec_header().spec_packet_count() == 0,
            r.spec_header().spec_flight_name() is None,
    {
        Self { w25, read_cursor: FIRST_PACKET_ADDRESS, header: LogHeader::default() }
    }

    /// Consumes the flight log type, returning the interior flash memory.
    pub fn destroy(self) -> (r: W25qxxxjv<'a, S, CS, D>)
        ensures
            r == self.flash(),
    {
        self.w25
    }

    /// Lends the flash memory out to carry out an operation.
    pub fn flash_mut(&mut self) -> (r: &mut W25qxxxjv<'a, S, CS, D>)
        ensures
            *r == old(self).flash(),
            final(self).flash() == *final(r),
            final(self).spec_read_cursor() == old(self).spec_read_cursor(),
            final(self).spec_header() == old(self).spec_header(),
    {
        &mut self.w25
    }

    /// Resets the internal state of the flight log, including the header.
    ///
    /// To avoid data-loss, the header should be read again.
    pub fn reset(&mut self)
        ensures
            final(self).flash() == old(self).flash(),
            final(self).spec_read_cursor() == FIRST_PACKET_ADDRESS,
            final(self).spec_header().spec_magic() == LOG_MAGIC_CONSTANT@,
            final(self).spec_header().spec_write_cursor() == FIRST_PACKET_ADDRESS,
            final(self).spec_header().spec_packet_count() == 0,
            final(self).spec_header().spec_flight_name() is None,
    {
        self.header = LogHeader::default();
        self.reset_cursor();
    }

    /// Resets the read cursor of the flight log to the first packet.
    pub fn reset_cursor(&mut self)
        ensures
            final(self).flash() == old(self).flash(),
            final(self).spec_read_cursor() == FIRST_PACKET_ADDRESS,
            final(self).spec_header() == old(self).spec_header(),
    {
        self.read_cursor = FIRST_PACKET_ADDRESS;
    }

    /// The position of the next packet read.
    pub fn read_cursor(&self) -> (r: Wusize)
        ensures
            r == self.spec_read_cursor(),
    {
        self.read_cursor
    }

    /// Takes a header read from the flash, if it carries the magic constant
    /// of this log version; otherwise the log is left as it was.
    pub fn install_header<E>(&mut self, header: LogHeader) -> (r: Result<(), Error<E>>)
        ensures
            r is Ok <==> header.spec_magic() == LOG_MAGIC_CONSTANT@,
            r matches Err(e) ==> e is MagicMismatch,
            r is Ok ==> final(self).spec_header() == header,
            r is Err ==> final(self).spec_header() == old(self).spec_header(),
            final(self).flash() == old(self).flash(),
            final(self).spec_read_cursor() == old(self).spec_read_cursor(),
    {
        if !header.magic_matches() {
            return Err(Error::MagicMismatch);
        }
        self.header = header;
        Ok(())
    }

    /// Stamps the header with the given time of the last write; every other
    /// field of the header, the read cursor and the flash are left as they
    /// were.
    pub fn stamp_header(&mut self, now: FlightTime)
        ensures
            final(self).spec_header().spec_last_write() == now,
            final(self).flash() == old(self).flash(),
            final(self).spec_read_cursor() == old(self).spec_read_cursor(),
            final(self).spec_header().spec_magic() == old(self).spec_header().spec_magic(),
            final(self).spec_header().spec_write_cursor() == old(self).spec_header().spec_write_cursor(),
            final(self).spec_header().spec_packet_count() == old(self).spec_header().spec_packet_count(),
            final(self).spec_header().spec_flight_name() == old(self).spec_header().spec_flight_name(),
    {
        self.header.last_write = now;
    }

    /// Stamps the header with the current time, before it is written out, and
    /// returns the time it stamped.
    pub fn touch_header(&mut self) -> (stamped: FlightTime)
        ensures
            final(self).spec_header().spec_last_write() == stamped,
            final(self).flash() == old(self).flash(),
            final(self).spec_read_cursor() == old(self).spec_read_cursor(),
            final(self).spec_header().spec_magic() == old(self).spec_header().spec_magic(),
            final(self).spec_header().spec_write_cursor() == old(self).spec_header().spec_write_cursor(),
            final(self).spec_header().spec_packet_count() == old(self).spec_header().spec_packet_count(),
            final(self).spec_header().spec_flight_name() == old(self).spec_header().spec_flight_name(),
    {
        let now = FlightTime::now();
        self.stamp_header(now);
        now
    }

    /// Where the next packet is written.
    pub fn packet_address(&self) -> (r: Wusize)
        ensures
            r == self.spec_header().spec_write_cursor(),
    {
        self.header.write_cursor
    }

    /// Records that a packet frame of `len` bytes was written at the packet
    /// address: the next one goes right after it.
    pub fn record_packet(&mut self, len: usize)
        requires
            old(self).spec_header().spec_write_cursor() + len <= Wusize::MAX,
            old(self).spec_header().spec_packet_count() < usize::MAX,
        ensures
            final(self).spec_header().spec_write_cursor() == old(self).spec_header().spec_write_cursor() + len,
            final(self).spec_header().spec_packet_count() == old(self).spec_header().spec_packet_count() + 1,
            final(self).spec_header().spec_magic() == old(self).spec_header().spec_magic(),
            final(self).spec_header().spec_last_write() == old(self).spec_header().spec_last_write(),
            final(self).spec_header().spec_flight_name() == old(self).spec_header().spec_flight_name(),
            final(self).flash() == old(self).flash(),
            final(self).spec_read_cursor() == old(self).spec_read_cursor(),
    {
        self.header.write_cursor = self.header.write_cursor + len as Wusize;
        self.header.packet_count = self.header.packet_count + 1;
    }

    /// Completes a packet push once the flash write of its frame of `len`
    /// bytes at the packet address has returned: if the write went through,
    /// the packet is recorded (see `record_packet`); if it failed, the log is
    /// left as it was and the flash error is passed on.
    pub fn finish_packet_write<E>(&mut self, len: usize, written: Result<(), E>) -> (r: Result<(), Error<E>>)
        requires
            written is Ok ==> old(self).spec_header().spec_write_cursor() + len <= Wusize::MAX,
            written is Ok ==> old(self).spec_header().spec_packet_count() < usize::MAX,
        ensures
            r is Ok <==> written is Ok,
            written matches Err(e) ==> (r matches Err(Error::W25(f)) && f == e),
            written is Ok ==> {
                &&& final(self).spec_header().spec_write_cursor() == old(self).spec_header().spec_write_cursor() + len
                &&& final(self).spec_header().spec_packet_count() == old(self).spec_header().spec_packet_count() + 1
                &&& final(self).spec_header().spec_magic() == old(self).spec_header().spec_magic()
                &&& final(self).spec_header().spec_last_write() == old(self).spec_header().spec_last_write()
                &&& final(self).spec_header().spec_flight_name() == old(self).spec_header().spec_flight_name()
            },
            written is Err ==> final(self).spec_header() == old(self).spec_header(),
            final(self).flash() == old(self).flash(),
            final(self).spec_read_cursor() == old(self).spec_read_cursor(),
    {
        match written {
            Ok(()) => {
                self.record_packet(len);
                Ok(())
            },
            Err(e) => Err(Error::W25(e)),
        }
    }

    /// Moves the read cursor past the bytes of the chunk read at it that the
    /// frame accumulator took, and says whether a packet is complete (`Ok(true)`),
    /// more chunks are needed (`Ok(false)`) or the frame was bad (`Err(Cobs)`,
    /// with the cursor past the bad frame).
    pub fn on_feed<E>(&mut self, outcome: FeedOutcome) -> (r: Result<bool, Error<E>>)
        requires
            old(self).spec_read_cursor() + READ_CHUNK_LEN <= Wusize::MAX,
            outcome_remaining(outcome) <= READ_CHUNK_LEN,
        ensures
            final(self).spec_read_cursor() == cursor_after_feed(old(self).spec_read_cursor() as int, outcome),
            final(self).flash() == old(self).flash(),
            final(self).spec_header() == old(self).spec_header(),
            outcome is Consumed <==> r == Ok::<bool, Error<E>>(false),
            outcome is Success <==> r == Ok::<bool, Error<E>>(true),
            (outcome is DeserError || outcome is OverFull) <==> r is Err,
            r matches Err(e) ==> e is Cobs,
    {
        match outcome {
            FeedOutcome::Consumed => {
                self.read_cursor = self.read_cursor + READ_CHUNK_LEN as Wusize;
                Ok(false)
            },
            FeedOutcome::DeserError { remaining } => {
                self.read_cursor = self.read_cursor + (READ_CHUNK_LEN - remaining) as Wusize;
                Err(Error::Cobs)
            },
            FeedOutcome::OverFull { remaining } => {
                self.read_cursor = self.read_cursor + (READ_CHUNK_LEN - remaining) as Wusize;
                Err(Error::Cobs)
            },
            FeedOutcome::Success { remaining } => {
                self.read_cursor = self.read_cursor + (READ_CHUNK_LEN - remaining) as Wusize;
                Ok(true)
            },
        }
    }
}

/// Where the read cursor stands after the chunks of a frame of `len` bytes
/// starting at `cursor` were fed: all full chunks before the one holding the
/// frame's last byte are taken whole, and from that chunk only what belongs
/// to the frame.
pub open spec fn cursor_after_frame(cursor: int, len: nat) -> int
    decreases len,
{
    if len <= READ_CHUNK_LEN {
        cursor_after_feed(cursor, FeedOutcome::Success { remaining: (READ_CHUNK_LEN - len) as usize })
    } else {
        cursor_after_frame(cursor_after_feed(cursor, FeedOutcome::Consumed), (len - READ_CHUNK_LEN) as nat)
    }
}

/// Reading picks up exactly where writing put the packets: a frame of `len`
/// bytes at the read cursor, read chunk by chunk, leaves the cursor at the
/// next frame, as the write cursor advanced by `len` when it was written.
pub proof fn lemma_read_follows_write(cursor: int, len: nat)
    requires
        len > 0,
    ensures
        cursor_after_frame(cursor, len) == cursor + len,
    decreases len,
{
    if len > READ_CHUNK_LEN {
        lemma_read_follows_write(cursor + READ_CHUNK_LEN, (len - READ_CHUNK_LEN) as nat);
    }
}

} // verus!
