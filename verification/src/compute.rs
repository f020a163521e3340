//! The compute track: a one-shot dispatch over a buffer of pixel records,
//! followed by a device-side copy into a read-back buffer and an asynchronous
//! mapping of that buffer.
//!
//! The session here is the verified model of the GPU resource set: it fixes
//! the byte layout of the uploaded records, the sizes and usages of the two
//! buffers, the binding layout, the dispatch geometry and the copy range, and
//! it tracks the buffer contents as they stand on the device timeline. The
//! backend performs the actual device negotiation, submission and mapping,
//! and feeds their outcomes back in as plain values.

use vstd::prelude::*;

use crate::state::Error;
use crate::state::Negotiation;

verus! {

/// One pixel-like record: four 32-bit channels, stored as the raw bit
/// patterns of the channel values. The record is the unit of transfer to and
/// from GPU-visible memory; it is laid out contiguously, each channel as four
/// little-endian bytes, sixteen bytes per record, no padding.
#[derive(Clone, Copy, Debug, PartialEq, Eq, Structural)]
pub struct Pixel {
    pub r: u32,
    pub g: u32,
    pub b: u32,
    pub a: u32,
}

/// The number of bytes one record occupies in a GPU-visible buffer.
pub const BYTES_PER_PIXEL: usize = 16;

/// The four little-endian bytes of one 32-bit channel.
pub open spec fn le_bytes_of_u32(x: u32) -> Seq<u8> {
    seq![
        (x & 0xff) as u8,
        ((x >> 8) & 0xff) as u8,
        ((x >> 16) & 0xff) as u8,
        ((x >> 24) & 0xff) as u8,
    ]
}

/// The 32-bit channel encoded by four little-endian bytes.
pub open spec fn u32_of_le_bytes(b0: u8, b1: u8, b2: u8, b3: u8) -> u32 {
    (b0 as u32) | ((b1 as u32) << 8) | ((b2 as u32) << 16) | ((b3 as u32) << 24)
}

/// The sixteen bytes of one record: the four channels in order, each as four
/// little-endian bytes.
pub open spec fn bytes_of_pixel(p: Pixel) -> Seq<u8> {
    le_bytes_of_u32(p.r) + le_bytes_of_u32(p.g) + le_bytes_of_u32(p.b) + le_bytes_of_u32(p.a)
}

/// The record encoded by sixteen bytes.
pub open spec fn pixel_of_bytes(bytes: Seq<u8>) -> Pixel
    recommends
        bytes.len() == 16,
{
    Pixel {
        r: u32_of_le_bytes(bytes[0], bytes[1], bytes[2], bytes[3]),
        g: u32_of_le_bytes(bytes[4], bytes[5], bytes[6], bytes[7]),
        b: u32_of_le_bytes(bytes[8], bytes[9], bytes[10], bytes[11]),
        a: u32_of_le_bytes(bytes[12], bytes[13], bytes[14], bytes[15]),
    }
}

/// The contiguous byte image of a sequence of records.
pub open spec fn bytes_of_records(s: Seq<Pixel>) -> Seq<u8>
    decreases s.len(),
{
    if s.len() == 0 {
        Seq::empty()
    } else {
        bytes_of_pixel(s[0]) + bytes_of_records(s.drop_first())
    }
}

/// The records encoded by a contiguous byte image, sixteen bytes at a time.
pub open spec fn records_of_bytes(bytes: Seq<u8>) -> Seq<Pixel>
    decreases bytes.len(),
{
    if bytes.len() < 16 {
        Seq::empty()
    } else {
        seq![pixel_of_bytes(bytes.take(16))] + records_of_bytes(bytes.skip(16))
    }
}

/// Reading a channel back from its four little-endian bytes yields the
/// channel.
proof fn lemma_u32_le_round_trip(x: u32)
    ensures
        u32_of_le_bytes(
            (x & 0xff) as u8,
            ((x >> 8) & 0xff) as u8,
            ((x >> 16) & 0xff) as u8,
            ((x >> 24) & 0xff) as u8,
        ) == x,
{
    assert((((x & 0xff) as u8) as u32 | ((((x >> 8) & 0xff) as u8) as u32) << 8 | ((((x >> 16)
        & 0xff) as u8) as u32) << 16 | ((((x >> 24) & 0xff) as u8) as u32) << 24) == x)
        by (bit_vector);
}

/// Reading a record back from its sixteen bytes yields the record.
proof fn lemma_pixel_round_trip(p: Pixel)
    ensures
        bytes_of_pixel(p).len() == 16,
        pixel_of_bytes(bytes_of_pixel(p)) == p,
{
    lemma_u32_le_round_trip(p.r);
    lemma_u32_le_round_trip(p.g);
    lemma_u32_le_round_trip(p.b);
    lemma_u32_le_round_trip(p.a);
}

/// Appending one record to a sequence appends its sixteen bytes to the byte
/// image.
proof fn lemma_bytes_of_records_push(s: Seq<Pixel>, p: Pixel)
    ensures
        bytes_of_records(s.push(p)) == bytes_of_records(s) + bytes_of_pixel(p),
    decreases s.len(),
{
    let sp = s.push(p);
    if s.len() == 0 {
        assert(sp.drop_first() =~= Seq::<Pixel>::empty());
        assert(bytes_of_records(sp.drop_first()) =~= Seq::<u8>::empty());
        assert(bytes_of_records(s) =~= Seq::<u8>::empty());
        assert(bytes_of_records(sp) =~= bytes_of_records(s) + bytes_of_pixel(p));
    } else {
        lemma_bytes_of_records_push(s.drop_first(), p);
        assert(sp.drop_first() =~= s.drop_first().push(p));
        assert(sp[0] == s[0]);
        assert(bytes_of_records(sp) == bytes_of_pixel(s[0]) + bytes_of_records(
            s.drop_first().push(p),
        ));
        assert(bytes_of_records(sp) =~= bytes_of_records(s) + bytes_of_pixel(p));
    }
}

/// Decoding distributes over concatenation at a record boundary.
proof fn lemma_records_of_bytes_concat(a: Seq<u8>, b: Seq<u8>)
    requires
        a.len() % 16 == 0,
    ensures
        records_of_bytes(a + b) == records_of_bytes(a) + records_of_bytes(b),
    decreases a.len(),
{
    if a.len() == 0 {
        assert(a + b =~= b);
        assert(records_of_bytes(a) + records_of_bytes(b) =~= records_of_bytes(b));
    } else {
        assert(a.len() >= 16);
        assert((a + b).take(16) =~= a.take(16));
        assert((a + b).skip(16) =~= a.skip(16) + b);
        assert(a.skip(16).len() % 16 == 0);
        lemma_records_of_bytes_concat(a.skip(16), b);
        assert(records_of_bytes(a + b) =~= records_of_bytes(a) + records_of_bytes(b));
    }
}

/// The byte image of N records is exactly 16·N bytes long, and decoding it
/// yields the same N records, index for index: the round trip through the
/// record byte layout preserves element count, order and content.
pub proof fn lemma_record_round_trip(s: Seq<Pixel>)
    ensures
        bytes_of_records(s).len() == 16 * s.len(),
        records_of_bytes(bytes_of_records(s)) == s,
    decreases s.len(),
{
    if s.len() == 0 {
        assert(records_of_bytes(bytes_of_records(s)) =~= s);
    } else {
        let head = s[0];
        let tail = s.drop_first();
        lemma_pixel_round_trip(head);
        lemma_record_round_trip(tail);
        let bytes = bytes_of_records(s);
        assert(bytes =~= bytes_of_pixel(head) + bytes_of_records(tail));
        assert(bytes.take(16) =~= bytes_of_pixel(head));
        assert(bytes.skip(16) =~= bytes_of_records(tail));
        assert(records_of_bytes(bytes) =~= seq![head] + tail);
        assert(seq![head] + tail =~= s);
    }
}

/// A byte image whose length is a multiple of sixteen decodes to one record
/// per sixteen bytes.
pub proof fn lemma_records_of_bytes_len(bytes: Seq<u8>)
    requires
        bytes.len() % 16 == 0,
    ensures
        16 * records_of_bytes(bytes).len() == bytes.len(),
    decreases bytes.len(),
{
    if bytes.len() >= 16 {
        lemma_records_of_bytes_len(bytes.skip(16));
    }
}

/// Appends the four little-endian bytes of one channel.
fn push_u32_le(bytes: &mut Vec<u8>, x: u32)
    ensures
        final(bytes)@ == old(bytes)@ + le_bytes_of_u32(x),
{
    bytes.push((x & 0xff) as u8);
    bytes.push(((x >> 8) & 0xff) as u8);
    bytes.push(((x >> 16) & 0xff) as u8);
    bytes.push(((x >> 24) & 0xff) as u8);
    assert(final(bytes)@ =~= old(bytes)@ + le_bytes_of_u32(x));
}

/// Encodes a sequence of records into their contiguous byte image, as they
/// are uploaded verbatim into a GPU-visible buffer.
pub fn encode_records(records: &Vec<Pixel>) -> (bytes: Vec<u8>)
    ensures
        bytes@ == bytes_of_records(records@),
{
    let mut bytes: Vec<u8> = Vec::new();
    let mut i: usize = 0;
    while i < records.len()
        invariant
            i <= records@.len(),
            bytes@ == bytes_of_records(records@.take(i as int)),
        decreases records@.len() - i,
    {
        let p = records[i];
        push_u32_le(&mut bytes, p.r);
        push_u32_le(&mut bytes, p.g);
        push_u32_le(&mut bytes, p.b);
        push_u32_le(&mut bytes, p.a);
        proof {
            lemma_bytes_of_records_push(records@.take(i as int), p);
            assert(records@.take(i + 1) =~= records@.take(i as int).push(p));
            assert(bytes@ =~= bytes_of_records(records@.take(i + 1)));
        }
        i = i + 1;
    }
    proof {
        assert(records@.take(records@.len() as int) =~= records@);
    }
    bytes
}

/// Reads one little-endian channel at the given offset.
fn read_u32_le(bytes: &Vec<u8>, off: usize) -> (x: u32)
    requires
        off + 4 <= bytes@.len(),
    ensures
        x == u32_of_le_bytes(bytes@[off as int], bytes@[off + 1], bytes@[off + 2], bytes@[off + 3]),
{
    let n: usize = bytes.len();
    assert(off + 4 <= n);
    let b0 = bytes[off];
    let b1 = bytes[off + 1];
    let b2 = bytes[off + 2];
    let b3 = bytes[off + 3];
    (b0 as u32) | ((b1 as u32) << 8u32) | ((b2 as u32) << 16u32) | ((b3 as u32) << 24u32)
}

/// Decodes a contiguous byte image back into its records, as a mapped
/// read-back buffer is reinterpreted after a successful mapping.
pub fn decode_records(bytes: &Vec<u8>) -> (records: Vec<Pixel>)
    requires
        bytes@.len() % 16 == 0,
    ensures
        records@ == records_of_bytes(bytes@),
{
    let mut records: Vec<Pixel> = Vec::new();
    let total: usize = bytes.len();
    let n: usize = total / 16;
    proof {
        vstd::arithmetic::div_mod::lemma_fundamental_div_mod(bytes@.len() as int, 16);
    }
    let mut i: usize = 0;
    while i < n
        invariant
            i <= n,
            total == bytes@.len(),
            16 * n == total,
            records@ == records_of_bytes(bytes@.take(16 * i)),
        decreases n - i,
    {
        let off: usize = 16 * i;
        let p = Pixel {
            r: read_u32_le(bytes, off),
            g: read_u32_le(bytes, off + 4),
            b: read_u32_le(bytes, off + 8),
            a: read_u32_le(bytes, off + 12),
        };
        records.push(p);
        proof {
            let done = bytes@.take(off as int);
            let chunk = bytes@.subrange(off as int, off + 16);
            assert(done.len() % 16 == 0);
            lemma_records_of_bytes_concat(done, chunk);
            assert(bytes@.take(off + 16) =~= done + chunk);
            assert(chunk.len() == 16);
            assert(chunk.skip(16) =~= Seq::<u8>::empty());
            assert(records_of_bytes(chunk.skip(16)) =~= Seq::<Pixel>::empty());
            assert(chunk.take(16) =~= chunk);
            assert(records_of_bytes(chunk) =~= seq![pixel_of_bytes(chunk)]);
            assert(p == pixel_of_bytes(chunk));
            assert(records@ =~= records_of_bytes(bytes@.take(16 * (i + 1))));
        }
        i = i + 1;
    }
    proof {
        assert(bytes@.take(16 * n as int) =~= bytes@);
    }
    records
}

/// Fills a byte vector of the given length with zeroes, as the device
/// zero-initializes a freshly allocated buffer that is not mapped at
/// creation.
fn zeroed_bytes(n: usize) -> (bytes: Vec<u8>)
    ensures
        bytes@ == Seq::new(n as nat, |i: int| 0u8),
{
    let mut bytes: Vec<u8> = Vec::new();
    let mut i: usize = 0;
    while i < n
        invariant
            i <= n,
            bytes@ == Seq::new(i as nat, |j: int| 0u8),
        decreases n - i,
    {
        bytes.push(0u8);
        proof {
            assert(bytes@ =~= Seq::new((i + 1) as nat, |j: int| 0u8));
        }
        i = i + 1;
    }
    bytes
}

/// Usage capabilities a buffer is allocated with.
#[derive(Clone, Copy, Debug, PartialEq, Eq, Structural)]
pub struct BufferUsage {
    pub map_read: bool,
    pub copy_src: bool,
    pub copy_dst: bool,
}

/// The single resource bound to the compute program: a read-write storage
/// buffer.
#[derive(Clone, Copy, Debug, PartialEq, Eq, Structural)]
pub struct StorageBinding {
    pub slot: u32,
    pub read_only: bool,
}

/// Workgroup counts of one dispatch, one per dimension.
#[derive(Clone, Copy, Debug, PartialEq, Eq, Structural)]
pub struct DispatchSize {
    pub x: u32,
    pub y: u32,
    pub z: u32,
}

/// One device-side buffer-to-buffer copy: byte offsets into source and
/// destination, and the number of bytes copied.
#[derive(Clone, Copy, Debug, PartialEq, Eq, Structural)]
pub struct BufferCopy {
    pub src_offset: u64,
    pub dst_offset: u64,
    pub size: u64,
}

/// One submitted compute command sequence, in program order on the device
/// timeline: bind the storage buffer, dispatch, then copy the input buffer
/// into the read-back buffer.
#[derive(Clone, Copy, Debug, PartialEq, Eq, Structural)]
pub struct ComputeCommands {
    pub bind_slot: u32,
    pub dispatch: DispatchSize,
    pub copy: BufferCopy,
}

/// The usage set of the input buffer: host-visible, readable and writable by
/// copies.
pub fn input_buffer_usage() -> (u: BufferUsage)
    ensures
        u == (BufferUsage { map_read: true, copy_src: true, copy_dst: true }),
{
    BufferUsage { map_read: true, copy_src: true, copy_dst: true }
}

/// The usage set of the read-back buffer: host-readable, copy destination
/// only.
pub fn output_buffer_usage() -> (u: BufferUsage)
    ensures
        u == (BufferUsage { map_read: true, copy_src: false, copy_dst: true }),
{
    BufferUsage { map_read: true, copy_src: false, copy_dst: true }
}

/// The binding of the input buffer to the compute program: slot 0, read-write
/// storage.
pub fn storage_binding() -> (b: StorageBinding)
    ensures
        b == (StorageBinding { slot: 0, read_only: false }),
{
    StorageBinding { slot: 0, read_only: false }
}

/// The compute session: an independent GPU resource set that uploads a
/// sequence of records into a GPU-visible input buffer, dispatches one
/// workgroup per record, copies the input buffer into a read-back buffer and
/// maps it for the caller.
///
/// The session tracks the contents of both buffers as they stand on the
/// device timeline once each submission has completed, with the compute
/// program modeled as leaving the records unchanged — its effect is an opaque
/// program artifact outside the core, and the element count and order of the
/// read-back are independent of it.
#[derive(Debug)]
pub struct ComputeRGBA {
    data: Vec<Pixel>,
    input_contents: Vec<u8>,
    output_contents: Vec<u8>,
    len: u32,
}

impl ComputeRGBA {
    /// The records uploaded at construction.
    pub closed spec fn records(self) -> Seq<Pixel> {
        self.data@
    }

    /// The bytes the input buffer holds.
    pub closed spec fn input_model(self) -> Seq<u8> {
        self.input_contents@
    }

    /// The bytes the read-back buffer holds.
    pub closed spec fn output_model(self) -> Seq<u8> {
        self.output_contents@
    }

    /// The read-back buffer has received the full byte range of the input
    /// buffer.
    pub open spec fn output_filled(self) -> bool {
        self.output_model() == self.input_model()
    }

    /// Well-formedness: the element count fits the counter, the input buffer
    /// holds exactly the byte image of the records, and the read-back buffer
    /// has the same byte size.
    pub closed spec fn wf(self) -> bool {
        &&& self.len == self.data@.len()
        &&& self.input_contents@ == bytes_of_records(self.data@)
        &&& self.output_contents@.len() == self.input_contents@.len()
    }

    /// Builds the session from the records and the outcome of the device
    /// negotiation: fails with `AdapterRequestError` when no adapter was
    /// found, with `DeviceRequestError` carrying the backend's cause when the
    /// device request was rejected, and otherwise uploads the records
    /// verbatim into the input buffer and allocates a zeroed read-back buffer
    /// of identical byte size.
    pub fn new(data: Vec<Pixel>, negotiation: Negotiation) -> (r: Result<ComputeRGBA, Error>)
        requires
            data@.len() <= u32::MAX,
            16 * data@.len() <= usize::MAX,
        ensures
            !negotiation.adapter_available ==> r == Err::<ComputeRGBA, Error>(
                Error::AdapterRequestError,
            ),
            negotiation.adapter_available ==> (negotiation.device_error matches Some(cause)
                ==> r == Err::<ComputeRGBA, Error>(Error::DeviceRequestError(cause))),
            negotiation.adapter_available && negotiation.device_error is None ==> (r matches Ok(
                s,
            ) && s.wf() && s.records() == data@ && s.input_model() == bytes_of_records(data@)
                && s.output_model() == Seq::new((16 * data@.len()) as nat, |i: int| 0u8)),
    {
        if !negotiation.adapter_available {
            return Err(Error::AdapterRequestError);
        }
        match negotiation.device_error {
            Some(cause) => Err(Error::DeviceRequestError(cause)),
            None => {
                let input_contents = encode_records(&data);
                proof {
                    lemma_record_round_trip(data@);
                }
                let output_contents = zeroed_bytes(input_contents.len());
                let len: u32 = data.len() as u32;
                Ok(ComputeRGBA { data, input_contents, output_contents, len })
            },
        }
    }

    /// Dispatches the compute program with one workgroup per record along
    /// the first dimension — the second and third dimensions are always 1 —
    /// and copies the full byte range of the input buffer into the read-back
    /// buffer, in one command sequence. Returns the recorded commands for the
    /// backend to submit; the session's read-back buffer holds the input
    /// bytes once that submission completes on the device timeline.
    pub fn run_operation(&mut self) -> (c: ComputeCommands)
        requires
            old(self).wf(),
        ensures
            final(self).wf(),
            final(self).records() == old(self).records(),
            final(self).input_model() == old(self).input_model(),
            final(self).output_filled(),
            c.bind_slot == 0,
            c.dispatch.x == old(self).records().len(),
            c.dispatch.y == 1,
            c.dispatch.z == 1,
            c.copy.src_offset == 0,
            c.copy.dst_offset == 0,
            c.copy.size == old(self).input_model().len(),
            c.copy.size == 16 * old(self).records().len(),
    {
        proof {
            lemma_record_round_trip(self.data@);
        }
        self.output_contents = encode_records(&self.data);
        let size: u64 = 16u64 * (self.len as u64);
        ComputeCommands {
            bind_slot: 0,
            dispatch: DispatchSize { x: self.len, y: 1, z: 1 },
            copy: BufferCopy { src_offset: 0, dst_offset: 0, size },
        }
    }

    /// Reinterprets the mapped read-back buffer as records once the device
    /// has signalled the outcome of the asynchronous mapping: on failure
    /// there is no result — the transport reports only success or failure —
    /// and on success the returned sequence has exactly one record per
    /// sixteen mapped bytes; once the read-back buffer has been filled, it is
    /// the uploaded records themselves, index for index.
    pub fn slice_output(&self, map_ok: bool) -> (r: Option<Vec<Pixel>>)
        requires
            self.wf(),
        ensures
            !map_ok ==> r is None,
            map_ok ==> (r matches Some(v) && v@ == records_of_bytes(self.output_model())
                && v@.len() == self.records().len()),
            map_ok && self.output_filled() ==> (r matches Some(v) && v@ == self.records()),
    {
        if !map_ok {
            return None;
        }
        proof {
            lemma_record_round_trip(self.data@);
            vstd::arithmetic::div_mod::lemma_mod_multiples_basic(
                self.data@.len() as int,
                16,
            );
            lemma_records_of_bytes_len(self.output_contents@);
        }
        let records = decode_records(&self.output_contents);
        proof {
            if self.output_filled() {
                assert(records@ == records_of_bytes(bytes_of_records(self.data@)));
            }
        }
        Some(records)
    }
}

} // verus!
