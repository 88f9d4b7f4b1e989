//! Reassembly of one image from a sequence of decoded fragments.

use crate::codec::Frame;
use crate::codec::PacketType;
use vstd::prelude::*;
use vstd::slice::slice_subrange;
use vstd::slice::slice_to_vec;

verus! {

/// True when bytes `i` and `i + 1` of `s` are the JPEG start-of-image marker
/// `0xFF 0xD8`.
pub open spec fn marker_at(s: Seq<u8>, i: int) -> bool {
    &&& 0 <= i
    &&& i + 2 <= s.len()
    &&& s[i] == 0xff
    &&& s[i + 1] == 0xd8
}

/// First offset `>= i` at which the start-of-image marker occurs in `s`, or
/// 12 when it occurs at no such offset.
pub open spec fn start_offset_from(s: Seq<u8>, i: int) -> int
    decreases s.len() - i,
{
    if i + 2 <= s.len() {
        if s[i] == 0xff && s[i + 1] == 0xd8 {
            i
        } else {
            start_offset_from(s, i + 1)
        }
    } else {
        12
    }
}

/// Offset within a First fragment's datagram at which the image begins: the
/// first start-of-image marker at or after the 12-byte header, or 12 (the
/// lenient fallback) when no marker occurs there.
pub open spec fn image_start_offset(s: Seq<u8>) -> int {
    start_offset_from(s, 12)
}

/// The datagram bytes with the 12-byte header stripped.
pub open spec fn stripped(s: Seq<u8>) -> Seq<u8>
    recommends
        s.len() >= 12,
{
    s.subrange(12, s.len() as int)
}

/// The image bytes a First fragment contributes: the datagram from the first
/// start-of-image marker onward, or from offset 12 when no marker occurs.
pub open spec fn initial_image(s: Seq<u8>) -> Seq<u8>
    recommends
        s.len() >= 12,
{
    s.subrange(image_start_offset(s), s.len() as int)
}

proof fn lemma_start_offset_from_props(s: Seq<u8>, i: int)
    requires
        12 <= i,
    ensures
        ({
            let off = start_offset_from(s, i);
            if exists|j: int| i <= j && marker_at(s, j) {
                &&& i <= off
                &&& marker_at(s, off)
                &&& forall|j: int| i <= j < off ==> !marker_at(s, j)
            } else {
                off == 12
            }
        }),
    decreases s.len() - i,
{
    let off = start_offset_from(s, i);
    if i + 2 <= s.len() {
        if s[i] == 0xff && s[i + 1] == 0xd8 {
            assert(marker_at(s, i));
        } else {
            lemma_start_offset_from_props(s, i + 1);
            assert(!marker_at(s, i));
            if exists|j: int| i <= j && marker_at(s, j) {
                let j = choose|j: int| i <= j && marker_at(s, j);
                assert(i + 1 <= j && marker_at(s, j));
            }
        }
    } else {
        assert forall|j: int| i <= j implies !marker_at(s, j) by {
            assert(j + 2 > s.len());
        }
    }
}

/// Where a First fragment's datagram holds the start-of-image marker at some
/// offset `k >= 12`, the image start is the first such offset: it carries the
/// marker, lies no later than `k`, and no earlier in-range offset carries it.
pub proof fn lemma_image_start_finds_marker(s: Seq<u8>, k: int)
    requires
        12 <= k,
        marker_at(s, k),
    ensures
        12 <= image_start_offset(s) <= k,
        marker_at(s, image_start_offset(s)),
        forall|j: int| 12 <= j < image_start_offset(s) ==> !marker_at(s, j),
{
    lemma_start_offset_from_props(s, 12);
}

/// Where the start-of-image marker first occurs at offset `k`, the image
/// starts exactly there, so the buffer is the datagram from `k` onward.
pub proof fn lemma_image_start_first_marker(s: Seq<u8>, k: int)
    requires
        12 <= k,
        marker_at(s, k),
        forall|j: int| 12 <= j < k ==> !marker_at(s, j),
    ensures
        image_start_offset(s) == k,
{
    lemma_image_start_finds_marker(s, k);
}

/// Where no start-of-image marker occurs at or after offset 12, the image
/// start falls back to 12, the first byte after the header.
pub proof fn lemma_image_start_fallback(s: Seq<u8>)
    requires
        forall|j: int| 12 <= j ==> !marker_at(s, j),
    ensures
        image_start_offset(s) == 12,
{
    lemma_start_offset_from_props(s, 12);
    if exists|j: int| 12 <= j && marker_at(s, j) {
        let j = choose|j: int| 12 <= j && marker_at(s, j);
        assert(!marker_at(s, j));
    }
}

/// Initial image buffer of a First fragment: the datagram from the first
/// JPEG start-of-image marker onward, or from offset 12 when no marker occurs
/// anywhere after the header.
pub fn find_jpeg_start(buf: Vec<u8>) -> (r: Vec<u8>)
    requires
        buf@.len() >= 12,
    ensures
        r@ == initial_image(buf@),
{
    let n = buf.len();
    let mut i: usize = 12;
    while i < n - 1
        invariant
            12 <= i,
            n == buf@.len(),
            n >= 12,
            forall|j: int| 12 <= j < i ==> !marker_at(buf@, j),
        decreases n - i,
    {
        if buf[i] == 0xff && buf[i + 1] == 0xd8 {
            proof {
                lemma_image_start_first_marker(buf@, i as int);
            }
            return slice_to_vec(slice_subrange(buf.as_slice(), i, n));
        }
        i = i + 1;
    }
    proof {
        assert forall|j: int| 12 <= j implies !marker_at(buf@, j) by {
            if j < i {
            } else {
                assert(j + 2 > n);
            }
        }
        lemma_image_start_fallback(buf@);
    }
    slice_to_vec(slice_subrange(buf.as_slice(), 12, n))
}

/// The image in progress: the accumulated image bytes together with the ids
/// of the frame and stream they belong to.
pub struct Picture {
    jpeg: Vec<u8>,
    current_chunk_number: u16,
    stream_number: u32,
    frame_number: u32,
}

impl Picture {
    /// The accumulated image bytes.
    pub closed spec fn image(self) -> Seq<u8> {
        self.jpeg@
    }

    /// Frame id of the image in progress.
    pub closed spec fn frame(self) -> u32 {
        self.frame_number
    }

    /// Stream id of the image in progress.
    pub closed spec fn stream(self) -> u32 {
        self.stream_number
    }

    /// Chunk index copied from the First fragment that began the image in
    /// progress; kept for observability, never used to enforce ordering.
    pub closed spec fn chunk(self) -> u16 {
        self.current_chunk_number
    }

    /// A fresh assembler: empty buffer, all ids zero, awaiting a First
    /// fragment.
    pub fn new() -> (p: Picture)
        ensures
            p.image() == Seq::<u8>::empty(),
            p.frame() == 0u32,
            p.stream() == 0u32,
            p.chunk() == 0u16,
    {
        Picture {
            jpeg: Vec::new(),
            current_chunk_number: 0,
            stream_number: 0,
            frame_number: 0,
        }
    }

    /// Begin a new image from a First fragment, discarding whatever image was
    /// in progress: the ids are taken from the fragment and the buffer is the
    /// fragment's datagram from the first start-of-image marker onward (or
    /// from offset 12 when no marker occurs).
    pub fn add_initial_data(&mut self, frame: Frame)
        requires
            frame.wf(),
        ensures
            final(self).image() == initial_image(frame.buffer@),
            final(self).frame() == frame.frame_number,
            final(self).stream() == frame.stream_number,
            final(self).chunk() == frame.chunk_number,
    {
        self.current_chunk_number = frame.chunk_number;
        self.frame_number = frame.frame_number;
        self.stream_number = frame.stream_number;
        self.jpeg = find_jpeg_start(frame.buffer);
    }

    /// Append a Middle or End fragment's payload (header stripped) when its
    /// frame id matches the image in progress; a fragment of any other frame
    /// is silently ignored and the state is left unchanged.
    pub fn add_appended_data(&mut self, frame: Frame)
        requires
            frame.wf(),
        ensures
            frame.frame_number == old(self).frame() ==> final(self).image() == old(self).image()
                + stripped(frame.buffer@),
            frame.frame_number != old(self).frame() ==> final(self).image() == old(self).image(),
            final(self).frame() == old(self).frame(),
            final(self).stream() == old(self).stream(),
            final(self).chunk() == old(self).chunk(),
    {
        if frame.frame_number == self.frame_number {
            let mut tail = slice_to_vec(
                slice_subrange(frame.buffer.as_slice(), 12, frame.buffer.len()),
            );
            self.jpeg.append(&mut tail);
        }
    }

    /// Feed one decoded fragment to the assembler. The result is true exactly
    /// when this fragment completed the image in progress: an End fragment
    /// whose frame id matches; every First and Middle fragment, and every
    /// fragment of another frame, yields false.
    pub fn add_data(&mut self, frame: Frame) -> (done: bool)
        requires
            frame.wf(),
        ensures
            done == (frame.packet_type is End && frame.frame_number == old(self).frame()),
            frame.packet_type is First ==> {
                &&& final(self).image() == initial_image(frame.buffer@)
                &&& final(self).frame() == frame.frame_number
                &&& final(self).stream() == frame.stream_number
                &&& final(self).chunk() == frame.chunk_number
            },
            frame.packet_type !is First ==> {
                &&& final(self).frame() == old(self).frame()
                &&& final(self).stream() == old(self).stream()
                &&& final(self).chunk() == old(self).chunk()
                &&& (frame.frame_number == old(self).frame() ==> final(self).image() == old(
                    self,
                ).image() + stripped(frame.buffer@))
                &&& (frame.frame_number != old(self).frame() ==> final(self).image() == old(
                    self,
                ).image())
            },
    {
        match frame.packet_type {
            PacketType::First => {
                self.add_initial_data(frame);
                false
            },
            PacketType::End => {
                let done = frame.frame_number == self.frame_number;
                self.add_appended_data(frame);
                done
            },
            PacketType::Middle => {
                self.add_appended_data(frame);
                false
            },
        }
    }

    /// Read-only view of the accumulated image buffer; it holds a complete
    /// image exactly when the previous `add_data` call returned true.
    pub fn get_data(&self) -> (r: &[u8])
        ensures
            r@ == self.image(),
    {
        self.jpeg.as_slice()
    }
}

} // verus!
