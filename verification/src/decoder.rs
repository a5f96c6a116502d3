//! The two outside decoders that the player leans on: the frame decoder that
//! turns compressed bytes into frames, and the metadata reader that gives a
//! file's duration and frame count. Nothing in this file is proved: each item
//! states what the rest of the library believes of the outside code.

use vstd::prelude::*;
use crate::frame::{Frame, FrameView};

verus! {

/// `std::io::Cursor`, an in-memory reader. The library only carries it.
#[verifier::external_type_specification]
#[verifier::external_body]
#[verifier::reject_recursive_types(T)]
pub struct ExByteReader<T>(std::io::Cursor<T>);

/// `minimp3::Decoder`, a forward-only frame decoder over a reader. Its state
/// is opaque to the library.
#[verifier::external_type_specification]
#[verifier::external_body]
#[verifier::reject_recursive_types(R)]
pub struct ExFrameDecoder<R>(minimp3::Decoder<R>);

/// The first frame that `minimp3::Decoder::next_frame` decodes from the
/// bytes of a file, read from their start; `None` where it reports an error
/// or the end of the bytes before any frame.
pub uninterp spec fn first_frame_of(bytes: Seq<u8>) -> Option<FrameView>;

/// Opens a decoder over the bytes of a file (`std::io::Cursor::new`, then
/// `minimp3::Decoder::new`) and calls `minimp3::Decoder::next_frame` on it
/// once. The claim is only that the same bytes give the same first frame,
/// which this function's result names; nothing is claimed of the decoder.
#[verifier::external_body]
pub(crate) fn decode_first(bytes: Vec<u8>) -> (opened: (
    minimp3::Decoder<std::io::Cursor<Vec<u8>>>,
    Option<Frame>,
))
    ensures
        match opened.1 {
            Some(frame) => first_frame_of(bytes@) == Some(frame@),
            None => first_frame_of(bytes@) is None,
        },
{
    let mut decoder = minimp3::Decoder::new(std::io::Cursor::new(bytes));
    let first = match decoder.next_frame() {
        Ok(frame) => Some(
            Frame { sample_rate: frame.sample_rate, channels: frame.channels, data: frame.data },
        ),
        Err(_) => None,
    };
    (decoder, first)
}

/// Calls `minimp3::Decoder::next_frame` and hands back the frame it decoded,
/// or `None` where it reports an error or the end of its input. Nothing is
/// claimed of the frame, nor of the decoder afterwards.
#[verifier::external_body]
pub(crate) fn next_frame(decoder: &mut minimp3::Decoder<std::io::Cursor<Vec<u8>>>) -> (frame:
    Option<Frame>) {
    match decoder.next_frame() {
        Ok(frame) => Some(
            Frame { sample_rate: frame.sample_rate, channels: frame.channels, data: frame.data },
        ),
        Err(_) => None,
    }
}

/// What `mp3_metadata::read_from_slice` finds in the bytes of a file: the
/// whole seconds and the nanoseconds below a second of the track's duration,
/// and the number of its frames; `None` where it reports an error.
pub uninterp spec fn metadata_of(bytes: Seq<u8>) -> Option<(u64, u32, usize)>;

/// The greatest number of bytes that the metadata reader is given. The
/// reader counts its place in the bytes in 32 bits, and steps over tags and
/// frames by sums that stay within 32 bits for as long as the bytes are no
/// more than this.
pub const MAX_TRACK_BYTES: usize = 0x7FFF_FFFF;

/// Whether the metadata reader can be given these bytes: there are no more
/// of them than `MAX_TRACK_BYTES`, and they do not begin with the byte `0xFF`
/// followed by a zero byte, which no frame and no tag begins with.
pub open spec fn readable_bytes(bytes: Seq<u8>) -> bool {
    &&& bytes.len() <= MAX_TRACK_BYTES
    &&& !(bytes.len() >= 2 && bytes[0] == 0xFF && bytes[1] == 0x00)
}

/// The duration and frame count that a track is opened with: what the
/// metadata reader finds in bytes that it can be given, and nothing in others.
pub open spec fn track_metadata(bytes: Seq<u8>) -> Option<(u64, u32, usize)> {
    if readable_bytes(bytes) {
        metadata_of(bytes)
    } else {
        None
    }
}

/// Calls `mp3_metadata::read_from_slice` and picks the duration (by
/// `Duration::as_secs` and `Duration::subsec_nanos`) and the length of the
/// frame list out of its result. The claim is only that the same bytes give
/// the same answer, which this function's result names. Two kinds of bytes
/// are left out. On some that begin `0xFF 0x00` the reader, undoing the
/// unsynchronisation of a tag, writes past the end of an empty buffer and
/// panics. On some longer than `MAX_TRACK_BYTES` its 32-bit place in the
/// bytes overflows, and it panics or does not return.
#[verifier::external_body]
pub(crate) fn read_metadata(bytes: &Vec<u8>) -> (found: Option<(u64, u32, usize)>)
    requires
        readable_bytes(bytes@),
    ensures
        found == metadata_of(bytes@),
{
    match mp3_metadata::read_from_slice(bytes.as_slice()) {
        Ok(meta) => Some((meta.duration.as_secs(), meta.duration.subsec_nanos(), meta.frames.len())),
        Err(_) => None,
    }
}

} // verus!
