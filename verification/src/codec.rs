use vstd::prelude::*;

verus! {

/// The error of `std::io`, which the encoders, the decoders and the
/// archiver return. Nothing is known of what it holds.
#[verifier::external_type_specification]
#[verifier::external_body]
pub struct ExIoError(std::io::Error);

/// Whether the text is what the cause says of itself: the text that
/// `to_string` gives for it.
pub open spec fn says<T: core::fmt::Display>(cause: T, text: Seq<char>) -> bool {
    forall|s: String| #[trigger]
        vstd::string::to_string_from_display_ensures::<T>(&cause, s) ==> s@ == text
}

/// What the encoder of `xz2` makes of the data at a preset: the xz stream
/// that it writes, or the message of its error.
pub uninterp spec fn xz_stream(data: Seq<u8>, level: u32) -> Result<Seq<u8>, Seq<char>>;

/// What the encoder of `flate2` makes of the data at a level: the gzip
/// stream that it writes, or the message of its error.
pub uninterp spec fn gz_stream(data: Seq<u8>, level: u32) -> Result<Seq<u8>, Seq<char>>;

/// What `zstd` makes of the data at a level: the frame that it writes, or
/// the message of its error.
pub uninterp spec fn zst_stream(data: Seq<u8>, level: i32) -> Result<Seq<u8>, Seq<char>>;

/// What the encoder of `bzip2` makes of the data at a level: the bzip2
/// stream that it writes, or the message of its error.
pub uninterp spec fn bz2_stream(data: Seq<u8>, level: u32) -> Result<Seq<u8>, Seq<char>>;

/// What the decoder of `xz2` makes of a stream: the data that it reads out
/// of it, or the message of the error with which it refuses the stream.
pub uninterp spec fn xz_plain(stream: Seq<u8>) -> Result<Seq<u8>, Seq<char>>;

/// What the decoder of `flate2` makes of a gzip stream: the data that it
/// reads out of it, or the message of the error with which it refuses the
/// stream.
pub uninterp spec fn gz_plain(stream: Seq<u8>) -> Result<Seq<u8>, Seq<char>>;

/// What `zstd` makes of a stream of frames: the data that it reads out of
/// it, or the message of the error with which it refuses the stream.
pub uninterp spec fn zst_plain(stream: Seq<u8>) -> Result<Seq<u8>, Seq<char>>;

/// What the decoder of `bzip2` makes of a stream: the data that it reads
/// out of it, or the message of the error with which it refuses the stream.
pub uninterp spec fn bz2_plain(stream: Seq<u8>) -> Result<Seq<u8>, Seq<char>>;

/// Runs `xz2::write::XzEncoder` over the data, into memory: `new` with the
/// preset, `write_all`, then `finish`. The data comes from memory and the
/// stream goes to memory, so the outcome goes by the arguments alone, and
/// `xz_stream` names it: the stream, or the message of the error. The
/// presets are 0 to 9; `new` panics on any other.
#[verifier::external_body]
pub(crate) fn xz_encode(data: &[u8], level: u32) -> (r: Result<Vec<u8>, std::io::Error>)
    requires
        level <= 9,
    ensures
        match xz_stream(data@, level) {
            Ok(stream) => r matches Ok(written) && written@ == stream,
            Err(text) => r matches Err(cause) && says(cause, text),
        },
{
    let mut encoder = xz2::write::XzEncoder::new(Vec::new(), level);
    std::io::Write::write_all(&mut encoder, data)?;
    encoder.finish()
}

/// Runs `flate2::write::GzEncoder` over the data, into memory: `new` with
/// `Compression::new` of the level, `write_all`, then `finish`. The outcome
/// goes by the arguments alone, and `gz_stream` names it: the stream, or
/// the message of the error. The levels are 0 to 9, the crate's `best`;
/// the encoder is not made for higher ones.
#[verifier::external_body]
pub(crate) fn gz_encode(data: &[u8], level: u32) -> (r: Result<Vec<u8>, std::io::Error>)
    requires
        level <= 9,
    ensures
        match gz_stream(data@, level) {
            Ok(stream) => r matches Ok(written) && written@ == stream,
            Err(text) => r matches Err(cause) && says(cause, text),
        },
{
    let mut encoder = flate2::write::GzEncoder::new(Vec::new(), flate2::Compression::new(level));
    std::io::Write::write_all(&mut encoder, data)?;
    encoder.finish()
}

/// Calls `zstd::stream::encode_all` on the data. The outcome goes by the
/// arguments alone, and `zst_stream` names it: the frame, or the message of
/// the error.
#[verifier::external_body]
pub(crate) fn zst_encode(data: &[u8], level: i32) -> (r: Result<Vec<u8>, std::io::Error>)
    ensures
        match zst_stream(data@, level) {
            Ok(stream) => r matches Ok(written) && written@ == stream,
            Err(text) => r matches Err(cause) && says(cause, text),
        },
{
    zstd::stream::encode_all(data, level)
}

/// Runs `bzip2::write::BzEncoder` over the data, into memory: `new` with
/// `Compression::new` of the level, `write_all`, then `finish`. The outcome
/// goes by the arguments alone, and `bz2_stream` names it: the stream, or
/// the message of the error. The levels are 1 to 9; `Compression::new`
/// panics on any other.
#[verifier::external_body]
pub(crate) fn bz2_encode(data: &[u8], level: u32) -> (r: Result<Vec<u8>, std::io::Error>)
    requires
        1 <= level <= 9,
    ensures
        match bz2_stream(data@, level) {
            Ok(stream) => r matches Ok(written) && written@ == stream,
            Err(text) => r matches Err(cause) && says(cause, text),
        },
{
    let mut encoder = bzip2::write::BzEncoder::new(Vec::new(), bzip2::Compression::new(level));
    std::io::Write::write_all(&mut encoder, data)?;
    encoder.finish()
}

/// Reads `xz2::read::XzDecoder` over the stream to its end. The outcome
/// goes by the stream alone, and `xz_plain` names it: the data, or the
/// message of the error.
#[verifier::external_body]
pub(crate) fn xz_decode(stream: &[u8]) -> (r: Result<Vec<u8>, std::io::Error>)
    ensures
        match xz_plain(stream@) {
            Ok(data) => r matches Ok(read) && read@ == data,
            Err(text) => r matches Err(cause) && says(cause, text),
        },
{
    let mut data = Vec::new();
    std::io::Read::read_to_end(&mut xz2::read::XzDecoder::new(stream), &mut data)?;
    Ok(data)
}

/// Reads `flate2::read::GzDecoder` over the stream to its end. The outcome
/// goes by the stream alone, and `gz_plain` names it: the data, or the
/// message of the error.
#[verifier::external_body]
pub(crate) fn gz_decode(stream: &[u8]) -> (r: Result<Vec<u8>, std::io::Error>)
    ensures
        match gz_plain(stream@) {
            Ok(data) => r matches Ok(read) && read@ == data,
            Err(text) => r matches Err(cause) && says(cause, text),
        },
{
    let mut data = Vec::new();
    std::io::Read::read_to_end(&mut flate2::read::GzDecoder::new(stream), &mut data)?;
    Ok(data)
}

/// Calls `zstd::stream::decode_all` on the stream. The outcome goes by the
/// stream alone, and `zst_plain` names it: the data, or the message of the
/// error.
#[verifier::external_body]
pub(crate) fn zst_decode(stream: &[u8]) -> (r: Result<Vec<u8>, std::io::Error>)
    ensures
        match zst_plain(stream@) {
            Ok(data) => r matches Ok(read) && read@ == data,
            Err(text) => r matches Err(cause) && says(cause, text),
        },
{
    zstd::stream::decode_all(stream)
}

/// Reads `bzip2::read::BzDecoder` over the stream to its end. The outcome
/// goes by the stream alone, and `bz2_plain` names it: the data, or the
/// message of the error.
#[verifier::external_body]
pub(crate) fn bz2_decode(stream: &[u8]) -> (r: Result<Vec<u8>, std::io::Error>)
    ensures
        match bz2_plain(stream@) {
            Ok(data) => r matches Ok(read) && read@ == data,
            Err(text) => r matches Err(cause) && says(cause, text),
        },
{
    let mut data = Vec::new();
    std::io::Read::read_to_end(&mut bzip2::read::BzDecoder::new(stream), &mut data)?;
    Ok(data)
}

} // verus!
