//! Decoded runner animation frames.
use crate::settings::Runner;
use vstd::prelude::*;

verus! {

/// One animation frame as 8-bit RGBA pixels, row by row.
#[derive(Clone, Debug)]
pub struct RunnerFrame {
    pub rgba: Vec<u8>,
    pub width: u32,
    pub height: u32,
}

/// All frames of one runner, in playback order.
#[derive(Clone, Debug)]
pub struct FrameSet {
    pub runner: Runner,
    pub frames: Vec<RunnerFrame>,
}

impl FrameSet {
    pub fn len(&self) -> (n: usize)
        ensures
            n == self.frames@.len(),
    {
        self.frames.len()
    }

    pub fn is_empty(&self) -> (r: bool)
        ensures
            r == (self.frames@.len() == 0),
    {
        self.frames.len() == 0
    }

    /// The frame at `index`, counting round and round the set; `None` for an
    /// empty set.
    pub fn frame(&self, index: usize) -> (r: Option<&RunnerFrame>)
        ensures
            self.frames@.len() == 0 <==> r is None,
            r matches Some(f) ==> *f == self.frames@[(index as nat % self.frames@.len()) as int],
    {
        if self.frames.len() == 0 {
            return None;
        }
        Some(&self.frames[index % self.frames.len()])
    }
}

/// Why the frames of a runner could not be loaded.
#[derive(Clone, Copy, Debug, PartialEq, Eq, Structural)]
pub enum AssetError {
    /// The embedded image at this position did not decode.
    UndecodableFrame(usize),
}

#[verifier::external_type_specification]
#[verifier::external_body]
pub struct ExImageError(image::ImageError);

/// What `image::load_from_memory_with_format` with the PNG format, followed
/// by `into_rgba8`, makes of some bytes: the RGBA samples, width and height of
/// the PNG image, or nothing when the bytes are not a PNG the crate can decode.
pub uninterp spec fn decoded_png_rgba8(bytes: Seq<u8>) -> Option<(Seq<u8>, u32, u32)>;

/// Decodes a PNG with `image::load_from_memory_with_format(bytes,
/// ImageFormat::Png)` and converts it to 8-bit RGBA with `into_rgba8`. With
/// the format given, the crate uses its built-in PNG decoder and consults no
/// registered detection or decoding hook. Claimed: the frame is the named
/// decoding of the bytes, its pixels are packed tightly (four bytes for each of
/// width times height pixels, as the crate allocates them for an RGBA8 image),
/// and an error comes exactly when the bytes have none.
/// What the decoding is, pixel by pixel, is left to the crate.
#[verifier::external_body]
fn decode_png(bytes: &[u8]) -> (res: Result<RunnerFrame, image::ImageError>)
    ensures
        match res {
            Ok(frame) => {
                &&& decoded_png_rgba8(bytes@) == Some((frame.rgba@, frame.width, frame.height))
                &&& frame.rgba@.len() == 4 * frame.width * frame.height
            },
            Err(_) => decoded_png_rgba8(bytes@) is None,
        },
{
    let image = image::load_from_memory_with_format(bytes, image::ImageFormat::Png)?.into_rgba8();
    let (width, height) = image.dimensions();
    Ok(RunnerFrame { rgba: image.into_raw(), width, height })
}

/// Whether a frame holds the given decoding.
pub open spec fn frame_is(frame: RunnerFrame, decoded: (Seq<u8>, u32, u32)) -> bool {
    frame.rgba@ == decoded.0 && frame.width == decoded.1 && frame.height == decoded.2
}

/// Assembles a runner's frame set from the decoding of each of its images:
/// every frame in order when all decoded, else the position of the first
/// image that did not.
pub fn frames_from_decoded(runner: Runner, decoded: Vec<Option<RunnerFrame>>) -> (r: Result<
    FrameSet,
    AssetError,
>)
    ensures
        r is Ok <==> forall|i: int| 0 <= i < decoded@.len() ==> #[trigger] decoded@[i] is Some,
        r matches Ok(set) ==> {
            &&& set.runner == runner
            &&& set.frames@.len() == decoded@.len()
            &&& forall|i: int|
                0 <= i < decoded@.len() ==> #[trigger] decoded@[i] == Some(set.frames@[i])
        },
        r matches Err(AssetError::UndecodableFrame(index)) ==> {
            &&& index < decoded@.len()
            &&& decoded@[index as int] is None
            &&& forall|i: int| 0 <= i < index ==> #[trigger] decoded@[i] is Some
        },
{
    let ghost all = decoded@;
    let mut frames: Vec<RunnerFrame> = Vec::new();
    for item in it: decoded.into_iter()
        invariant
            it.seq() == all,
            frames@.len() == it.index(),
            it.index() <= all.len(),
            forall|i: int| 0 <= i < frames@.len() ==> #[trigger] all[i] == Some(frames@[i]),
    {
        match item {
            Some(frame) => frames.push(frame),
            None => {
                return Err(AssetError::UndecodableFrame(frames.len()));
            },
        }
    }
    Ok(FrameSet { runner, frames })
}

/// Decodes the embedded PNG images of a runner, in order, into its frame set.
pub fn load_runner_frames(runner: Runner, sources: &[&[u8]]) -> (r: Result<FrameSet, AssetError>)
    ensures
        r is Ok <==> forall|i: int|
            0 <= i < sources@.len() ==> #[trigger] decoded_png_rgba8(sources@[i]@) is Some,
        r matches Ok(set) ==> {
            &&& set.runner == runner
            &&& set.frames@.len() == sources@.len()
            &&& forall|i: int|
                0 <= i < sources@.len() ==> frame_is(
                    #[trigger] set.frames@[i],
                    decoded_png_rgba8(sources@[i]@)->Some_0,
                )
            &&& forall|i: int|
                0 <= i < sources@.len() ==> (#[trigger] set.frames@[i]).rgba@.len() == 4
                    * set.frames@[i].width * set.frames@[i].height
        },
        r matches Err(AssetError::UndecodableFrame(index)) ==> {
            &&& index < sources@.len()
            &&& decoded_png_rgba8(sources@[index as int]@) is None
            &&& forall|i: int| 0 <= i < index ==> #[trigger] decoded_png_rgba8(sources@[i]@) is Some
        },
{
    let mut decoded: Vec<Option<RunnerFrame>> = Vec::new();
    for i in 0..sources.len()
        invariant
            decoded@.len() == i,
            forall|j: int|
                0 <= j < i ==> match #[trigger] decoded@[j] {
                    Some(frame) => decoded_png_rgba8(sources@[j]@) == Some(
                        (frame.rgba@, frame.width, frame.height),
                    ) && frame.rgba@.len() == 4 * frame.width * frame.height,
                    None => decoded_png_rgba8(sources@[j]@) is None,
                },
    {
        let frame = match decode_png(sources[i]) {
            Ok(frame) => Some(frame),
            Err(_) => None,
        };
        decoded.push(frame);
    }
    let r = frames_from_decoded(runner, decoded);
    proof {
        if r is Ok {
            let set = r->Ok_0;
            assert forall|i: int| 0 <= i < sources@.len() implies #[trigger] decoded_png_rgba8(
                sources@[i]@,
            ) is Some && frame_is(set.frames@[i], decoded_png_rgba8(sources@[i]@)->Some_0)
                && set.frames@[i].rgba@.len() == 4 * set.frames@[i].width
                * set.frames@[i].height by {
                assert(decoded@[i] == Some(set.frames@[i]));
            }
            assert forall|i: int| 0 <= i < sources@.len() implies (#[trigger] set.frames@[i]).rgba@.len()
                == 4 * set.frames@[i].width * set.frames@[i].height && frame_is(
                set.frames@[i],
                decoded_png_rgba8(sources@[i]@)->Some_0,
            ) by {
                assert(decoded@[i] == Some(set.frames@[i]));
            }
        } else {
            let index = r->Err_0->UndecodableFrame_0;
            assert(decoded@[index as int] is None);
            assert forall|i: int| 0 <= i < index implies #[trigger] decoded_png_rgba8(
                sources@[i]@,
            ) is Some by {
                assert(decoded@[i] is Some);
            }
        }
    }
    r
}

} // verus!
