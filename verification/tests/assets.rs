use rscat::assets::{frames_from_decoded, AssetError};
use rscat::{load_runner_frames, FrameSet, Runner, RunnerFrame};

/// A 2x1 RGBA PNG: one opaque red pixel, then (10, 20, 30, 40).
const TWO_PIXELS: [u8; 74] = [
    137, 80, 78, 71, 13, 10, 26, 10, 0, 0, 0, 13, 73, 72, 68, 82, 0, 0, 0, 2, 0, 0, 0, 1, 8, 6,
    0, 0, 0, 244, 34, 127, 138, 0, 0, 0, 17, 73, 68, 65, 84, 120, 156, 99, 248, 207, 192, 240,
    159, 75, 68, 78, 3, 0, 13, 196, 2, 99, 213, 79, 166, 96, 0, 0, 0, 0, 73, 69, 78, 68, 174, 66,
    96, 130,
];

fn frame(n: u8) -> RunnerFrame {
    RunnerFrame { rgba: vec![n; 4], width: 1, height: 1 }
}

#[test]
fn decodes_embedded_images_to_rgba() {
    let sources: [&[u8]; 2] = [&TWO_PIXELS, &TWO_PIXELS];
    let set = load_runner_frames(Runner::Horse, &sources).unwrap();
    assert_eq!(set.runner, Runner::Horse);
    assert_eq!(set.len(), 2);
    let first = set.frame(0).unwrap();
    assert_eq!(first.width, 2);
    assert_eq!(first.height, 1);
    assert_eq!(first.rgba, vec![255, 0, 0, 255, 10, 20, 30, 40]);
    for frame in &set.frames {
        assert_eq!(frame.rgba.len(), 4 * frame.width as usize * frame.height as usize);
    }
}

#[test]
fn reports_the_first_undecodable_image() {
    let junk: &[u8] = &[1, 2, 3];
    let sources: [&[u8]; 3] = [&TWO_PIXELS, junk, junk];
    let err = load_runner_frames(Runner::Cat, &sources).unwrap_err();
    assert_eq!(err, AssetError::UndecodableFrame(1));
}

#[test]
fn no_images_give_an_empty_set() {
    let set = load_runner_frames(Runner::Parrot, &[]).unwrap();
    assert!(set.is_empty());
    assert!(set.frame(3).is_none());
}

#[test]
fn frames_wrap_around_the_set() {
    let set = FrameSet { runner: Runner::Cat, frames: vec![frame(0), frame(1), frame(2)] };
    assert_eq!(set.frame(1).unwrap().rgba, vec![1; 4]);
    assert_eq!(set.frame(4).unwrap().rgba, vec![1; 4]);
    assert_eq!(set.frame(6).unwrap().rgba, vec![0; 4]);
    assert!(!set.is_empty());
}

#[test]
fn assembling_decoded_frames() {
    let set = frames_from_decoded(Runner::Cat, vec![Some(frame(5)), Some(frame(6))]).unwrap();
    assert_eq!(set.len(), 2);
    assert_eq!(set.frames[1].rgba, vec![6; 4]);
    let err = frames_from_decoded(Runner::Cat, vec![Some(frame(5)), None, None]).unwrap_err();
    assert_eq!(err, AssetError::UndecodableFrame(1));
}

#[test]
fn only_png_images_decode() {
    // A 1x1 24-bit BMP: a valid image, but not a PNG.
    let bmp: [u8; 58] = [
        66, 77, 58, 0, 0, 0, 0, 0, 0, 0, 54, 0, 0, 0, 40, 0, 0, 0, 1, 0, 0, 0, 1, 0, 0, 0, 1, 0,
        24, 0, 0, 0, 0, 0, 4, 0, 0, 0, 0, 0, 0, 0, 0, 0, 0, 0, 0, 0, 0, 0, 0, 0, 0, 0, 0, 0, 255, 0,
    ];
    let sources: [&[u8]; 1] = [&bmp];
    assert_eq!(load_runner_frames(Runner::Cat, &sources).unwrap_err(), AssetError::UndecodableFrame(0));
}
