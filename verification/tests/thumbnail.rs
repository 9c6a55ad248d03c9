use kino::error::{Error, GStreamerError};
use kino::slider::VideoSlider;
use kino::thumbnail::{
    convert_frame, convert_pixel, count_thumbnails, frame_len, thumbnail_positions, yuv_to_rgba,
    ThumbnailGenerator, THUMBNAIL_INTERVAL,
};

/// The conversion as it is written with floating point numbers.
fn reference(y: u8, u: u8, v: u8) -> (u8, u8, u8) {
    let (y, u, v) = (y as f32, u as f32, v as f32);
    let r = 1.164 * (y - 16.0) + 1.596 * (v - 128.0);
    let g = 1.164 * (y - 16.0) - 0.813 * (v - 128.0) - 0.391 * (u - 128.0);
    let b = 1.164 * (y - 16.0) + 2.018 * (u - 128.0);
    (r as u8, g as u8, b as u8)
}

/// A frame of `width` by `height` pixels whose samples count up.
fn frame(width: usize, height: usize) -> Vec<u8> {
    let len = width * height + width * ((height + 1) / 2);
    (0..len).map(|i| (i * 7 % 256) as u8).collect()
}

#[test]
fn mid_gray_stays_gray() {
    let (r, g, b) = convert_pixel(128, 128, 128);
    assert_eq!((r, g, b), (130, 130, 130));
    for c in [r, g, b] {
        assert!((c as i32 - 128).abs() <= 3);
    }
}

#[test]
fn exact_channel_values() {
    // 1.164 * 84 + 1.596 * 72 = 212.688, 1.164 * 84 - 0.813 * 72 - 0.391 * -28 = 50.188,
    // 1.164 * 84 + 2.018 * -28 = 41.272
    assert_eq!(convert_pixel(100, 100, 200), (212, 50, 41));
    assert_eq!(convert_pixel(16, 128, 128), (0, 0, 0));
    assert_eq!(convert_pixel(235, 128, 128), (254, 254, 254));
    assert_eq!(convert_pixel(255, 128, 128), (255, 255, 255));
    assert_eq!(convert_pixel(0, 128, 128), (0, 0, 0));
    assert_eq!(convert_pixel(0, 0, 0), (0, 135, 0));
    assert_eq!(convert_pixel(255, 255, 255), (255, 125, 255));
    assert_eq!(convert_pixel(81, 90, 240), (254, 0, 0));
}

#[test]
fn conversion_is_within_one_of_the_floating_point_formula() {
    for y in 0..=255u8 {
        for u in 0..=255u8 {
            for v in 0..=255u8 {
                let (r, g, b) = convert_pixel(y, u, v);
                let (fr, fg, fb) = reference(y, u, v);
                assert!((r as i32 - fr as i32).abs() <= 1, "red of {y} {u} {v}");
                assert!((g as i32 - fg as i32).abs() <= 1, "green of {y} {u} {v}");
                assert!((b as i32 - fb as i32).abs() <= 1, "blue of {y} {u} {v}");
            }
        }
    }
}

#[test]
fn converts_every_pixel_of_a_small_frame() {
    // two by two pixels and one pair of chroma samples
    let yuv = [16u8, 128, 235, 81, 90, 240];
    let rgba = yuv_to_rgba(&yuv, 2, 2, 1);
    let mut expected = Vec::new();
    for y in [16u8, 128, 235, 81] {
        let (r, g, b) = convert_pixel(y, 90, 240);
        expected.extend_from_slice(&[r, g, b, 255]);
    }
    assert_eq!(rgba, expected);
    assert_eq!(&rgba[12..], &[254, 0, 0, 255]);
}

#[test]
fn downscale_takes_every_nth_pixel() {
    let (width, height) = (8usize, 6usize);
    let yuv = frame(width, height);
    let rgba = yuv_to_rgba(&yuv, width as u32, height as u32, 2);
    assert_eq!(rgba.len(), 4 * 4 * 3);
    for y in 0..3 {
        for x in 0..4 {
            let (xs, ys) = (2 * x, 2 * y);
            let luma = yuv[ys * width + xs];
            let chroma = width * height + width * (ys / 2) + xs / 2 * 2;
            let (r, g, b) = convert_pixel(luma, yuv[chroma], yuv[chroma + 1]);
            let at = 4 * (y * 4 + x);
            assert_eq!(&rgba[at..at + 4], &[r, g, b, 255]);
        }
    }
}

#[test]
fn downscale_that_does_not_divide_drops_the_rest() {
    let yuv = frame(7, 5);
    let rgba = yuv_to_rgba(&yuv, 7, 5, 3);
    // two by one pixels: from (0, 0) and (3, 0)
    assert_eq!(rgba.len(), 8);
    let (r, g, b) = convert_pixel(yuv[3], yuv[35 + 2], yuv[35 + 3]);
    assert_eq!(&rgba[4..], &[r, g, b, 255]);
}

#[test]
fn downscale_beyond_the_frame_gives_no_pixel() {
    assert_eq!(yuv_to_rgba(&[], 4, 4, 5), Vec::<u8>::new());
    assert_eq!(yuv_to_rgba(&[], 0, 4, 1), Vec::<u8>::new());
    assert_eq!(yuv_to_rgba(&[1, 2, 3], 4, 0, 1), Vec::<u8>::new());
}

#[test]
fn same_frame_gives_the_same_image() {
    let yuv = frame(16, 10);
    let generator = ThumbnailGenerator::new(16, 10, 2, Some(1)).unwrap();
    let first = generator.generate(&yuv).unwrap();
    let second = generator.generate(&yuv).unwrap();
    assert_eq!(first, second);
    assert_eq!(first, yuv_to_rgba(&yuv, 16, 10, 2));
}

#[test]
fn needed_length_is_the_last_sample_read() {
    assert_eq!(frame_len(2, 2, 1), 6);
    assert_eq!(frame_len(8, 6, 2), 48 + 8 * 2 + 6 + 2);
    assert_eq!(frame_len(7, 5, 3), 35 + 0 + 2 + 2);
    assert_eq!(frame_len(4, 4, 5), 0);
    assert_eq!(frame_len(0, 0, 1), 0);
    // an odd width reads one sample into the next row
    assert_eq!(frame_len(3, 2, 1), 6 + 0 + 2 + 2);
    let widest = frame_len(u32::MAX, u32::MAX, 1);
    let w = u32::MAX as u128;
    assert_eq!(widest, w * w + w * ((w - 1) / 2) + (w - 1) + 2);
}

#[test]
fn a_frame_that_is_too_short_is_no_frame() {
    let yuv = frame(8, 6);
    let needed = frame_len(8, 6, 2) as usize;
    let unavailable = Err(Error::GStreamerError(GStreamerError::FrameUnavailable));
    assert_eq!(convert_frame(&yuv[..needed - 1], 8, 6, 2), unavailable);
    assert_eq!(convert_frame(&[], 8, 6, 2), unavailable);
    assert_eq!(convert_frame(&yuv[..needed], 8, 6, 2), Ok(yuv_to_rgba(&yuv, 8, 6, 2)));
    assert_eq!(convert_frame(&yuv, 8, 6, 0), Err(Error::InvalidSize));
    assert_eq!(convert_frame(&[], 0, 0, 1), Ok(Vec::new()));
}

#[test]
fn generator_needs_only_the_duration() {
    assert_eq!(ThumbnailGenerator::new(8, 6, 2, None).err(), Some(Error::ThumbnailEmptyVideo));
    assert_eq!(ThumbnailGenerator::new(8, 6, 0, None).err(), Some(Error::ThumbnailEmptyVideo));
    assert_eq!(ThumbnailGenerator::new(-1, 31, 8, None).err(), Some(Error::ThumbnailEmptyVideo));
    let generator = ThumbnailGenerator::new(500, 31, 0, Some(5)).unwrap();
    assert_eq!(generator.frame_size(), (500, 31));
    assert_eq!(generator.downscale(), 0);
    assert_eq!(generator.duration(), 5);
    let generator = ThumbnailGenerator::new(-8, -6, 2, Some(0)).unwrap();
    assert_eq!(generator.frame_size(), (-8, -6));
    assert_eq!(generator.downscale(), 2);
    assert_eq!(generator.duration(), 0);
    assert!(ThumbnailGenerator::new(0, 0, 1, Some(u64::MAX)).is_ok());
}

#[test]
fn generator_makes_no_preview_of_an_unusable_size() {
    let yuv = frame(8, 6);
    for (width, height, downscale) in [(8, 6, 0), (-8, 6, 2), (8, -6, 2), (-8, -6, 0)] {
        let generator = ThumbnailGenerator::new(width, height, downscale, Some(5)).unwrap();
        assert_eq!(generator.image_size(), Err(Error::InvalidSize));
        assert_eq!(generator.generate(&yuv), Err(Error::InvalidSize));
        assert_eq!(generator.generate(&[]), Err(Error::InvalidSize));
    }
    let empty = ThumbnailGenerator::new(0, 0, 1, Some(5)).unwrap();
    assert_eq!(empty.image_size(), Ok((0, 0)));
    assert_eq!(empty.generate(&[]), Ok(Vec::new()));
}

#[test]
fn generator_keeps_what_it_was_given() {
    let generator = ThumbnailGenerator::new(500, 31, 8, Some(90_000_000_000)).unwrap();
    assert_eq!(generator.frame_size(), (500, 31));
    assert_eq!(generator.downscale(), 8);
    assert_eq!(generator.duration(), 90_000_000_000);
    assert_eq!(generator.image_size(), Ok((62, 3)));
    assert!(generator.covers(0));
    assert!(generator.covers(90_000_000_000));
    assert!(!generator.covers(90_000_000_001));
}

#[test]
fn generator_converts_frames_of_its_size() {
    let generator = ThumbnailGenerator::new(8, 6, 2, Some(1)).unwrap();
    let yuv = frame(8, 6);
    let image = generator.generate(&yuv).unwrap();
    let (width, height) = generator.image_size().unwrap();
    assert_eq!(image.len(), (4 * width * height) as usize);
    assert_eq!(image, yuv_to_rgba(&yuv, 8, 6, 2));
    assert_eq!(
        generator.generate(&yuv[..40]),
        Err(Error::GStreamerError(GStreamerError::FrameUnavailable))
    );
}

#[test]
fn previews_divide_the_video_evenly() {
    assert_eq!(thumbnail_positions(1000, 4), vec![0, 250, 500, 750]);
    assert_eq!(thumbnail_positions(10, 3), vec![0, 3, 6]);
    assert_eq!(thumbnail_positions(1000, 1), vec![0]);
    assert_eq!(thumbnail_positions(1000, 0), Vec::<u64>::new());
    assert_eq!(thumbnail_positions(0, 2), vec![0, 0]);
    assert_eq!(thumbnail_positions(u64::MAX, 2), vec![0, u64::MAX / 2]);
    let many = thumbnail_positions(u64::MAX, 1000);
    assert_eq!(many.len(), 1000);
    assert_eq!(many[0], 0);
    assert_eq!(many[999], (u64::MAX as u128 * 999 / 1000) as u64);
    assert!(many.windows(2).all(|pair| pair[0] < pair[1]));
}

#[test]
fn one_preview_for_each_interval() {
    assert_eq!(THUMBNAIL_INTERVAL, 100);
    assert_eq!(count_thumbnails(0), 0);
    assert_eq!(count_thumbnails(99_999_999_999), 0);
    assert_eq!(count_thumbnails(100_000_000_000), 1);
    assert_eq!(count_thumbnails(7_200_000_000_000), 72);
    assert_eq!(count_thumbnails(u64::MAX), 42_949_672);
}

#[test]
fn errors_have_messages() {
    assert_eq!(
        Error::ThumbnailEmptyVideo.message(),
        "Tried creating a thumbnail for an empty Video"
    );
    assert_eq!(Error::InvalidSize.message(), "Tried creating a thumbnail of an unusable size");
    assert_eq!(Error::IO.message(), "Could not write the thumbnail");
    let seek = GStreamerError::SeekFailed;
    assert_eq!(seek.message(), "Could not seek in the video");
    assert_eq!(Error::from(seek), Error::GStreamerError(seek));
    assert_eq!(Error::from(seek).message(), seek.message());
    assert_eq!(GStreamerError::OpenFailed.message(), "Could not open the video");
    assert_eq!(
        GStreamerError::StateChangeFailed.message(),
        "Could not change the pipeline state"
    );
    assert_eq!(
        GStreamerError::FrameUnavailable.message(),
        "Could not pull a frame from the video"
    );
}

#[test]
fn the_image_for_a_time_was_taken_where_its_part_begins() {
    // ten previews of a video of a hundred seconds, on a scrubber in seconds
    let positions = thumbnail_positions(100_000_000_000, 10);
    let slider = VideoSlider::new(0, 100, 0, positions.len(), 100_000);
    for second in 0..100i64 {
        let index = slider.thumbnail_index(second);
        let taken = positions[index] / 1_000_000_000;
        assert!(taken as i64 <= second && second < taken as i64 + 10, "{second}");
    }
    assert_eq!(positions[slider.thumbnail_index(0)], 0);
    assert_eq!(positions[slider.thumbnail_index(100)], 90_000_000_000);
}
