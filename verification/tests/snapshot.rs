use clipwatch::snapshot::{bytes_equal, clipboard_image_changed, image_changed, ClipboardSnapshot};

fn text(content: &str) -> ClipboardSnapshot {
    ClipboardSnapshot::text(content.to_string())
}

fn image(width: u32, height: u32, pixels: Vec<u8>) -> ClipboardSnapshot {
    ClipboardSnapshot::image(width, height, pixels).expect("four bytes per pixel")
}

#[test]
fn different_texts_count_as_changed() {
    assert!(text("b").changed_from(&text("a")));
    assert!(text("").changed_from(&text("a")));
    assert!(text("a ").changed_from(&text("a")));
    assert!(text("A").changed_from(&text("a")));
    assert!(text("é").changed_from(&text("e")));
}

#[test]
fn equal_texts_count_as_unchanged() {
    assert!(!text("a").changed_from(&text("a")));
    assert!(!text("").changed_from(&text("")));
    assert!(!text("line\nline").changed_from(&text("line\nline")));
}

#[test]
fn one_pixel_byte_makes_an_image_changed() {
    let pixels: Vec<u8> = (0..2 * 3 * 4).map(|i| i as u8).collect();
    let old = image(2, 3, pixels.clone());
    for at in 0..pixels.len() {
        let mut other = pixels.clone();
        other[at] ^= 0x01;
        assert!(image(2, 3, other).changed_from(&old), "byte {}", at);
    }
}

#[test]
fn identical_images_count_as_unchanged() {
    let pixels: Vec<u8> = (0..4 * 4 * 4).map(|i| (i * 7) as u8).collect();
    assert!(!image(4, 4, pixels.clone()).changed_from(&image(4, 4, pixels.clone())));
    assert!(!image(0, 0, vec![]).changed_from(&image(0, 0, vec![])));
}

#[test]
fn dimensions_alone_make_an_image_changed() {
    let pixels = vec![9u8; 2 * 8 * 4];
    assert!(image(8, 2, pixels.clone()).changed_from(&image(2, 8, pixels.clone())));
    assert!(image(4, 4, pixels.clone()).changed_from(&image(2, 8, pixels.clone())));
    assert!(image(0, 5, vec![]).changed_from(&image(5, 0, vec![])));
}

#[test]
fn image_comparison_reads_both_buffers() {
    assert!(image_changed(1, 1, &[1, 2, 3, 4], 1, 1, &[1, 2, 3, 5]));
    assert!(!image_changed(1, 1, &[1, 2, 3, 4], 1, 1, &[1, 2, 3, 4]));
    assert!(image_changed(1, 2, &[0; 8], 2, 1, &[0; 8]));
    assert!(image_changed(1, 1, &[1, 2, 3, 4], 1, 1, &[1, 2, 3]));
    assert!(clipboard_image_changed(&image(1, 1, vec![1, 2, 3, 4]), &image(1, 1, vec![1, 2, 3, 5])));
    assert!(!clipboard_image_changed(&image(1, 1, vec![1, 2, 3, 4]), &image(1, 1, vec![1, 2, 3, 4])));
    assert!(clipboard_image_changed(&image(1, 2, vec![0; 8]), &image(2, 1, vec![0; 8])));
}

#[test]
fn byte_comparison_is_by_content() {
    assert!(bytes_equal(&[], &[]));
    assert!(bytes_equal(&[1, 2, 3], &[1, 2, 3]));
    assert!(!bytes_equal(&[1, 2, 3], &[1, 2, 4]));
    assert!(!bytes_equal(&[0, 2, 3], &[1, 2, 3]));
    assert!(!bytes_equal(&[1, 2, 3], &[1, 2]));
    assert!(!bytes_equal(&[], &[0]));
}

#[test]
fn detector_tells_texts_apart() {
    assert!(clipboard_image_changed(&text("a"), &text("b")));
    assert!(clipboard_image_changed(&text("a"), &text("A")));
    assert!(clipboard_image_changed(&text("a"), &text("a ")));
    assert!(clipboard_image_changed(&text("a"), &text("")));
    assert!(!clipboard_image_changed(&text("a"), &text("a")));
    assert!(!clipboard_image_changed(&text(""), &text("")));
}

#[test]
fn absence_is_no_change_and_content_after_it_is() {
    let absent = ClipboardSnapshot::absent();
    assert!(!absent.changed_from(&ClipboardSnapshot::absent()));
    assert!(text("a").changed_from(&absent));
    assert!(text("").changed_from(&absent));
    assert!(!absent.changed_from(&text("a")));
    assert!(image(1, 1, vec![0; 4]).changed_from(&absent));
    assert!(!absent.changed_from(&image(1, 1, vec![0; 4])));
    assert!(!clipboard_image_changed(&text("a"), &absent));
    assert!(!clipboard_image_changed(&absent, &absent));
    assert!(clipboard_image_changed(&absent, &text("a")));
    assert!(clipboard_image_changed(&absent, &image(0, 0, vec![])));
}

#[test]
fn contents_of_different_kinds_differ() {
    assert!(text("").changed_from(&image(0, 0, vec![])));
    assert!(image(0, 0, vec![]).changed_from(&text("")));
}

#[test]
fn image_needs_four_bytes_per_pixel() {
    assert!(ClipboardSnapshot::image(2, 2, vec![0; 16]).is_some());
    assert!(ClipboardSnapshot::image(2, 2, vec![0; 15]).is_none());
    assert!(ClipboardSnapshot::image(2, 2, vec![0; 17]).is_none());
    assert!(ClipboardSnapshot::image(0, 7, vec![]).is_some());
    assert!(ClipboardSnapshot::image(0, 7, vec![0; 4]).is_none());
    assert!(ClipboardSnapshot::image(1, 1, vec![]).is_none());
    assert!(ClipboardSnapshot::image(u32::MAX, u32::MAX, vec![0; 4]).is_none());
    assert!(ClipboardSnapshot::image(0x8000_0000, 0x8000_0000, vec![]).is_none());
    assert_eq!(
        ClipboardSnapshot::image(1, 2, vec![1, 2, 3, 4, 5, 6, 7, 8]),
        Some(ClipboardSnapshot::Image { width: 1, height: 2, pixels: vec![1, 2, 3, 4, 5, 6, 7, 8] })
    );
}

#[test]
fn validity_is_told() {
    assert!(text("a").is_valid());
    assert!(ClipboardSnapshot::absent().is_valid());
    assert!(image(1, 1, vec![0; 4]).is_valid());
    assert!(!ClipboardSnapshot::Image { width: 1, height: 1, pixels: vec![0; 3] }.is_valid());
    assert!(!ClipboardSnapshot::Image { width: u32::MAX, height: u32::MAX, pixels: vec![] }.is_valid());
}

#[test]
fn failed_read_counts_as_absence() {
    assert_eq!(ClipboardSnapshot::from_text_read(None), ClipboardSnapshot::absent());
    assert_eq!(ClipboardSnapshot::from_text_read(Some("a".to_string())), text("a"));
    assert_eq!(ClipboardSnapshot::from_text_read(Some(String::new())), text(""));
    assert_eq!(ClipboardSnapshot::from_image_read(None), ClipboardSnapshot::absent());
    assert_eq!(
        ClipboardSnapshot::from_image_read(Some((1, 2, vec![7; 8]))),
        image(1, 2, vec![7; 8])
    );
    assert_eq!(
        ClipboardSnapshot::from_image_read(Some((1, 2, vec![7; 3]))),
        ClipboardSnapshot::Image { width: 1, height: 2, pixels: vec![7; 3] }
    );
}

#[test]
fn dimensions_beyond_32_bits_count_as_absence() {
    if usize::BITS > 32 {
        let wide = (u32::MAX as usize) + 1;
        assert_eq!(ClipboardSnapshot::from_image_read(Some((wide, 0, vec![]))), ClipboardSnapshot::absent());
        assert_eq!(ClipboardSnapshot::from_image_read(Some((0, wide, vec![]))), ClipboardSnapshot::absent());
    }
    let most = u32::MAX as usize;
    assert_eq!(
        ClipboardSnapshot::from_image_read(Some((most, 0, vec![]))),
        image(u32::MAX, 0, vec![])
    );
}
