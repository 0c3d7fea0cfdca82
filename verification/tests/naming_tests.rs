use deskwatch::naming::{
    audio_filename, audio_filename_now, description_filename, screenshot_filename,
    screenshot_filename_now,
};

#[test]
fn names_carry_the_stamp() {
    assert_eq!(screenshot_filename("20240131_235959"), "20240131_235959_screenshot.png");
    assert_eq!(audio_filename("20240131_235959"), "20240131_235959_audio.wav");
    assert_eq!(screenshot_filename(""), "_screenshot.png");
}

#[test]
fn description_lies_beside_the_image() {
    let image = screenshot_filename("20240131_235959");
    assert_eq!(description_filename(&image), "20240131_235959_screenshot.txt");
}

#[test]
fn description_replaces_the_extension() {
    assert_eq!(description_filename("shot.png"), "shot.txt");
    assert_eq!(description_filename("dir.d/shot.png"), "dir.d/shot.txt");
}

#[test]
fn only_one_extension_is_replaced() {
    assert_eq!(description_filename("a.png.png"), "a.png.txt");
    assert_eq!(description_filename(".png"), ".txt");
    assert_eq!(description_filename(".png.png.png"), ".png.png.txt");
    assert_eq!(description_filename("shot.png.png"), "shot.png.txt");
}

#[test]
fn other_names_only_gain_the_extension() {
    assert_eq!(description_filename("notes"), "notes.txt");
    assert_eq!(description_filename(""), ".txt");
    assert_eq!(description_filename("shot.PNG"), "shot.PNG.txt");
    assert_eq!(description_filename("shot.png.bak"), "shot.png.bak.txt");
    assert_eq!(description_filename("png"), "png.txt");
}

/// The shape of a stamp of a year from 0 to 9999: eight digits, an
/// underscore, six digits.
fn is_stamp(stamp: &str) -> bool {
    let chars: Vec<char> = stamp.chars().collect();
    chars.len() == 15
        && chars.iter().enumerate().all(|(i, c)| if i == 8 { *c == '_' } else { c.is_ascii_digit() })
}

fn field(stamp: &str, from: usize, to: usize) -> u32 {
    stamp[from..to].parse().unwrap()
}

#[test]
fn names_of_the_present_moment() {
    let image = screenshot_filename_now();
    let stamp = image.strip_suffix("_screenshot.png").unwrap();
    assert!(is_stamp(stamp), "{}", stamp);
    let audio = audio_filename_now();
    let stamp = audio.strip_suffix("_audio.wav").unwrap();
    assert!(is_stamp(stamp), "{}", stamp);
    assert_eq!(description_filename(&image), format!("{}.txt", image.strip_suffix(".png").unwrap()));
}

#[test]
fn stamp_of_the_present_moment_is_a_date_and_a_time() {
    let image = screenshot_filename_now();
    let stamp = image.strip_suffix("_screenshot.png").unwrap();
    assert!(is_stamp(stamp), "{}", stamp);
    assert!(field(stamp, 0, 4) >= 1970);
    assert!((1..=12).contains(&field(stamp, 4, 6)));
    assert!((1..=31).contains(&field(stamp, 6, 8)));
    assert!(field(stamp, 9, 11) <= 23);
    assert!(field(stamp, 11, 13) <= 59);
    assert!(field(stamp, 13, 15) <= 60);
}

#[test]
fn image_name_of_a_stamp_has_thirty_characters() {
    let image = screenshot_filename("20240131_235959");
    assert_eq!(image.chars().count(), 30);
    assert!(!image.contains('/'));
}
