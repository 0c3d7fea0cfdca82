//! Names of the files that the agent writes into its output folder.

use vstd::prelude::*;
use vstd::string::*;
use crate::text::{ends_with, is_digit, strip_suffix_text};

verus! {

/// Whether `s` writes a moment to the second: the year, then two digits each
/// for month and day, an underscore, and two digits each for hour, minute and
/// second. The year has four digits or more, and a sign before them when it
/// lies outside 0 to 9999.
pub open spec fn is_stamp(s: Seq<char>) -> bool {
    &&& s.len() >= 15
    &&& s[s.len() - 7] == '_'
    &&& forall|i: int|
        0 <= i < s.len() && i != s.len() - 7 ==> (is_digit(#[trigger] s[i]) || (i == 0 && (s[0]
            == '+' || s[0] == '-')))
}

/// Name of the image captured at the moment that `stamp` writes.
pub open spec fn screenshot_name(stamp: Seq<char>) -> Seq<char> {
    stamp + "_screenshot.png"@
}

/// Name of the audio segment opened at the moment that `stamp` writes.
pub open spec fn audio_name(stamp: Seq<char>) -> Seq<char> {
    stamp + "_audio.wav"@
}

/// Name of the text file that belongs to an image: the image's name with its
/// extension `.png` replaced by `.txt`. A name without that extension is kept
/// whole, and `.txt` follows it.
pub open spec fn description_name(image: Seq<char>) -> Seq<char> {
    (if ends_with(image, ".png"@) {
        image.subrange(0, image.len() - 4)
    } else {
        image
    }) + ".txt"@
}

/// Reads the local wall clock with chrono's `Local::now` and writes it out
/// with `DateTime::format` under the pattern `%Y%m%d_%H%M%S`. The reading
/// changes from call to call, so only the shape of the text is claimed:
/// chrono pads every field with zeros, the year to four digits, and signs a
/// year outside 0 to 9999.
#[verifier::external_body]
pub(crate) fn local_stamp() -> (stamp: String)
    ensures
        is_stamp(stamp@),
{
    chrono::Local::now().format("%Y%m%d_%H%M%S").to_string()
}

/// The image name for a given stamp.
pub fn screenshot_filename(stamp: &str) -> (name: String)
    ensures
        name@ == screenshot_name(stamp@),
{
    let mut name = String::from_str(stamp);
    name.append("_screenshot.png");
    name
}

/// The audio segment name for a given stamp.
pub fn audio_filename(stamp: &str) -> (name: String)
    ensures
        name@ == audio_name(stamp@),
{
    let mut name = String::from_str(stamp);
    name.append("_audio.wav");
    name
}

/// The image name for the present moment. Whatever the clock says, the name
/// is the screenshot name of a stamp.
pub fn screenshot_filename_now() -> (name: String)
    ensures
        exists|stamp: Seq<char>| is_stamp(stamp) && name@ == screenshot_name(stamp),
{
    let stamp = local_stamp();
    let name = screenshot_filename(stamp.as_str());
    assert(is_stamp(stamp@) && name@ == screenshot_name(stamp@));
    name
}

/// The audio segment name for the present moment. Whatever the clock says,
/// the name is the audio name of a stamp.
pub fn audio_filename_now() -> (name: String)
    ensures
        exists|stamp: Seq<char>| is_stamp(stamp) && name@ == audio_name(stamp),
{
    let stamp = local_stamp();
    let name = audio_filename(stamp.as_str());
    assert(is_stamp(stamp@) && name@ == audio_name(stamp@));
    name
}

/// The name of the text file that is written beside an image.
pub fn description_filename(image_filename: &str) -> (name: String)
    ensures
        name@ == description_name(image_filename@),
{
    proof {
        reveal_strlit(".png");
    }
    let stem = match strip_suffix_text(image_filename, ".png") {
        Some(stem) => stem,
        None => image_filename,
    };
    let mut name = String::from_str(stem);
    name.append(".txt");
    name
}

/// For an image name made of a stem and `.png`, the text file is named by the
/// stem and `.txt`.
pub proof fn lemma_description_replaces_extension(stem: Seq<char>)
    ensures
        description_name(stem + ".png"@) == stem + ".txt"@,
{
    reveal_strlit(".png");
    let image = stem + ".png"@;
    assert(image.subrange(image.len() - 4, image.len() as int) == ".png"@);
    assert(image.subrange(0, image.len() - 4) == stem);
}

/// The text file of a captured image lies beside it under the same stamp:
/// `<stamp>_screenshot.txt` for `<stamp>_screenshot.png`.
pub proof fn lemma_description_beside_screenshot(stamp: Seq<char>)
    ensures
        description_name(screenshot_name(stamp)) == stamp + "_screenshot.txt"@,
{
    reveal_strlit(".png");
    reveal_strlit(".txt");
    reveal_strlit("_screenshot");
    reveal_strlit("_screenshot.png");
    reveal_strlit("_screenshot.txt");
    let stem = stamp + "_screenshot"@;
    lemma_description_replaces_extension(stem);
    assert(stem + ".png"@ == screenshot_name(stamp));
    assert(stem + ".txt"@ == stamp + "_screenshot.txt"@);
}

} // verus!
