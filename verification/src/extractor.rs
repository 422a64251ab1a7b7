//! The command that extracts the frames of a clip.
//!
//! The extraction tool reads the source up to the duration limit, resamples it
//! to [`SAMPLING_RATE_FPS`] frames per second and writes each frame as a
//! numbered still image into the scratch directory. Only an exit status of
//! zero counts as success.

use crate::error::{prefixed, ConversionError};
use crate::frames::texts;
use crate::timing::SAMPLING_RATE_FPS;
use vstd::prelude::*;
use vstd::string::StringExecFns;

verus! {

/// The text of one decimal digit.
pub open spec fn digit_text(digit: nat) -> Seq<char> {
    if digit == 0 {
        "0"@
    } else if digit == 1 {
        "1"@
    } else if digit == 2 {
        "2"@
    } else if digit == 3 {
        "3"@
    } else if digit == 4 {
        "4"@
    } else if digit == 5 {
        "5"@
    } else if digit == 6 {
        "6"@
    } else if digit == 7 {
        "7"@
    } else if digit == 8 {
        "8"@
    } else {
        "9"@
    }
}

/// A number written in decimal, without leading zeros.
pub open spec fn decimal_text(number: nat) -> Seq<char>
    decreases number,
{
    if number < 10 {
        digit_text(number)
    } else {
        decimal_text(number / 10) + digit_text(number % 10)
    }
}

/// The name of the extraction tool.
pub open spec fn program_text() -> Seq<char> {
    "ffmpeg"@
}

/// The pattern that tells the extraction tool where to write its frames.
pub open spec fn output_pattern_text(scratch_dir: Seq<char>) -> Seq<char> {
    scratch_dir + "/frame_%05d.png"@
}

/// The pattern by which the extracted frames are found again.
pub open spec fn search_pattern_text(scratch_dir: Seq<char>) -> Seq<char> {
    scratch_dir + "/frame_*.png"@
}

/// The video filter that fixes the output rate.
pub open spec fn rate_filter_text() -> Seq<char> {
    "fps="@ + decimal_text(SAMPLING_RATE_FPS as nat)
}

/// The arguments of the extraction command, in order: no banner, errors only,
/// the source, the duration limit, the rate filter, the output pattern, and
/// overwriting without a prompt.
pub open spec fn argument_texts(
    source: Seq<char>,
    duration: Seq<char>,
    scratch_dir: Seq<char>,
) -> Seq<Seq<char>> {
    seq![
        "-hide_banner"@,
        "-loglevel"@,
        "error"@,
        "-i"@,
        source,
        "-t"@,
        duration,
        "-vf"@,
        rate_filter_text(),
        output_pattern_text(scratch_dir),
        "-y"@,
    ]
}

fn digit(value: u16) -> (text: &'static str)
    requires
        value < 10,
    ensures
        text@ == digit_text(value as nat),
{
    match value {
        0 => "0",
        1 => "1",
        2 => "2",
        3 => "3",
        4 => "4",
        5 => "5",
        6 => "6",
        7 => "7",
        8 => "8",
        _ => "9",
    }
}

/// Writes a number in decimal.
pub fn decimal(number: u16) -> (text: String)
    ensures
        text@ == decimal_text(number as nat),
{
    let mut text = String::from_str(digit(number % 10));
    let mut rest: u16 = number / 10;
    while rest > 0
        invariant
            rest > 0 ==> decimal_text(number as nat) == decimal_text(rest as nat) + text@,
            rest == 0 ==> decimal_text(number as nat) == text@,
        decreases rest,
    {
        let ghost shorter = text@;
        text = prefixed(digit(rest % 10), text.as_str());
        proof {
            if rest >= 10 {
                assert(decimal_text(rest as nat) + shorter =~= decimal_text((rest / 10) as nat)
                    + text@);
            }
        }
        rest = rest / 10;
    }
    text
}

/// The name of the extraction tool.
pub fn program() -> (name: String)
    ensures
        name@ == program_text(),
{
    String::from_str("ffmpeg")
}

/// The pattern that tells the extraction tool where to write its frames: a
/// five-digit, zero-padded index in the scratch directory.
pub fn output_pattern(scratch_dir: &str) -> (pattern: String)
    ensures
        pattern@ == output_pattern_text(scratch_dir@),
{
    prefixed(scratch_dir, "/frame_%05d.png")
}

/// The pattern by which the extracted frames are found again.
pub fn search_pattern(scratch_dir: &str) -> (pattern: String)
    ensures
        pattern@ == search_pattern_text(scratch_dir@),
{
    prefixed(scratch_dir, "/frame_*.png")
}

/// The arguments with which the extraction tool is run.
pub fn arguments(source: &str, duration: &str, scratch_dir: &str) -> (list: Vec<String>)
    ensures
        texts(list@) == argument_texts(source@, duration@, scratch_dir@),
{
    let rate = decimal(SAMPLING_RATE_FPS);
    let mut list: Vec<String> = Vec::new();
    list.push(String::from_str("-hide_banner"));
    list.push(String::from_str("-loglevel"));
    list.push(String::from_str("error"));
    list.push(String::from_str("-i"));
    list.push(String::from_str(source));
    list.push(String::from_str("-t"));
    list.push(String::from_str(duration));
    list.push(String::from_str("-vf"));
    list.push(prefixed("fps=", rate.as_str()));
    list.push(output_pattern(scratch_dir));
    list.push(String::from_str("-y"));
    assert(texts(list@) =~= argument_texts(source@, duration@, scratch_dir@));
    list
}

/// Judges how the extraction tool ended: only an exit status of zero lets the
/// conversion go on.
pub fn exit_outcome(success: bool) -> (outcome: Result<(), ConversionError>)
    ensures
        outcome is Ok <==> success,
        outcome matches Err(error) ==> (error matches ConversionError::ExternalTool {
            tool,
            launch,
        } && tool@ == program_text() && launch is None),
{
    if success {
        Ok(())
    } else {
        Err(ConversionError::ExternalTool { tool: program(), launch: None })
    }
}

} // verus!
