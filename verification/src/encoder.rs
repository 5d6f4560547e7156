//! The command line of the video encoder that takes the frames, and the line
//! that reports how it ended.

use vstd::prelude::*;
use vstd::string::*;

verus! {

/// The character of one decimal digit.
pub open spec fn digit_char(d: int) -> char {
    if d <= 0 {
        '0'
    } else if d == 1 {
        '1'
    } else if d == 2 {
        '2'
    } else if d == 3 {
        '3'
    } else if d == 4 {
        '4'
    } else if d == 5 {
        '5'
    } else if d == 6 {
        '6'
    } else if d == 7 {
        '7'
    } else if d == 8 {
        '8'
    } else {
        '9'
    }
}

/// A number written in decimal digits, without leading zeros.
pub open spec fn spec_decimal(n: nat) -> Seq<char>
    decreases n,
{
    if n < 10 {
        seq![digit_char(n as int)]
    } else {
        spec_decimal(n / 10).push(digit_char((n % 10) as int))
    }
}

/// A whole number written in decimal digits, with a minus sign where it is
/// below zero.
pub open spec fn spec_signed_decimal(n: int) -> Seq<char> {
    if n < 0 {
        seq!['-'] + spec_decimal((-n) as nat)
    } else {
        spec_decimal(n as nat)
    }
}

/// The size of a square video frame as the encoder wants it: the side, an
/// `x`, and the side again.
pub open spec fn spec_video_size(side: nat) -> Seq<char> {
    spec_decimal(side) + seq!['x'] + spec_decimal(side)
}

/// The file that the video is written to, named by a time stamp.
pub open spec fn spec_output_path(stamp: nat) -> Seq<char> {
    "videos/"@ + spec_decimal(stamp) + ".mp4"@
}

/// The arguments of the encoder: raw RGB frames of the given size arrive on
/// its standard input, and the video goes to the file named by the stamp.
pub open spec fn spec_encoder_args(side: nat, stamp: nat) -> Seq<Seq<char>> {
    seq![
        "-hide_banner"@,
        "-loglevel"@,
        "warning"@,
        "-f"@,
        "rawvideo"@,
        "-pixel_format"@,
        "rgb24"@,
        "-video_size"@,
        spec_video_size(side),
        "-i"@,
        "pipe:"@,
        "-threads"@,
        "2"@,
        "-crf"@,
        "19"@,
        spec_output_path(stamp),
    ]
}

/// The line that reports how the encoder ended: what it printed where it
/// ended with code zero, the code where it ended with another, and no line
/// where it gave no code.
pub open spec fn spec_encoder_report(code: Option<i32>, printed: Seq<char>) -> Option<Seq<char>> {
    match code {
        Some(c) => if c == 0 {
            Some("OK FFMPEG: "@ + printed)
        } else {
            Some("Error "@ + spec_signed_decimal(c as int))
        },
        None => None,
    }
}

fn digit(d: u64) -> (s: &'static str)
    requires
        d < 10,
    ensures
        s@ == seq![digit_char(d as int)],
{
    proof {
        reveal_strlit("0");
        reveal_strlit("1");
        reveal_strlit("2");
        reveal_strlit("3");
        reveal_strlit("4");
        reveal_strlit("5");
        reveal_strlit("6");
        reveal_strlit("7");
        reveal_strlit("8");
        reveal_strlit("9");
    }
    let s = if d == 0 {
        "0"
    } else if d == 1 {
        "1"
    } else if d == 2 {
        "2"
    } else if d == 3 {
        "3"
    } else if d == 4 {
        "4"
    } else if d == 5 {
        "5"
    } else if d == 6 {
        "6"
    } else if d == 7 {
        "7"
    } else if d == 8 {
        "8"
    } else {
        "9"
    };
    assert(s@ =~= seq![digit_char(d as int)]);
    s
}

/// Writes a number in decimal digits.
pub fn decimal(n: u64) -> (s: String)
    ensures
        s@ == spec_decimal(n as nat),
    decreases n,
{
    if n < 10 {
        String::from_str(digit(n))
    } else {
        let mut s = decimal(n / 10);
        s.append(digit(n % 10));
        assert(s@ =~= spec_decimal(n as nat));
        s
    }
}

/// Writes a whole number in decimal digits, with its sign where it is below
/// zero.
pub fn signed_decimal(n: i32) -> (s: String)
    ensures
        s@ == spec_signed_decimal(n as int),
{
    if n < 0 {
        let size: u64 = (-(n as i64)) as u64;
        let digits = decimal(size);
        let mut s = String::from_str("-");
        s.append(digits.as_str());
        proof {
            reveal_strlit("-");
            assert(s@ =~= spec_signed_decimal(n as int));
        }
        s
    } else {
        decimal(n as u64)
    }
}

/// The size of a square video frame as the encoder wants it.
pub fn video_size(side: usize) -> (s: String)
    ensures
        s@ == spec_video_size(side as nat),
{
    let digits = decimal(side as u64);
    let mut s = String::from_str(digits.as_str());
    s.append("x");
    s.append(digits.as_str());
    proof {
        reveal_strlit("x");
        assert(s@ =~= spec_video_size(side as nat));
    }
    s
}

/// The file that the video is written to.
pub fn output_path(stamp: u64) -> (s: String)
    ensures
        s@ == spec_output_path(stamp as nat),
{
    let digits = decimal(stamp);
    let mut s = String::from_str("videos/");
    s.append(digits.as_str());
    s.append(".mp4");
    s
}

/// The arguments of the encoder, in order.
pub fn encoder_args(side: usize, stamp: u64) -> (args: Vec<String>)
    ensures
        args@.len() == spec_encoder_args(side as nat, stamp as nat).len(),
        forall|i: int|
            0 <= i < args@.len() ==> (#[trigger] args@[i])@ == spec_encoder_args(
                side as nat,
                stamp as nat,
            )[i],
{
    let mut args: Vec<String> = Vec::new();
    args.push(String::from_str("-hide_banner"));
    args.push(String::from_str("-loglevel"));
    args.push(String::from_str("warning"));
    args.push(String::from_str("-f"));
    args.push(String::from_str("rawvideo"));
    args.push(String::from_str("-pixel_format"));
    args.push(String::from_str("rgb24"));
    args.push(String::from_str("-video_size"));
    args.push(video_size(side));
    args.push(String::from_str("-i"));
    args.push(String::from_str("pipe:"));
    args.push(String::from_str("-threads"));
    args.push(String::from_str("2"));
    args.push(String::from_str("-crf"));
    args.push(String::from_str("19"));
    args.push(output_path(stamp));
    args
}

/// The line that reports how the encoder ended, if there is one.
pub fn encoder_report(code: Option<i32>, printed: &str) -> (line: Option<String>)
    ensures
        match line {
            Some(s) => spec_encoder_report(code, printed@) == Some(s@),
            None => spec_encoder_report(code, printed@) is None,
        },
{
    match code {
        Some(c) => {
            if c == 0 {
                let mut s = String::from_str("OK FFMPEG: ");
                s.append(printed);
                Some(s)
            } else {
                let digits = signed_decimal(c);
                let mut s = String::from_str("Error ");
                s.append(digits.as_str());
                Some(s)
            }
        },
        None => None,
    }
}

} // verus!
