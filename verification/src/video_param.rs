//! What to record, and where to.

use vstd::prelude::*;
use vstd::string::*;

verus! {

/// The parameters of one recording session.
#[derive(Debug, Clone)]
pub struct VideoParam {
    pub width: u32,
    pub height: u32,
    pub bit_rate: u32,
    pub frame_rate: i32,
    pub max_seconds: u64,
    pub output_file_path: String,
}

/// The character of one decimal digit.
pub open spec fn digit_char(digit: nat) -> char {
    if digit == 0 {
        '0'
    } else if digit == 1 {
        '1'
    } else if digit == 2 {
        '2'
    } else if digit == 3 {
        '3'
    } else if digit == 4 {
        '4'
    } else if digit == 5 {
        '5'
    } else if digit == 6 {
        '6'
    } else if digit == 7 {
        '7'
    } else if digit == 8 {
        '8'
    } else {
        '9'
    }
}

/// A number written in decimal, without leading zeros.
pub open spec fn decimal_spec(n: nat) -> Seq<char>
    decreases n,
{
    if n < 10 {
        seq![digit_char(n)]
    } else {
        decimal_spec(n / 10).push(digit_char(n % 10))
    }
}

/// The name of the output file of a session that starts at this second of
/// Unix time: the second in decimal, with the extension `.h264`.
pub open spec fn file_name_spec(seconds: u64) -> Seq<char> {
    decimal_spec(seconds as nat) + ".h264"@
}

/// One decimal digit as text.
fn digit_str(digit: u64) -> (text: &'static str)
    requires
        digit < 10,
    ensures
        text@ == seq![digit_char(digit as nat)],
{
    proof {
        reveal_strlit("0");
        reveal_strlit("1");
        reveal_strlit("2");
        reveal_strlit("3");
        reveal_strlit("4");
        reveal_strlit("5");
        reveal_strlit("6");
        reveal_strlit("7");
        reveal_strlit("8");
        reveal_strlit("9");
    }
    let text = if digit == 0 {
        "0"
    } else if digit == 1 {
        "1"
    } else if digit == 2 {
        "2"
    } else if digit == 3 {
        "3"
    } else if digit == 4 {
        "4"
    } else if digit == 5 {
        "5"
    } else if digit == 6 {
        "6"
    } else if digit == 7 {
        "7"
    } else if digit == 8 {
        "8"
    } else {
        "9"
    };
    assert(text@ =~= seq![digit_char(digit as nat)]);
    text
}

/// Writes a number in decimal.
pub fn decimal(n: u64) -> (text: String)
    ensures
        text@ == decimal_spec(n as nat),
    decreases n,
{
    if n < 10 {
        String::from_str(digit_str(n))
    } else {
        let mut text = decimal(n / 10);
        text.append(digit_str(n % 10));
        assert(text@ =~= decimal_spec(n as nat));
        text
    }
}

/// Reads the clock: `SystemTime::elapsed` of the Unix epoch, in whole seconds
/// (`Duration::as_secs`); `None` if the clock stands before the epoch.
/// Nothing is claimed of the value.
#[verifier::external_body]
fn unix_seconds() -> (seconds: Option<u64>) {
    match std::time::UNIX_EPOCH.elapsed() {
        Ok(elapsed) => Some(elapsed.as_secs()),
        Err(_) => None,
    }
}

impl VideoParam {
    /// Whether these are the default parameters of a session that starts at
    /// this second of Unix time.
    pub open spec fn is_default_at(&self, seconds: u64) -> bool {
        &&& self.width == 1920
        &&& self.height == 1080
        &&& self.bit_rate == 17000000
        &&& self.frame_rate == 30
        &&& self.max_seconds == 5
        &&& self.output_file_path@ == file_name_spec(seconds)
    }

    /// The default parameters of a session that starts at this second of Unix
    /// time: 1920 by 1080 at 30 frames and 17 Mbit per second, five seconds
    /// at most, into a file named after the second.
    pub fn default_at(seconds: u64) -> (param: VideoParam)
        ensures
            param.is_default_at(seconds),
    {
        let mut output_file_path = decimal(seconds);
        output_file_path.append(".h264");
        VideoParam {
            width: 1920,
            height: 1080,
            bit_rate: 17000000,
            frame_rate: 30,
            max_seconds: 5,
            output_file_path,
        }
    }

    /// A copy of the parameters.
    pub fn duplicate(&self) -> (param: VideoParam)
        ensures
            param == *self,
    {
        VideoParam {
            width: self.width,
            height: self.height,
            bit_rate: self.bit_rate,
            frame_rate: self.frame_rate,
            max_seconds: self.max_seconds,
            output_file_path: self.output_file_path.clone(),
        }
    }
}

impl Default for VideoParam {
    /// The default parameters of a session that starts now. A clock that
    /// stands before the Unix epoch counts as its second 0.
    fn default() -> (param: VideoParam)
        ensures
            exists|seconds: u64| param.is_default_at(seconds),
    {
        let seconds = match unix_seconds() {
            Some(seconds) => seconds,
            None => 0,
        };
        let param = VideoParam::default_at(seconds);
        assert(param.is_default_at(seconds));
        param
    }
}

} // verus!
