//! What the overlay shows that is not layout: the state of its informational
//! panel, which is all that outlives a frame, and the text of its frame-rate
//! readout.

use vstd::prelude::*;
use vstd::string::*;

verus! {

/// The overlay's persistent view state: whether the informational panel is
/// shown.
#[derive(Clone, Copy, Debug, PartialEq, Eq, Structural)]
pub struct Test {
    is_window_open: bool,
}

impl View for Test {
    type V = bool;

    /// Whether the panel is shown.
    closed spec fn view(&self) -> bool {
        self.is_window_open
    }
}

impl Test {
    /// The panel is shown when the overlay starts.
    pub fn new() -> (view: Self)
        ensures
            view@,
    {
        Self { is_window_open: true }
    }

    /// Whether the panel is to be shown this frame.
    pub fn is_window_open(&self) -> (open: bool)
        ensures
            open == self@,
    {
        self.is_window_open
    }

    /// The menu's "About" action: the panel is shown again.
    pub fn open_about(&mut self)
        ensures
            final(self)@,
    {
        self.is_window_open = true;
    }

    /// Takes what showing the panel left of its flag: `still_open` is false
    /// once the user has dismissed it. Showing a panel never opens it.
    pub fn panel_shown(&mut self, still_open: bool)
        ensures
            final(self)@ == (old(self)@ && still_open),
    {
        self.is_window_open = self.is_window_open && still_open;
    }
}

/// The character of a decimal digit.
pub open spec fn digit_char(d: int) -> char
    recommends
        0 <= d < 10,
{
    if d == 0 {
        '0'
    } else if d == 1 {
        '1'
    } else if d == 2 {
        '2'
    } else if d == 3 {
        '3'
    } else if d == 4 {
        '4'
    } else if d == 5 {
        '5'
    } else if d == 6 {
        '6'
    } else if d == 7 {
        '7'
    } else if d == 8 {
        '8'
    } else {
        '9'
    }
}

/// A number in decimal, without leading zeros.
pub open spec fn decimal(n: nat) -> Seq<char>
    decreases n,
{
    if n < 10 {
        seq![digit_char(n as int)]
    } else {
        decimal(n / 10).push(digit_char((n % 10) as int))
    }
}

/// A rate in hundredths, written with two decimals.
pub open spec fn rate_text(rate: u64) -> Seq<char> {
    decimal((rate / 100) as nat) + seq![
        '.',
        digit_char((rate / 10 % 10) as int),
        digit_char((rate % 10) as int),
    ]
}

/// The frame-rate readout: the rate with two decimals, or `inf` where there
/// is no rate because no time has passed.
pub open spec fn label_text(fps: Option<u64>) -> Seq<char> {
    seq!['F', 'P', 'S', ':', ' '] + match fps {
        Some(rate) => rate_text(rate),
        None => seq!['i', 'n', 'f'],
    }
}

fn digit_str(d: u64) -> (s: &'static str)
    requires
        d < 10,
    ensures
        s@ == seq![digit_char(d as int)],
{
    proof {
        reveal_strlit("0");
        reveal_strlit("1");
        reveal_strlit("2");
        reveal_strlit("3");
        reveal_strlit("4");
        reveal_strlit("5");
        reveal_strlit("6");
        reveal_strlit("7");
        reveal_strlit("8");
        reveal_strlit("9");
    }
    let s = if d == 0 {
        "0"
    } else if d == 1 {
        "1"
    } else if d == 2 {
        "2"
    } else if d == 3 {
        "3"
    } else if d == 4 {
        "4"
    } else if d == 5 {
        "5"
    } else if d == 6 {
        "6"
    } else if d == 7 {
        "7"
    } else if d == 8 {
        "8"
    } else {
        "9"
    };
    assert(s@ =~= seq![digit_char(d as int)]);
    s
}

fn push_decimal(text: &mut String, n: u64)
    ensures
        final(text)@ == old(text)@ + decimal(n as nat),
    decreases n,
{
    if n >= 10 {
        push_decimal(text, n / 10);
    }
    text.append(digit_str(n % 10));
    assert(text@ =~= old(text)@ + decimal(n as nat));
}

/// The text of the frame-rate readout for a rate in hundredths of a frame
/// per second.
pub fn fps_label(fps: Option<u64>) -> (label: String)
    ensures
        label@ == label_text(fps),
{
    proof {
        reveal_strlit("FPS: ");
        reveal_strlit("inf");
        reveal_strlit(".");
    }
    let mut label = String::from_str("FPS: ");
    match fps {
        Some(rate) => {
            push_decimal(&mut label, rate / 100);
            label.append(".");
            label.append(digit_str(rate / 10 % 10));
            label.append(digit_str(rate % 10));
        },
        None => {
            label.append("inf");
        },
    }
    assert(label@ =~= label_text(fps));
    label
}

} // verus!
