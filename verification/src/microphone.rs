//! Choice of the input device: the menu that is shown, and what a line typed
//! in answer to it selects.

use vstd::prelude::*;
use vstd::string::*;
use crate::text::{
    all_digits, digit_value, digits_value, is_digit, is_white_space, parse_usize, trim_end_of,
    trim_start_of, trim_text, trimmed, unsigned_decimal,
};

verus! {

/// Seconds that the agent waits for an answer to the menu.
pub const SELECTION_TIMEOUT_SECONDS: u64 = 10;

/// The character that writes the digit `d`.
pub open spec fn digit_char(d: int) -> char {
    "0123456789"@[d]
}

/// The decimal writing of `n`, without leading zeros.
pub open spec fn decimal_text(n: nat) -> Seq<char>
    decreases n,
{
    if n < 10 {
        seq![digit_char(n as int)]
    } else {
        decimal_text(n / 10).push(digit_char((n % 10) as int))
    }
}

/// The name under which a device is listed: its own, or `Unknown` when it
/// has none to give.
pub open spec fn listed_name(name: Option<String>) -> Seq<char> {
    match name {
        Some(text) => text@,
        None => "Unknown"@,
    }
}

/// The menu line of the device at `position`: its number, counted from one,
/// a full stop, a space and its name.
pub open spec fn menu_entry(position: nat, name: Seq<char>) -> Seq<char> {
    decimal_text(position + 1) + ". "@ + name
}

/// What an answer to the menu selects.
#[derive(Debug, Clone, Copy, PartialEq, Eq, Structural)]
pub enum DeviceChoice {
    /// The device at `index` of the menu, counted from zero.
    Device { index: usize },
    /// The answer names no device of the menu; the default device is used.
    Invalid,
    /// No answer came, or a blank one; the default device is used.
    NoSelection,
    /// There is no device to choose from; the default device is used.
    NoDevices,
}

/// What the answer `input` selects from a menu of `count` devices. `None`
/// stands for no answer within the time allowed. White space around the
/// answer does not count; what remains must be a number from 1 to `count`.
pub open spec fn choice_of(count: nat, input: Option<Seq<char>>) -> DeviceChoice {
    if count == 0 {
        DeviceChoice::NoDevices
    } else {
        match input {
            None => DeviceChoice::NoSelection,
            Some(line) => if trimmed(line).len() == 0 {
                DeviceChoice::NoSelection
            } else {
                match unsigned_decimal(trimmed(line), usize::MAX as int) {
                    Some(number) => if 1 <= number <= count {
                        DeviceChoice::Device { index: (number - 1) as usize }
                    } else {
                        DeviceChoice::Invalid
                    },
                    None => DeviceChoice::Invalid,
                }
            },
        }
    }
}

/// The notice that goes with a choice that falls back to the default device.
pub open spec fn notice_text(choice: DeviceChoice) -> Option<Seq<char>> {
    match choice {
        DeviceChoice::Device { .. } => None,
        DeviceChoice::Invalid => Some("Invalid choice. Using default device."@),
        DeviceChoice::NoSelection => Some("No selection made. Using default device."@),
        DeviceChoice::NoDevices => Some("No input devices found."@),
    }
}

impl DeviceChoice {
    /// The notice to show for this choice, if it falls back to the default
    /// device.
    pub fn notice(&self) -> (text: Option<&'static str>)
        ensures
            match text {
                Some(t) => notice_text(*self) == Some(t@),
                None => notice_text(*self) is None,
            },
    {
        match self {
            DeviceChoice::Device { .. } => None,
            DeviceChoice::Invalid => Some("Invalid choice. Using default device."),
            DeviceChoice::NoSelection => Some("No selection made. Using default device."),
            DeviceChoice::NoDevices => Some("No input devices found."),
        }
    }
}

/// Decides which device an answer to the menu selects.
pub fn select_microphone(device_count: usize, input: Option<&str>) -> (choice: DeviceChoice)
    ensures
        choice == choice_of(
            device_count as nat,
            match input {
                Some(line) => Some(line@),
                None => None,
            },
        ),
{
    if device_count == 0 {
        return DeviceChoice::NoDevices;
    }
    match input {
        None => DeviceChoice::NoSelection,
        Some(line) => {
            let answer = trim_text(line);
            if answer.is_empty() {
                DeviceChoice::NoSelection
            } else {
                match parse_usize(answer) {
                    Some(number) => {
                        if number > 0 && number <= device_count {
                            DeviceChoice::Device { index: number - 1 }
                        } else {
                            DeviceChoice::Invalid
                        }
                    },
                    None => DeviceChoice::Invalid,
                }
            }
        },
    }
}

/// The text of one digit.
fn digit_text(d: usize) -> (text: &'static str)
    requires
        d < 10,
    ensures
        text@ == seq![digit_char(d as int)],
{
    proof {
        reveal_strlit("0123456789");
        reveal_strlit("0");
        reveal_strlit("1");
        reveal_strlit("2");
        reveal_strlit("3");
        reveal_strlit("4");
        reveal_strlit("5");
        reveal_strlit("6");
        reveal_strlit("7");
        reveal_strlit("8");
        reveal_strlit("9");
    }
    let text = match d {
        0 => "0",
        1 => "1",
        2 => "2",
        3 => "3",
        4 => "4",
        5 => "5",
        6 => "6",
        7 => "7",
        8 => "8",
        _ => "9",
    };
    assert(text@ =~= seq![digit_char(d as int)]);
    text
}

/// Writes `n` in decimal.
pub fn format_decimal(n: usize) -> (text: String)
    ensures
        text@ == decimal_text(n as nat),
    decreases n,
{
    if n < 10 {
        String::from_str(digit_text(n))
    } else {
        let mut text = format_decimal(n / 10);
        text.append(digit_text(n % 10));
        assert(text@ =~= decimal_text(n as nat));
        text
    }
}

/// The menu of the devices, one line for each in the order given. A device
/// without a name is listed as `Unknown`.
pub fn device_menu(names: &Vec<Option<String>>) -> (menu: Vec<String>)
    ensures
        menu@.len() == names@.len(),
        forall|i: int|
            0 <= i < names@.len() ==> (#[trigger] menu@[i])@ == menu_entry(
                i as nat,
                listed_name(names@[i]),
            ),
{
    let mut menu: Vec<String> = Vec::new();
    let mut i: usize = 0;
    while i < names.len()
        invariant
            i <= names@.len(),
            menu@.len() == i,
            forall|j: int|
                0 <= j < i ==> (#[trigger] menu@[j])@ == menu_entry(
                    j as nat,
                    listed_name(names@[j]),
                ),
        decreases names@.len() - i,
    {
        let mut line = format_decimal(i + 1);
        line.append(". ");
        match &names[i] {
            Some(name) => line.append(name.as_str()),
            None => line.append("Unknown"),
        }
        menu.push(line);
        i = i + 1;
    }
    menu
}

/// The decimal writing of a number consists of digits, at least one, and
/// writes that number.
pub proof fn lemma_decimal_text_digits(n: nat)
    ensures
        decimal_text(n).len() > 0,
        all_digits(decimal_text(n)),
        digits_value(decimal_text(n)) == n,
    decreases n,
{
    reveal_strlit("0123456789");
    if n < 10 {
        let s = decimal_text(n);
        assert(s.drop_last() =~= Seq::<char>::empty());
        assert(digits_value(s.drop_last()) == 0);
        assert(digit_value(s.last()) == n);
    } else {
        lemma_decimal_text_digits(n / 10);
        let head = decimal_text(n / 10);
        let s = decimal_text(n);
        assert(s.drop_last() =~= head);
        assert(digit_value(s.last()) == n % 10);
        assert forall|i: int| 0 <= i < s.len() implies is_digit(#[trigger] s[i]) by {
            if i < head.len() {
                assert(s[i] == head[i]);
            }
        }
    }
}

/// White space around a run of digits is all that trimming removes: a text
/// made of digits stays as it is.
pub proof fn lemma_digits_stay_trimmed(s: Seq<char>)
    requires
        all_digits(s),
    ensures
        trimmed(s) == s,
{
    if s.len() > 0 {
        assert(is_digit(s[0]));
        assert(!is_white_space(s[0]));
        assert(is_digit(s.last()));
        assert(!is_white_space(s.last()));
    }
    assert(trim_start_of(s) == s);
    assert(trim_end_of(s) == s);
}

/// Typing the number under which the menu lists a device selects that
/// device.
pub proof fn lemma_menu_number_selects(count: nat, position: nat)
    requires
        position < count <= usize::MAX,
    ensures
        choice_of(count, Some(decimal_text(position + 1))) == (DeviceChoice::Device {
            index: position as usize,
        }),
{
    let answer = decimal_text(position + 1);
    lemma_decimal_text_digits(position + 1);
    lemma_digits_stay_trimmed(answer);
    assert(is_digit(answer[0]));
    assert(answer[0] != '+');
}

} // verus!
