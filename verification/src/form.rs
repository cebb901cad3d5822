//! The configuration form: what a submit leads to, and how a chosen or
//! dropped folder reaches the configuration.

use crate::text::{decimal, lemma_decimal_is_digits};
use crate::types::{ConfigView, RustFsConfig};
use vstd::prelude::*;
use vstd::string::StringExecFns;

verus! {

/// Whether `c` is white space: a character with the Unicode property
/// `White_Space`.
pub open spec fn is_whitespace(c: char) -> bool {
    let code = c as u32;
    ||| 0x09 <= code <= 0x0D
    ||| code == 0x20
    ||| code == 0x85
    ||| code == 0xA0
    ||| code == 0x1680
    ||| 0x2000 <= code <= 0x200A
    ||| code == 0x2028
    ||| code == 0x2029
    ||| code == 0x202F
    ||| code == 0x205F
    ||| code == 0x3000
}

/// Whether `text` holds nothing but white space.
pub open spec fn is_blank(text: Seq<char>) -> bool {
    forall|i: int| 0 <= i < text.len() ==> is_whitespace(#[trigger] text[i])
}

/// Whether `c` is white space.
pub fn whitespace(c: char) -> (white: bool)
    ensures
        white == is_whitespace(c),
{
    let code: u32 = c as u32;
    (0x09 <= code && code <= 0x0D) || code == 0x20 || code == 0x85 || code == 0xA0 || code
        == 0x1680 || (0x2000 <= code && code <= 0x200A) || code == 0x2028 || code == 0x2029
        || code == 0x202F || code == 0x205F || code == 0x3000
}

/// Whether `text` holds nothing but white space, so that nothing is left of
/// it once it is trimmed.
pub fn blank(text: &str) -> (blank: bool)
    ensures
        blank == is_blank(text@),
{
    broadcast use vstd::string::group_string_axioms;

    let mut blank = true;
    for c in it: text.chars()
        invariant
            it.seq() == text@,
            blank == is_blank(text@.take(it.index() as int)),
    {
        assert(text@.take(it.index() + 1).last() == c);
        if !whitespace(c) {
            blank = false;
        }
    }
    assert(text@.take(text@.len() as int) =~= text@);
    blank
}

/// What submitting the form leads to.
#[derive(Debug, Clone, PartialEq, Eq)]
pub enum SubmitAction {
    /// A process runs: the submit stops it.
    Stop,
    /// The configuration is refused with this message, and nothing is
    /// launched.
    Reject(String),
    /// The configuration goes to the launcher.
    Launch,
}

/// A [`SubmitAction`] with its text as a character sequence.
pub ghost enum SubmitView {
    Stop,
    Reject(Seq<char>),
    Launch,
}

impl View for SubmitAction {
    type V = SubmitView;

    open spec fn view(&self) -> SubmitView {
        match self {
            SubmitAction::Stop => SubmitView::Stop,
            SubmitAction::Reject(message) => SubmitView::Reject(message@),
            SubmitAction::Launch => SubmitView::Launch,
        }
    }
}

/// What a submit leads to: while a process runs it stops it; otherwise a
/// blank data path and port zero are refused, in this order, and everything
/// else is launched.
pub open spec fn submit_action(is_running: bool, config: ConfigView) -> SubmitView {
    if is_running {
        SubmitView::Stop
    } else if is_blank(config.data_path) {
        SubmitView::Reject("Data path is required"@)
    } else if config.port == Some(0u16) {
        SubmitView::Reject("Port must be greater than 0"@)
    } else {
        SubmitView::Launch
    }
}

/// Decides what a submit of the form leads to.
pub fn handle_submit(is_running: bool, config: &RustFsConfig) -> (action: SubmitAction)
    ensures
        action@ == submit_action(is_running, config@),
{
    if is_running {
        return SubmitAction::Stop;
    }
    if blank(config.data_path.as_str()) {
        return SubmitAction::Reject(String::from_str("Data path is required"));
    }
    match config.port {
        Some(port) => {
            if port == 0 {
                return SubmitAction::Reject(String::from_str("Port must be greater than 0"));
            }
        },
        None => {},
    }
    SubmitAction::Launch
}

/// Takes the folder that the user picked in the dialog: an empty answer, as
/// comes from a cancelled dialog, leaves the configuration as it is.
pub fn folder_selected(config: &mut RustFsConfig, picked: Option<String>)
    ensures
        final(config)@ == (match picked {
            Some(path) if path@.len() > 0 => ConfigView { data_path: path@, ..old(config)@ },
            _ => old(config)@,
        }),
{
    match picked {
        Some(path) => {
            if !path.as_str().is_empty() {
                config.data_path = path;
            }
        },
        None => {},
    }
}

/// Takes the files that the user dropped on the form: the first of them
/// becomes the data path, and a drop of nothing changes nothing.
pub fn files_dropped(config: &mut RustFsConfig, paths: &Vec<String>)
    ensures
        final(config)@ == (if paths@.len() > 0 {
            ConfigView { data_path: paths@[0]@, ..old(config)@ }
        } else {
            old(config)@
        }),
{
    if paths.len() > 0 {
        config.data_path = paths[0].clone();
    }
}

/// Whether `c` is one of the ten decimal digits.
pub open spec fn is_digit(c: char) -> bool {
    '0' <= c && c <= '9'
}

/// Whether `text` holds decimal digits only.
pub open spec fn all_digits(text: Seq<char>) -> bool {
    forall|i: int| 0 <= i < text.len() ==> is_digit(#[trigger] text[i])
}

/// The number that the decimal digits of `text` write.
pub open spec fn digits_value(text: Seq<char>) -> nat
    decreases text.len(),
{
    if text.len() == 0 {
        0
    } else {
        digits_value(text.drop_last()) * 10 + (text.last() as u32 - '0' as u32) as nat
    }
}

/// `text` without the plus sign that may stand in front of a number.
pub open spec fn unsigned_part(text: Seq<char>) -> Seq<char> {
    if text.len() > 0 && text[0] == '+' {
        text.drop_first()
    } else {
        text
    }
}

/// The port that `text` writes: decimal digits, at least one, after an
/// optional plus sign, with a value of at most 65535. Anything else is no
/// port.
pub open spec fn port_of(text: Seq<char>) -> Option<u16> {
    let digits = unsigned_part(text);
    if digits.len() > 0 && all_digits(digits) && digits_value(digits) <= u16::MAX {
        Some(digits_value(digits) as u16)
    } else {
        None
    }
}

/// The value of a number never falls when digits are added behind it.
pub proof fn lemma_digits_value_grows(text: Seq<char>, k: int)
    requires
        all_digits(text),
        0 <= k <= text.len(),
    ensures
        digits_value(text.take(k)) <= digits_value(text),
    decreases text.len() - k,
{
    if k < text.len() {
        lemma_digits_value_grows(text, k + 1);
        assert(text.take(k + 1).drop_last() =~= text.take(k));
    } else {
        assert(text.take(k) =~= text);
    }
}

/// The digits of a decimal numeral write the number that the numeral is of.
pub proof fn lemma_decimal_value(n: nat)
    ensures
        all_digits(decimal(n)),
        digits_value(decimal(n)) == n,
    decreases n,
{
    lemma_decimal_is_digits(n);
    if n >= 10 {
        lemma_decimal_value(n / 10);
        assert(decimal(n).drop_last() =~= decimal(n / 10));
    } else {
        assert(decimal(n).drop_last() =~= Seq::<char>::empty());
        assert(digits_value(Seq::<char>::empty()) == 0);
    }
}

/// A port that is shown in the form reads back as itself.
pub proof fn lemma_port_round_trip(port: u16)
    ensures
        port_of(decimal(port as nat)) == Some(port),
{
    lemma_decimal_is_digits(port as nat);
    lemma_decimal_value(port as nat);
}

/// Reads the port field of the form: an empty or malformed field, and a
/// number beyond the largest port, give no port.
pub fn parse_port(text: &str) -> (port: Option<u16>)
    ensures
        port == port_of(text@),
{
    broadcast use vstd::string::group_string_axioms;

    let ghost digits = unsigned_part(text@);
    let ghost skip: int = if text@.len() > 0 && text@[0] == '+' {
        1
    } else {
        0
    };
    let mut value: u32 = 0;
    let ghost mut count: int = 0;
    let mut any = false;
    let mut valid = true;
    let mut first = true;
    for c in it: text.chars()
        invariant
            it.seq() == text@,
            digits == unsigned_part(text@),
            skip == (if text@.len() > 0 && text@[0] == '+' {
                1int
            } else {
                0int
            }),
            first == (it.index() == 0),
            valid ==> count == (if it.index() >= skip {
                it.index() - skip
            } else {
                0
            }),
            valid ==> any == (count > 0),
            valid ==> all_digits(digits.take(count)),
            valid ==> value == digits_value(digits.take(count)),
            valid ==> value <= u16::MAX,
            !valid ==> !(all_digits(digits) && digits_value(digits) <= u16::MAX),
    {
        if valid {
            let sign = first && c == '+';
            if !sign {
                assert(digits[count] == c);
                assert(digits.take(count + 1).drop_last() =~= digits.take(count));
                if '0' <= c && c <= '9' {
                    let digit: u32 = c as u32 - '0' as u32;
                    let grown: u32 = value * 10 + digit;
                    if grown > 65535 {
                        proof {
                            if all_digits(digits) {
                                lemma_digits_value_grows(digits, count + 1);
                            }
                        }
                        valid = false;
                    } else {
                        value = grown;
                        any = true;
                        proof {
                            count = count + 1;
                        }
                    }
                } else {
                    valid = false;
                }
            }
        }
        first = false;
    }
    proof {
        if valid {
            assert(digits.take(count) =~= digits);
        }
    }
    if valid && any {
        Some(value as u16)
    } else {
        None
    }
}

/// Reads an optional text field of the form: an empty field is no value.
pub fn optional_field(value: String) -> (field: Option<String>)
    ensures
        field == (if value@.len() == 0 {
            None
        } else {
            Some(value)
        }),
{
    if value.as_str().is_empty() {
        None
    } else {
        Some(value)
    }
}

/// Whether the submit button is switched off: nothing runs and no data path
/// is entered.
pub fn submit_disabled(is_running: bool, config: &RustFsConfig) -> (disabled: bool)
    ensures
        disabled == (!is_running && config@.data_path.len() == 0),
{
    !is_running && config.data_path.as_str().is_empty()
}

/// The words on the submit button.
pub fn submit_label(is_running: bool) -> (label: &'static str)
    ensures
        label@ == (if is_running {
            "Stop RustFS"@
        } else {
            "Launch RustFS"@
        }),
{
    if is_running {
        "Stop RustFS"
    } else {
        "Launch RustFS"
    }
}

} // verus!
