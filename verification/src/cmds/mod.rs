//! What the command line decides before it talks to anybody.

pub mod account;

use crate::text::{
    ascii_lowercase, join, joined, split_whitespace, str_eq, to_ascii_lowercase, trim, trimmed,
    whitespace_split,
};
use vstd::prelude::*;

verus! {

/// A switch that the command line names by two labels, such as "on" and
/// "off".
#[derive(Debug, Clone, Copy)]
pub struct BooleanOption {
    state: bool,
    on_label: &'static str,
    off_label: &'static str,
}

/// The mathematical value of a [`BooleanOption`].
pub struct BooleanOptionView {
    pub state: bool,
    pub on_label: Seq<char>,
    pub off_label: Seq<char>,
}

impl View for BooleanOption {
    type V = BooleanOptionView;

    closed spec fn view(&self) -> BooleanOptionView {
        BooleanOptionView {
            state: self.state,
            on_label: self.on_label@,
            off_label: self.off_label@,
        }
    }
}

impl BooleanOptionView {
    /// The label that names the state of the switch.
    pub open spec fn label(self) -> Seq<char> {
        if self.state {
            self.on_label
        } else {
            self.off_label
        }
    }
}

/// What a value given on the command line means for a switch with the given
/// labels: the switch is on for the one, off for the other, and any other
/// value is refused.
pub open spec fn parse_spec(
    value: Seq<char>,
    on_label: Seq<char>,
    off_label: Seq<char>,
) -> Option<BooleanOptionView> {
    if value == on_label {
        Some(BooleanOptionView { state: true, on_label, off_label })
    } else if value == off_label {
        Some(BooleanOptionView { state: false, on_label, off_label })
    } else {
        None
    }
}

impl BooleanOption {
    /// A switch in the given state that is named by the given labels.
    pub fn with_labels(state: bool, on_label: &'static str, off_label: &'static str) -> (option:
        BooleanOption)
        ensures
            option@ == (BooleanOptionView { state, on_label: on_label@, off_label: off_label@ }),
    {
        BooleanOption { state, on_label, off_label }
    }

    /// Reads a value given on the command line for a switch with the given
    /// labels, which have to differ.
    pub fn parse(value: &str, on_label: &'static str, off_label: &'static str) -> (option: Option<
        BooleanOption,
    >)
        requires
            on_label@ != off_label@,
        ensures
            match option {
                Some(option) => parse_spec(value@, on_label@, off_label@) == Some(option@),
                None => parse_spec(value@, on_label@, off_label@) is None,
            },
    {
        if str_eq(value, on_label) {
            Some(Self::with_labels(true, on_label, off_label))
        } else if str_eq(value, off_label) {
            Some(Self::with_labels(false, on_label, off_label))
        } else {
            None
        }
    }

    /// Whether the switch is on.
    pub fn state(&self) -> (state: bool)
        ensures
            state == self@.state,
    {
        self.state
    }

    /// The label that names the state of the switch. This is how the switch
    /// is shown.
    pub fn label(&self) -> (label: &'static str)
        ensures
            label@ == self@.label(),
    {
        if self.state {
            self.on_label
        } else {
            self.off_label
        }
    }
}

impl vstd::std_specs::convert::FromSpecImpl<bool> for BooleanOption {
    open spec fn obeys_from_spec() -> bool {
        true
    }

    closed spec fn from_spec(state: bool) -> BooleanOption {
        BooleanOption { state, on_label: "on", off_label: "off" }
    }
}

impl From<bool> for BooleanOption {
    /// The switch in the given state under the labels "on" and "off".
    fn from(state: bool) -> (option: BooleanOption)
        ensures
            option@ == (BooleanOptionView { state, on_label: "on"@, off_label: "off"@ }),
    {
        BooleanOption { state, on_label: "on", off_label: "off" }
    }
}

/// The hint that follows a question to show which answer an empty line
/// stands for.
pub fn confirmation_hint(default: bool) -> (hint: &'static str)
    ensures
        hint@ == if default {
            "[Y/n]"@
        } else {
            "[y/N]"@
        },
{
    match default {
        true => "[Y/n]",
        false => "[y/N]",
    }
}

/// What an answer says once the white space around it is gone and its
/// letters are in lower case: nothing stands for the default, "y", "ye" and
/// "yes" for yes, "n" and "no" for no, and anything else is no answer.
pub open spec fn classify_answer_spec(answer: Seq<char>, default: bool) -> Option<bool> {
    if answer == ""@ {
        Some(default)
    } else if answer == "y"@ || answer == "ye"@ || answer == "yes"@ {
        Some(true)
    } else if answer == "n"@ || answer == "no"@ {
        Some(false)
    } else {
        None
    }
}

/// What an answer says once the white space around it is gone and its
/// letters are in lower case, or `None` if the question has to be asked
/// again.
pub fn classify_answer(answer: &str, default: bool) -> (said: Option<bool>)
    ensures
        said == classify_answer_spec(answer@, default),
{
    if str_eq(answer, "") {
        Some(default)
    } else if str_eq(answer, "y") || str_eq(answer, "ye") || str_eq(answer, "yes") {
        Some(true)
    } else if str_eq(answer, "n") || str_eq(answer, "no") {
        Some(false)
    } else {
        None
    }
}

/// What a line that the user has entered says to a question of yes or no,
/// or `None` if the question has to be asked again. White space around the
/// answer and the case of its letters do not count.
pub fn parse_confirmation(line: &str, default: bool) -> (said: Option<bool>)
    ensures
        said == classify_answer_spec(ascii_lowercase(trimmed(line@)), default),
{
    let answer = to_ascii_lowercase(trim(line));
    classify_answer(answer.as_str(), default)
}

/// A line that the user has entered, without any white space.
pub fn strip_whitespace(line: &str) -> (text: String)
    ensures
        text@ == joined(whitespace_split(line@), Seq::empty()),
{
    let pieces = split_whitespace(line);
    proof {
        reveal_strlit("");
        assert(""@ =~= Seq::<char>::empty());
    }
    join(&pieces, "")
}

} // verus!
