//! Messages of one paragraph or of several.

use vstd::prelude::*;
use vstd::std_specs::convert::FromSpecImpl;
use vstd::string::*;

verus! {

/// One message, or several that are shown as paragraphs of one block.
#[derive(Clone, Debug, PartialEq, Eq)]
pub enum Messages {
    Single(String),
    Multiple(Vec<String>),
}

impl Messages {
    /// The paragraphs of the message, in order.
    pub open spec fn segments(&self) -> Seq<Seq<char>> {
        match self {
            Messages::Single(message) => seq![message@],
            Messages::Multiple(messages) => messages.deep_view(),
        }
    }

    /// The number of paragraphs.
    pub fn len(&self) -> (n: usize)
        ensures
            n == self.segments().len(),
    {
        match self {
            Messages::Single(_) => 1,
            Messages::Multiple(messages) => messages.len(),
        }
    }

    /// The paragraph at `index`.
    pub fn segment(&self, index: usize) -> (message: &String)
        requires
            index < self.segments().len(),
        ensures
            message@ == self.segments()[index as int],
    {
        match self {
            Messages::Single(message) => message,
            Messages::Multiple(messages) => &messages[index],
        }
    }
}

impl From<String> for Messages {
    fn from(s: String) -> (messages: Messages)
        ensures
            messages == Messages::Single(s),
    {
        Messages::Single(s)
    }
}

impl FromSpecImpl<String> for Messages {
    open spec fn obeys_from_spec() -> bool {
        true
    }

    open spec fn from_spec(s: String) -> Messages {
        Messages::Single(s)
    }
}

/// The message made from a borrowed text owns a copy of it. No value names
/// that copy before it is made, so the contract stands on `from` itself.
impl From<&str> for Messages {
    fn from(s: &str) -> (messages: Messages)
        ensures
            messages is Single,
            messages.segments() == seq![s@],
    {
        Messages::Single(String::from_str(s))
    }
}

impl FromSpecImpl<&str> for Messages {
    open spec fn obeys_from_spec() -> bool {
        false
    }

    open spec fn from_spec(s: &str) -> Messages {
        arbitrary()
    }
}

impl From<Vec<String>> for Messages {
    fn from(vec: Vec<String>) -> (messages: Messages)
        ensures
            messages == Messages::Multiple(vec),
    {
        Messages::Multiple(vec)
    }
}

impl FromSpecImpl<Vec<String>> for Messages {
    open spec fn obeys_from_spec() -> bool {
        true
    }

    open spec fn from_spec(vec: Vec<String>) -> Messages {
        Messages::Multiple(vec)
    }
}

/// The message made from borrowed texts owns a copy of each. No value
/// names these copies before they are made, so the contract stands on
/// `from` itself.
impl From<Vec<&str>> for Messages {
    fn from(vec: Vec<&str>) -> (messages: Messages)
        ensures
            messages is Multiple,
            messages.segments() == vec.deep_view(),
    {
        let mut owned: Vec<String> = Vec::new();
        let mut i: usize = 0;
        while i < vec.len()
            invariant
                i <= vec.len(),
                owned.len() == i,
                forall|j: int| 0 <= j < i ==> owned[j]@ == vec[j]@,
            decreases vec.len() - i,
        {
            owned.push(String::from_str(vec[i]));
            i = i + 1;
        }
        assert(owned.deep_view() =~= vec.deep_view());
        Messages::Multiple(owned)
    }
}

impl FromSpecImpl<Vec<&str>> for Messages {
    open spec fn obeys_from_spec() -> bool {
        false
    }

    open spec fn from_spec(vec: Vec<&str>) -> Messages {
        arbitrary()
    }
}

} // verus!
