use vstd::prelude::*;

verus! {

/// How the controller hands out addresses of one family.
#[derive(Debug, PartialEq, Eq)]
pub enum AssignMode {
    /// The controller assigns from the pools; `zt` on the wire.
    Zt,
    /// No address of this family is assigned; `none` on the wire.
    Disabled,
    /// A mode this library has no name for, kept as the controller wrote it.
    Other(String),
}

impl AssignMode {
    /// The word that stands for this mode on the wire.
    pub open spec fn spec_wire_name(&self) -> Seq<char> {
        match *self {
            AssignMode::Zt => "zt"@,
            AssignMode::Disabled => "none"@,
            AssignMode::Other(word) => word@,
        }
    }

    /// The mode that a word of the wire stands for.
    pub open spec fn of_wire_name(word: String) -> AssignMode {
        if word@ == "zt"@ {
            AssignMode::Zt
        } else if word@ == "none"@ {
            AssignMode::Disabled
        } else {
            AssignMode::Other(word)
        }
    }

    /// The word that stands for this mode on the wire.
    pub fn wire_name(&self) -> (word: String)
        ensures
            word@ == self.spec_wire_name(),
    {
        match self {
            AssignMode::Zt => "zt".to_owned(),
            AssignMode::Disabled => "none".to_owned(),
            AssignMode::Other(word) => word.clone(),
        }
    }

    /// Reads a mode from its word on the wire. A word that is neither `zt`
    /// nor `none` is kept as it is, so that writing the mode out again gives
    /// the word back.
    pub fn from_wire_name(word: String) -> (mode: AssignMode)
        ensures
            mode == AssignMode::of_wire_name(word),
            mode.spec_wire_name() == word@,
    {
        let zt: String = "zt".to_owned();
        let none: String = "none".to_owned();
        if word == zt {
            AssignMode::Zt
        } else if word == none {
            AssignMode::Disabled
        } else {
            AssignMode::Other(word)
        }
    }
}

} // verus!
