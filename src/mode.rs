use vstd::prelude::*;

verus! {

/// What an invocation does.
#[derive(Clone, Copy, Debug, PartialEq, Eq, Structural)]
pub enum Mode {
    Encrypt,
    Decrypt,
}

/// Why no mode could be chosen.
#[derive(Clone, Copy, Debug, PartialEq, Eq, Structural)]
pub enum ModeError {
    /// Both the encrypt and the decrypt flag were given.
    Both,
    /// Neither flag was given.
    Neither,
}

impl ModeError {
    /// The message reported for this error.
    pub fn message(&self) -> (r: String)
        ensures
            *self == ModeError::Both ==> r@ == "Option 'e' and option 'd' are present. Select one."@,
            *self == ModeError::Neither ==> r@ == "Neither option 'e' nor option 'd' is present. Select one."@,
    {
        match self {
            ModeError::Both => "Option 'e' and option 'd' are present. Select one.".to_owned(),
            ModeError::Neither => "Neither option 'e' nor option 'd' is present. Select one.".to_owned(),
        }
    }
}

/// Chooses the mode from the two flags, which exclude each other.
pub fn select_mode(encrypt: bool, decrypt: bool) -> (r: Result<Mode, ModeError>)
    ensures
        encrypt && decrypt ==> r == Err::<Mode, ModeError>(ModeError::Both),
        !encrypt && !decrypt ==> r == Err::<Mode, ModeError>(ModeError::Neither),
        encrypt && !decrypt ==> r == Ok::<Mode, ModeError>(Mode::Encrypt),
        !encrypt && decrypt ==> r == Ok::<Mode, ModeError>(Mode::Decrypt),
{
    if encrypt && decrypt {
        Err(ModeError::Both)
    } else if encrypt {
        Ok(Mode::Encrypt)
    } else if decrypt {
        Ok(Mode::Decrypt)
    } else {
        Err(ModeError::Neither)
    }
}

} // verus!
