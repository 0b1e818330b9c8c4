//! Remotes, their buttons and what can be done to a button, with the numeric
//! codes that the bridge uses for them on the wire.

use vstd::prelude::*;

use crate::caseta::error::DecodeError;

verus! {

/// The integration identifier that the bridge assigned to a physical remote.
/// It is a correlation key and is never interpreted.
pub type RemoteId = u8;

/// A button of a remote.
#[derive(Debug, Hash, Eq, PartialEq, Copy, Clone, Structural)]
pub enum ButtonId {
    PowerOn,
    Up,
    Favorite,
    Down,
    PowerOff,
}

/// What was done to a button.
#[derive(Debug, Hash, Eq, PartialEq, Copy, Clone, Structural)]
pub enum ButtonAction {
    Press,
    Release,
}

impl ButtonId {
    /// The component code that the bridge sends for this button.
    pub open spec fn spec_code(self) -> u8 {
        match self {
            ButtonId::PowerOn => 2,
            ButtonId::Up => 5,
            ButtonId::Favorite => 3,
            ButtonId::Down => 6,
            ButtonId::PowerOff => 4,
        }
    }

    /// The button that a component code stands for, if it stands for one.
    /// The codes are matched by exact value.
    pub open spec fn spec_from_code(id: u8) -> Option<ButtonId> {
        if id == 2 {
            Some(ButtonId::PowerOn)
        } else if id == 5 {
            Some(ButtonId::Up)
        } else if id == 3 {
            Some(ButtonId::Favorite)
        } else if id == 6 {
            Some(ButtonId::Down)
        } else if id == 4 {
            Some(ButtonId::PowerOff)
        } else {
            None
        }
    }

    /// The name of the button, as it is shown to people.
    pub open spec fn spec_name(self) -> Seq<char> {
        match self {
            ButtonId::PowerOn => "PowerOn"@,
            ButtonId::Up => "Up"@,
            ButtonId::Favorite => "Favorite"@,
            ButtonId::Down => "Down"@,
            ButtonId::PowerOff => "PowerOff"@,
        }
    }

    /// The component code of this button.
    pub fn code(self) -> (code: u8)
        ensures
            code == self.spec_code(),
    {
        match self {
            ButtonId::PowerOn => 2,
            ButtonId::Up => 5,
            ButtonId::Favorite => 3,
            ButtonId::Down => 6,
            ButtonId::PowerOff => 4,
        }
    }

    /// The name of the button.
    pub fn name(self) -> (name: &'static str)
        ensures
            name@ == self.spec_name(),
    {
        match self {
            ButtonId::PowerOn => "PowerOn",
            ButtonId::Up => "Up",
            ButtonId::Favorite => "Favorite",
            ButtonId::Down => "Down",
            ButtonId::PowerOff => "PowerOff",
        }
    }
}

impl vstd::std_specs::convert::TryFromSpecImpl<u8> for ButtonId {
    open spec fn obeys_try_from_spec() -> bool {
        true
    }

    open spec fn try_from_spec(id: u8) -> Result<ButtonId, DecodeError> {
        match ButtonId::spec_from_code(id) {
            Some(button) => Ok(button),
            None => Err(DecodeError::InvalidButtonId(id)),
        }
    }
}

impl TryFrom<u8> for ButtonId {
    type Error = DecodeError;

    /// Decodes a component code. A code of the closed set gives its button;
    /// any other code is refused, with the code in the error.
    fn try_from(id: u8) -> (decoded: Result<ButtonId, DecodeError>)
        ensures
            decoded == match ButtonId::spec_from_code(id) {
                Some(button) => Ok::<ButtonId, DecodeError>(button),
                None => Err(DecodeError::InvalidButtonId(id)),
            },
    {
        match id {
            2 => Ok(ButtonId::PowerOn),
            5 => Ok(ButtonId::Up),
            3 => Ok(ButtonId::Favorite),
            6 => Ok(ButtonId::Down),
            4 => Ok(ButtonId::PowerOff),
            _ => Err(DecodeError::InvalidButtonId(id)),
        }
    }
}

impl ButtonAction {
    /// The action code that the bridge sends for this action.
    pub open spec fn spec_code(self) -> u8 {
        match self {
            ButtonAction::Press => 3,
            ButtonAction::Release => 4,
        }
    }

    /// The action that an action code stands for, if it stands for one.
    pub open spec fn spec_from_code(id: u8) -> Option<ButtonAction> {
        if id == 3 {
            Some(ButtonAction::Press)
        } else if id == 4 {
            Some(ButtonAction::Release)
        } else {
            None
        }
    }

    /// The name of the action, as it is shown to people.
    pub open spec fn spec_name(self) -> Seq<char> {
        match self {
            ButtonAction::Press => "Press"@,
            ButtonAction::Release => "Release"@,
        }
    }

    /// The action code of this action.
    pub fn code(self) -> (code: u8)
        ensures
            code == self.spec_code(),
    {
        match self {
            ButtonAction::Press => 3,
            ButtonAction::Release => 4,
        }
    }

    /// The name of the action.
    pub fn name(self) -> (name: &'static str)
        ensures
            name@ == self.spec_name(),
    {
        match self {
            ButtonAction::Press => "Press",
            ButtonAction::Release => "Release",
        }
    }
}

impl vstd::std_specs::convert::TryFromSpecImpl<u8> for ButtonAction {
    open spec fn obeys_try_from_spec() -> bool {
        true
    }

    open spec fn try_from_spec(id: u8) -> Result<ButtonAction, DecodeError> {
        match ButtonAction::spec_from_code(id) {
            Some(action) => Ok(action),
            None => Err(DecodeError::InvalidButtonAction(id)),
        }
    }
}

impl TryFrom<u8> for ButtonAction {
    type Error = DecodeError;

    /// Decodes an action code. A code of the closed set gives its action;
    /// any other code is refused, with the code in the error.
    fn try_from(id: u8) -> (decoded: Result<ButtonAction, DecodeError>)
        ensures
            decoded == match ButtonAction::spec_from_code(id) {
                Some(action) => Ok::<ButtonAction, DecodeError>(action),
                None => Err(DecodeError::InvalidButtonAction(id)),
            },
    {
        match id {
            3 => Ok(ButtonAction::Press),
            4 => Ok(ButtonAction::Release),
            _ => Err(DecodeError::InvalidButtonAction(id)),
        }
    }
}

/// Every button is found again from its component code.
pub proof fn lemma_button_code_round_trip(button: ButtonId)
    ensures
        ButtonId::spec_from_code(button.spec_code()) == Some(button),
{
}

/// A component code stands for a button exactly when it is one of 2, 3, 4, 5
/// and 6, and the button it stands for has that code.
pub proof fn lemma_button_code_closed_set(id: u8)
    ensures
        ButtonId::spec_from_code(id) is Some <==> 2 <= id <= 6,
        ButtonId::spec_from_code(id) matches Some(button) ==> button.spec_code() == id,
{
}

/// Every action is found again from its action code.
pub proof fn lemma_action_code_round_trip(action: ButtonAction)
    ensures
        ButtonAction::spec_from_code(action.spec_code()) == Some(action),
{
}

/// An action code stands for an action exactly when it is 3 or 4, and the
/// action it stands for has that code.
pub proof fn lemma_action_code_closed_set(id: u8)
    ensures
        ButtonAction::spec_from_code(id) is Some <==> (id == 3 || id == 4),
        ButtonAction::spec_from_code(id) matches Some(action) ==> action.spec_code() == id,
{
}

} // verus!
