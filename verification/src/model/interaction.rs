//! Interactions with applications.

use vstd::prelude::*;

verus! {

/// The kinds of interaction, in the order of their numbers on the wire,
/// which start at 1.
#[derive(Debug, Clone, Copy, PartialEq, Eq, Hash, Structural)]
pub enum InteractionType {
    Ping,
    ApplicationCommand,
    MessageComponent,
    ApplicationCommandAutocomplete,
    ModalSubmit,
}

impl InteractionType {
    /// The number that stands for the kind on the wire.
    pub open spec fn spec_code(self) -> u8 {
        match self {
            InteractionType::Ping => 1,
            InteractionType::ApplicationCommand => 2,
            InteractionType::MessageComponent => 3,
            InteractionType::ApplicationCommandAutocomplete => 4,
            InteractionType::ModalSubmit => 5,
        }
    }

    /// The number that stands for the kind on the wire.
    pub fn code(self) -> (c: u8)
        ensures
            c == self.spec_code(),
    {
        match self {
            InteractionType::Ping => 1,
            InteractionType::ApplicationCommand => 2,
            InteractionType::MessageComponent => 3,
            InteractionType::ApplicationCommandAutocomplete => 4,
            InteractionType::ModalSubmit => 5,
        }
    }

    /// The kind that a number stands for, if it stands for one.
    pub fn from_code(c: u8) -> (k: Option<InteractionType>)
        ensures
            1 <= c <= 5 <==> k is Some,
            k matches Some(kind) ==> kind.spec_code() == c,
    {
        if c == 1 {
            Some(InteractionType::Ping)
        } else if c == 2 {
            Some(InteractionType::ApplicationCommand)
        } else if c == 3 {
            Some(InteractionType::MessageComponent)
        } else if c == 4 {
            Some(InteractionType::ApplicationCommandAutocomplete)
        } else if c == 5 {
            Some(InteractionType::ModalSubmit)
        } else {
            None
        }
    }
}

/// An interaction.
#[derive(Debug, Clone)]
pub struct Interaction {
    pub id: String,
    pub kind: InteractionType,
}

} // verus!
