//! The commands of the wireless protocol and their opcodes.

use vstd::prelude::*;
use vstd::std_specs::convert::TryFromSpecImpl;

verus! {

/// The commands that the camera accepts on its command endpoint.
#[derive(Clone, Copy, Debug, PartialEq, Eq, Structural, Hash)]
pub enum CommandID {
    SetShutter,
    Sleep,
    SetDateTime,
    GetDateTime,
    SetLocalDateTime,
    GetLocalDateTime,
    SetLiveStreamMode,
    APControl,
    HighlightMoment,
    GetHardwareInfo,
    LoadPresetGroup,
    LoadPreset,
    Analytics,
    OpenGoPro,
}

impl CommandID {
    /// The byte that names this command on the wire.
    pub open spec fn spec_opcode(&self) -> u8 {
        match *self {
            CommandID::SetShutter => 0x01,
            CommandID::Sleep => 0x05,
            CommandID::SetDateTime => 0x0D,
            CommandID::GetDateTime => 0x0E,
            CommandID::SetLocalDateTime => 0x0F,
            CommandID::GetLocalDateTime => 0x10,
            CommandID::SetLiveStreamMode => 0x15,
            CommandID::APControl => 0x17,
            CommandID::HighlightMoment => 0x18,
            CommandID::GetHardwareInfo => 0x3C,
            CommandID::LoadPresetGroup => 0x3E,
            CommandID::LoadPreset => 0x40,
            CommandID::Analytics => 0x50,
            CommandID::OpenGoPro => 0x51,
        }
    }

    /// Whether some command has this opcode.
    pub open spec fn is_opcode(value: u8) -> bool {
        exists|command: CommandID| #[trigger] command.spec_opcode() == value
    }

    /// The command with this opcode, where there is one.
    pub open spec fn of_opcode(value: u8) -> Option<CommandID> {
        if CommandID::is_opcode(value) {
            Some(choose|command: CommandID| #[trigger] command.spec_opcode() == value)
        } else {
            None
        }
    }

    #[verifier::when_used_as_spec(spec_opcode)]
    pub fn opcode(&self) -> (value: u8)
        ensures
            value == self.spec_opcode(),
    {
        match self {
            CommandID::SetShutter => 0x01,
            CommandID::Sleep => 0x05,
            CommandID::SetDateTime => 0x0D,
            CommandID::GetDateTime => 0x0E,
            CommandID::SetLocalDateTime => 0x0F,
            CommandID::GetLocalDateTime => 0x10,
            CommandID::SetLiveStreamMode => 0x15,
            CommandID::APControl => 0x17,
            CommandID::HighlightMoment => 0x18,
            CommandID::GetHardwareInfo => 0x3C,
            CommandID::LoadPresetGroup => 0x3E,
            CommandID::LoadPreset => 0x40,
            CommandID::Analytics => 0x50,
            CommandID::OpenGoPro => 0x51,
        }
    }
}

/// No two commands share an opcode.
pub proof fn lemma_opcode_injective(a: CommandID, b: CommandID)
    requires
        a.spec_opcode() == b.spec_opcode(),
    ensures
        a == b,
{
}

/// A command is found again from its opcode.
pub proof fn lemma_of_opcode_inverts(command: CommandID)
    ensures
        CommandID::is_opcode(command.spec_opcode()),
        CommandID::of_opcode(command.spec_opcode()) == Some(command),
{
    let found = choose|other: CommandID| #[trigger] other.spec_opcode() == command.spec_opcode();
    lemma_opcode_injective(found, command);
}

/// What `of_opcode` finds has the opcode that was asked for.
pub proof fn lemma_of_opcode_sound(value: u8)
    ensures
        CommandID::of_opcode(value) matches Some(command) ==> command.spec_opcode() == value,
        CommandID::of_opcode(value) is None ==> forall|command: CommandID|
            #[trigger] command.spec_opcode() != value,
{
}

impl TryFrom<u8> for CommandID {
    type Error = ();

    fn try_from(value: u8) -> (found: Result<Self, Self::Error>) {
        let found = if value == 0x01 {
            Ok(CommandID::SetShutter)
        } else if value == 0x05 {
            Ok(CommandID::Sleep)
        } else if value == 0x0D {
            Ok(CommandID::SetDateTime)
        } else if value == 0x0E {
            Ok(CommandID::GetDateTime)
        } else if value == 0x0F {
            Ok(CommandID::SetLocalDateTime)
        } else if value == 0x10 {
            Ok(CommandID::GetLocalDateTime)
        } else if value == 0x15 {
            Ok(CommandID::SetLiveStreamMode)
        } else if value == 0x17 {
            Ok(CommandID::APControl)
        } else if value == 0x18 {
            Ok(CommandID::HighlightMoment)
        } else if value == 0x3C {
            Ok(CommandID::GetHardwareInfo)
        } else if value == 0x3E {
            Ok(CommandID::LoadPresetGroup)
        } else if value == 0x40 {
            Ok(CommandID::LoadPreset)
        } else if value == 0x50 {
            Ok(CommandID::Analytics)
        } else if value == 0x51 {
            Ok(CommandID::OpenGoPro)
        } else {
            Err(())
        };
        proof {
            match found {
                Ok(command) => lemma_of_opcode_inverts(command),
                Err(_) => lemma_of_opcode_sound(value),
            }
        }
        found
    }
}

impl TryFromSpecImpl<u8> for CommandID {
    open spec fn obeys_try_from_spec() -> bool {
        true
    }

    open spec fn try_from_spec(value: u8) -> Result<Self, Self::Error> {
        match CommandID::of_opcode(value) {
            Some(command) => Ok(command),
            None => Err(()),
        }
    }
}

} // verus!
