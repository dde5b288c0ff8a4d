use vstd::prelude::*;

verus! {

/// What the user interface asks the OSC side to send to VRChat.
#[derive(Debug, PartialEq, Eq)]
pub enum OSCCommand {
    /// Put `contents` into the chatbox; `immediately` skips the in-game keyboard.
    SendChat { contents: String, immediately: bool },
    /// Turn the typing indicator on or off.
    SetTyping { active: bool },
}

/// One argument of an OSC message that this bridge sends.
#[derive(Debug, PartialEq, Eq)]
pub enum OscArg {
    Str(String),
    Bool(bool),
}

/// An OSC message as plain values: the address pattern and its arguments in order.
#[derive(Debug, PartialEq, Eq)]
pub struct OscMessage {
    pub addr: String,
    pub args: Vec<OscArg>,
}

/// Address of VRChat's chatbox text input.
pub const CHATBOX_INPUT_ADDR: &'static str = "/chatbox/input";

/// Address of VRChat's chatbox typing indicator.
pub const CHATBOX_TYPING_ADDR: &'static str = "/chatbox/typing";

/// The OSCQuery service name pattern that every message is sent to.
pub const VRCHAT_CLIENT_SERVICE: &'static str = "VRChat-Client-*";

/// The message that carries `cmd` to VRChat.
pub open spec fn message_matches(cmd: OSCCommand, m: OscMessage) -> bool {
    match cmd {
        OSCCommand::SendChat { contents, immediately } => {
            &&& m.addr@ == CHATBOX_INPUT_ADDR@
            &&& m.args@ == seq![OscArg::Str(contents), OscArg::Bool(immediately)]
        },
        OSCCommand::SetTyping { active } => {
            &&& m.addr@ == CHATBOX_TYPING_ADDR@
            &&& m.args@ == seq![OscArg::Bool(active)]
        },
    }
}

/// Forwards the user interface's commands to VRChat.
pub struct OSCManager;

impl OSCManager {
    /// Builds the OSC message for one command: chat text goes to the chatbox input
    /// with the text and the `immediately` flag, the typing state to the typing address.
    pub fn message_for(cmd: OSCCommand) -> (m: OscMessage)
        ensures
            message_matches(cmd, m),
            cmd matches OSCCommand::SendChat { contents, immediately } ==> {
                &&& m.addr@ == CHATBOX_INPUT_ADDR@
                &&& m.args@.len() == 2
                &&& m.args@[0] matches OscArg::Str(text) && text@ == contents@
                &&& m.args@[1] == OscArg::Bool(immediately)
            },
            cmd matches OSCCommand::SetTyping { active } ==> {
                &&& m.addr@ == CHATBOX_TYPING_ADDR@
                &&& m.args@.len() == 1
                &&& m.args@[0] == OscArg::Bool(active)
            },
    {
        match cmd {
            OSCCommand::SendChat { contents, immediately } => {
                let ghost text = contents;
                let mut args: Vec<OscArg> = Vec::new();
                args.push(OscArg::Str(contents));
                args.push(OscArg::Bool(immediately));
                assert(args@ =~= seq![OscArg::Str(text), OscArg::Bool(immediately)]);
                OscMessage { addr: CHATBOX_INPUT_ADDR.to_string(), args }
            },
            OSCCommand::SetTyping { active } => {
                let mut args: Vec<OscArg> = Vec::new();
                args.push(OscArg::Bool(active));
                assert(args@ =~= seq![OscArg::Bool(active)]);
                OscMessage { addr: CHATBOX_TYPING_ADDR.to_string(), args }
            },
        }
    }
}

/// The chat text reaches VRChat whole: the message for `SendChat` goes to the chatbox
/// input and carries exactly the characters of the typed text, however long, followed by
/// the `immediately` flag and nothing else; the message for `SetTyping` carries only the
/// typing state.
pub proof fn lemma_chat_text_carried_whole(cmd: OSCCommand, m: OscMessage)
    requires
        message_matches(cmd, m),
    ensures
        cmd matches OSCCommand::SendChat { contents, immediately } ==> {
            &&& m.addr@ == CHATBOX_INPUT_ADDR@
            &&& m.args@.len() == 2
            &&& m.args@[0] matches OscArg::Str(text) && text@ == contents@ && text@.len()
                == contents@.len()
            &&& m.args@[1] == OscArg::Bool(immediately)
        },
        cmd matches OSCCommand::SetTyping { active } ==> {
            &&& m.addr@ == CHATBOX_TYPING_ADDR@
            &&& m.args@ == seq![OscArg::Bool(active)]
        },
{
    match cmd {
        OSCCommand::SendChat { contents, immediately } => {
            assert(m.args@[0] == OscArg::Str(contents));
        },
        OSCCommand::SetTyping { active } => {},
    }
}

} // verus!
