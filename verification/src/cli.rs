//! The words of the `nk` command line: the commands of the client and the
//! server, and the output formats.
use vstd::prelude::*;

verus! {

/// A command of the client.
#[allow(non_camel_case_types)]
#[derive(Debug, Clone, Copy, PartialEq, Eq, Structural)]
pub enum CommandClient {
    SendPk,
    SendMessage,
    GetPk_crypto,
}

/// A command of the server.
#[allow(non_camel_case_types)]
#[derive(Debug, Clone, Copy, PartialEq, Eq, Structural)]
pub enum CommandServer {
    GetPk,
    GetMessage,
    SendPk_crypto,
}

/// An output format.
#[derive(Debug, Clone, Copy, PartialEq, Eq, Structural)]
pub enum Output {
    Text,
    JSON,
}

/// The error with which a command word is refused.
#[derive(Debug, Clone, Copy, PartialEq, Eq, Structural)]
pub struct OutputParseErr;

/// The error with which an output format word is refused.
#[derive(Debug, Clone, Copy, PartialEq, Eq, Structural)]
pub struct CommandParseErr;

/// The client command that a word names.
pub open spec fn client_command_of(word: Seq<char>) -> Option<CommandClient> {
    if word == "sendpk"@ {
        Some(CommandClient::SendPk)
    } else if word == "sendmessage"@ {
        Some(CommandClient::SendMessage)
    } else if word == "getpk_crypto"@ {
        Some(CommandClient::GetPk_crypto)
    } else {
        None
    }
}

/// The server command that a word names.
pub open spec fn server_command_of(word: Seq<char>) -> Option<CommandServer> {
    if word == "getpk"@ {
        Some(CommandServer::GetPk)
    } else if word == "getmessage"@ {
        Some(CommandServer::GetMessage)
    } else if word == "sendpk_crypto"@ {
        Some(CommandServer::SendPk_crypto)
    } else {
        None
    }
}

/// The output format that a word names.
pub open spec fn output_of(word: Seq<char>) -> Option<Output> {
    if word == "json"@ {
        Some(Output::JSON)
    } else if word == "text"@ {
        Some(Output::Text)
    } else {
        None
    }
}

impl CommandClient {
    /// Reads a client command from its word, written in lower case.
    pub fn from_name(word: &str) -> (res: Result<CommandClient, OutputParseErr>)
        ensures
            match client_command_of(word@) {
                Some(c) => res == Ok::<CommandClient, OutputParseErr>(c),
                None => res == Err::<CommandClient, OutputParseErr>(OutputParseErr),
            },
    {
        let w = word.to_owned();
        if w == "sendpk".to_owned() {
            Ok(CommandClient::SendPk)
        } else if w == "sendmessage".to_owned() {
            Ok(CommandClient::SendMessage)
        } else if w == "getpk_crypto".to_owned() {
            Ok(CommandClient::GetPk_crypto)
        } else {
            Err(OutputParseErr)
        }
    }
}

impl CommandServer {
    /// Reads a server command from its word, written in lower case.
    pub fn from_name(word: &str) -> (res: Result<CommandServer, OutputParseErr>)
        ensures
            match server_command_of(word@) {
                Some(c) => res == Ok::<CommandServer, OutputParseErr>(c),
                None => res == Err::<CommandServer, OutputParseErr>(OutputParseErr),
            },
    {
        let w = word.to_owned();
        if w == "getpk".to_owned() {
            Ok(CommandServer::GetPk)
        } else if w == "getmessage".to_owned() {
            Ok(CommandServer::GetMessage)
        } else if w == "sendpk_crypto".to_owned() {
            Ok(CommandServer::SendPk_crypto)
        } else {
            Err(OutputParseErr)
        }
    }
}

impl Output {
    /// Reads an output format from its word, written in lower case.
    pub fn from_name(word: &str) -> (res: Result<Output, CommandParseErr>)
        ensures
            match output_of(word@) {
                Some(o) => res == Ok::<Output, CommandParseErr>(o),
                None => res == Err::<Output, CommandParseErr>(CommandParseErr),
            },
    {
        let w = word.to_owned();
        if w == "json".to_owned() {
            Ok(Output::JSON)
        } else if w == "text".to_owned() {
            Ok(Output::Text)
        } else {
            Err(CommandParseErr)
        }
    }
}

} // verus!
