//! The console commands that can be sent to a running server.
use crate::text::{join, texts};
use crate::version::{decimal, push_decimal};
use vstd::prelude::*;

verus! {

/// A console command of a server.
#[derive(Debug)]
pub enum Command {
    /// A raw command: `/` and its arguments joined by spaces.
    Raw(Vec<String>),
    /// A chat message.
    Say(String),
    /// Saving the map under a name: `/save <name>`.
    Save(String),
    /// Quitting: `/quit`.
    Quit,
}

/// Why a server shuts down gracefully.
#[derive(Clone, Copy, Debug, PartialEq, Eq, Structural)]
pub enum ShutdownReason {
    /// The server shuts down.
    Shutdown,
    /// The server restarts.
    Restart,
}

/// The line of console input for a command, ending in a newline.
pub open spec fn command_line(c: Command) -> Seq<char> {
    let body = match c {
        Command::Raw(arguments) => seq!['/'] + join(texts(arguments@), seq![' ']),
        Command::Say(message) => message@,
        Command::Save(name) => "/save "@ + name@,
        Command::Quit => "/quit"@,
    };
    body.push('\n')
}

/// The chat message that warns the players of a graceful shutdown after a timeout.
pub open spec fn shutdown_notice(reason: ShutdownReason, timeout_secs: u64) -> Seq<char> {
    "The server will "@ + match reason {
        ShutdownReason::Shutdown => "shut down"@,
        ShutdownReason::Restart => "restart"@,
    } + " in "@ + decimal(timeout_secs as nat) + " seconds!"@
}

/// A message is sent as it is, saving the map under a name is `/save` and the name, quitting is
/// `/quit`, and a raw command is `/` and its arguments; each line ends in a newline.
pub proof fn law_command_lines(name: String, message: String)
    ensures
        command_line(Command::Quit) == seq!['/', 'q', 'u', 'i', 't', '\n'],
        command_line(Command::Save(name)) == seq!['/', 's', 'a', 'v', 'e', ' '] + name@ + seq!['\n'],
        command_line(Command::Say(message)) == message@ + seq!['\n'],
{
    reveal_strlit("/quit");
    reveal_strlit("/save ");
    assert(command_line(Command::Quit) =~= seq!['/', 'q', 'u', 'i', 't', '\n']);
    assert(command_line(Command::Save(name)) =~= seq!['/', 's', 'a', 'v', 'e', ' '] + name@ + seq!['\n']);
    assert(command_line(Command::Say(message)) =~= message@ + seq!['\n']);
}

impl Command {
    /// The line of console input for this command: the command's text and a newline.
    pub fn get_command_string(&self) -> (r: String)
        ensures
            r@ == command_line(*self),
    {
        let mut out = String::new();
        match self {
            Command::Raw(arguments) => {
                out.append("/");
                proof {
                    reveal_strlit("/");
                    assert(texts(arguments@).take(0) =~= Seq::<Seq<char>>::empty());
                    assert(out@ =~= seq!['/'] + join(texts(arguments@).take(0), seq![' ']));
                }
                let mut j: usize = 0;
                while j < arguments.len()
                    invariant
                        j <= arguments.len(),
                        out@ == seq!['/'] + join(texts(arguments@).take(j as int), seq![' ']),
                    decreases arguments.len() - j,
                {
                    let ghost before = texts(arguments@).take(j as int);
                    let ghost prev = out@;
                    if j > 0 {
                        out.append(" ");
                    }
                    out.append(arguments[j].as_str());
                    proof {
                        reveal_strlit(" ");
                        assert(texts(arguments@).take(j + 1) =~= before.push(arguments@[j as int]@));
                        if j > 0 {
                            crate::text::lemma_join_push(before, seq![' '], arguments@[j as int]@);
                            assert(out@ =~= prev + seq![' '] + arguments@[j as int]@);
                        } else {
                            assert(join(before.push(arguments@[j as int]@), seq![' '])
                                =~= arguments@[j as int]@);
                        }
                    }
                    j = j + 1;
                }
                assert(texts(arguments@).take(arguments.len() as int) =~= texts(arguments@));
            },
            Command::Say(message) => {
                out.append(message.as_str());
            },
            Command::Save(name) => {
                out.append("/save ");
                out.append(name.as_str());
            },
            Command::Quit => {
                out.append("/quit");
            },
        }
        let ghost body = out@;
        out.append("\n");
        proof {
            reveal_strlit("/");
            reveal_strlit("\n");
            assert(out@ =~= body.push('\n'));
        }
        out
    }

    /// The chat message that warns the players of a graceful shutdown: after `timeout_override`
    /// seconds when given, else after `timeout_secs`.
    pub fn shutdown_notice(reason: ShutdownReason, timeout_override: Option<u64>, timeout_secs: u64) -> (r:
        Command)
        ensures
            r matches Command::Say(m) && m@ == shutdown_notice(
                reason,
                match timeout_override {
                    Some(t) => t,
                    None => timeout_secs,
                },
            ),
    {
        let secs = match timeout_override {
            Some(t) => t,
            None => timeout_secs,
        };
        let mut out = String::new();
        out.append("The server will ");
        match reason {
            ShutdownReason::Shutdown => out.append("shut down"),
            ShutdownReason::Restart => out.append("restart"),
        }
        out.append(" in ");
        push_decimal(&mut out, secs);
        out.append(" seconds!");
        proof {
            assert(out@ =~= shutdown_notice(reason, secs));
        }
        Command::Say(out)
    }
}

} // verus!
