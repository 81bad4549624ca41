//! Commands that are run by name.

use vstd::hash_map::StringHashMap;
use vstd::prelude::*;

verus! {

/// Runs a command on the payload that came with it.
pub trait CommandHandler {
    /// Whether the command may be run on a payload: on every one, unless a handler says
    /// otherwise.
    open spec fn takes(&self, payload: Seq<char>) -> bool {
        true
    }

    fn execute(&self, payload: &str)
        requires
            self.takes(payload@),
    ;
}

/// A command that works on data of its own kind.
pub struct Command<F> {
    pub delegate: F,
}

impl<F> Command<F> {
    /// Hands the data of a payload to the delegate. A payload that could not be
    /// read is not; the line to report comes back.
    pub fn execute<T>(&self, parsed: Result<T, String>) -> (report: Option<String>) where F: Fn(T)
        requires
            parsed matches Ok(data) ==> call_requires(self.delegate, (data,)),
        ensures
            match parsed {
                Ok(data) => call_ensures(self.delegate, (data,), ()) && report is None,
                Err(error) => report matches Some(line) && line@
                    == "Failed to deserialize payload: "@ + error@,
            },
    {
        match parsed {
            Ok(data) => {
                (self.delegate)(data);
                None
            },
            Err(error) => Some(
                String::from_str("Failed to deserialize payload: ").concat(error.as_str()),
            ),
        }
    }
}

/// The commands of a device, by path.
#[verifier::reject_recursive_types(H)]
pub struct CommandManager<H> {
    commands: StringHashMap<H>,
}

impl<H> View for CommandManager<H> {
    type V = Map<Seq<char>, H>;

    closed spec fn view(&self) -> Map<Seq<char>, H> {
        self.commands@
    }
}

impl<H> CommandManager<H> {
    /// No commands.
    pub fn new() -> (manager: Self)
        ensures
            manager@ == Map::<Seq<char>, H>::empty(),
    {
        CommandManager { commands: StringHashMap::new() }
    }

    /// Registers a command under a path, in place of the one that was there.
    pub fn register(&mut self, path: &str, command: H)
        ensures
            final(self)@ == old(self)@.insert(path@, command),
    {
        self.commands.insert(String::from_str(path), command);
    }

    /// Runs the command that is registered under a path, on the payload. No other
    /// command is run, nor is this one on anything else: only it has to take the payload.
    /// A path without a command runs nothing; the line to report comes back.
    pub fn handle(&self, command: &str, payload: &str) -> (handled: Result<(), String>) where
        H: CommandHandler,

        requires
            self@.contains_key(command@) ==> self@[command@].takes(payload@),
        ensures
            handled is Ok <==> self@.contains_key(command@),
            handled is Ok ==> call_ensures(H::execute, (&self@[command@], payload), ()),
            handled matches Err(line) ==> line@ == "Unregistered registered: "@ + command@,
    {
        match self.commands.get(command) {
            Some(handler) => {
                handler.execute(payload);
                Ok(())
            },
            None => Err(String::from_str("Unregistered registered: ").concat(command)),
        }
    }
}

/// After a command was registered under a path, that command is the one under the
/// path, whichever was there before, and every other path keeps what it had.
pub proof fn law_last_registration_counts<H>(
    before: CommandManager<H>,
    after: CommandManager<H>,
    path: Seq<char>,
    command: H,
)
    requires
        after@ == before@.insert(path, command),
    ensures
        after@.contains_key(path),
        after@[path] == command,
        forall|other: Seq<char>|
            other != path ==> (#[trigger] after@.contains_key(other) <==> before@.contains_key(
                other,
            )) && (before@.contains_key(other) ==> after@[other] == before@[other]),
{
}

/// Data that was read is handed to the delegate as it is, and nothing is reported; what could
/// not be read is reported with its whole error.
pub proof fn law_data_is_handed_on<T, F: Fn(T)>(
    command: Command<F>,
    parsed: Result<T, String>,
    report: Option<String>,
)
    requires
        call_ensures(Command::<F>::execute::<T>, (&command, parsed), report),
    ensures
        parsed matches Ok(data) ==> report is None && call_ensures(command.delegate, (data,), ()),
        parsed matches Err(error) ==> (report matches Some(line) && line@
            == "Failed to deserialize payload: "@ + error@),
{
}

/// A path is handled exactly if a command is registered under it, and then by that command on
/// the whole payload; otherwise the whole path is reported.
pub proof fn law_commands_are_run_by_path<H: CommandHandler>(
    manager: CommandManager<H>,
    path: &str,
    payload: &str,
    handled: Result<(), String>,
)
    requires
        call_ensures(CommandManager::<H>::handle, (&manager, path, payload), handled),
    ensures
        handled is Ok <==> manager@.contains_key(path@),
        handled is Ok ==> call_ensures(H::execute, (&manager@[path@], payload), ()),
        handled matches Err(line) ==> line@ == "Unregistered registered: "@ + path@,
{
}

} // verus!
