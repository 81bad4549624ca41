//! The console light: it flickers for every byte that is typed.

use vstd::prelude::*;

verus! {

/// What the console task asks for.
#[derive(Clone, Copy, PartialEq, Eq, Structural, Debug)]
pub enum ConsoleCommand {
    /// Drive the light's pin low.
    SetLow,
    /// Drive the light's pin high.
    SetHigh,
    /// Wait.
    Sleep { millis: u64 },
}

/// What is done after an attempt to read a byte, in order: the light goes off and
/// on again if there was one, and the next attempt waits if there was none.
pub open spec fn console_commands(received: bool) -> Seq<ConsoleCommand> {
    if received {
        seq![
            ConsoleCommand::SetLow,
            ConsoleCommand::Sleep { millis: 250 },
            ConsoleCommand::SetHigh,
            ConsoleCommand::Sleep { millis: 250 },
        ]
    } else {
        seq![ConsoleCommand::Sleep { millis: 100 }]
    }
}

/// What is done after an attempt to read a byte, in order.
pub fn console_step(received: bool) -> (commands: Vec<ConsoleCommand>)
    ensures
        commands@ == console_commands(received),
{
    let mut commands: Vec<ConsoleCommand> = Vec::new();
    if received {
        commands.push(ConsoleCommand::SetLow);
        commands.push(ConsoleCommand::Sleep { millis: 250 });
        commands.push(ConsoleCommand::SetHigh);
        commands.push(ConsoleCommand::Sleep { millis: 250 });
    } else {
        commands.push(ConsoleCommand::Sleep { millis: 100 });
    }
    assert(commands@ =~= console_commands(received));
    commands
}

/// A light that is turned off is turned on again before the next attempt to read.
pub proof fn law_light_is_left_on(received: bool)
    ensures
        forall|i: int|
            0 <= i < console_commands(received).len() && (
            #[trigger] console_commands(received)[i]) is SetLow ==> exists|j: int|
                i < j < console_commands(received).len() && (
                #[trigger] console_commands(received)[j]) is SetHigh,
{
    let commands = console_commands(received);
    if received {
        assert(commands[2] is SetHigh);
    }
}

/// A byte makes the light go off and on again, a quarter of a second each; without one the
/// light is left alone for a tenth of a second.
pub proof fn law_light_flickers_for_a_byte()
    ensures
        console_commands(true).len() == 4,
        console_commands(true)[0] is SetLow,
        console_commands(true)[1] == (ConsoleCommand::Sleep { millis: 250 }),
        console_commands(true)[2] is SetHigh,
        console_commands(true)[3] == (ConsoleCommand::Sleep { millis: 250 }),
        console_commands(false).len() == 1,
        console_commands(false)[0] == (ConsoleCommand::Sleep { millis: 100 }),
{
}

/// A byte, and only a byte, makes the light go off and on again.
pub proof fn law_bytes_make_the_light_flicker(received: bool, commands: Vec<ConsoleCommand>)
    requires
        call_ensures(console_step, (received,), commands),
    ensures
        received ==> commands@ == seq![
            ConsoleCommand::SetLow,
            ConsoleCommand::Sleep { millis: 250 },
            ConsoleCommand::SetHigh,
            ConsoleCommand::Sleep { millis: 250 },
        ],
        !received ==> commands@ == seq![ConsoleCommand::Sleep { millis: 100 }],
{
}

} // verus!
