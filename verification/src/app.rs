//! The controller: it turns keys into commands and routes each command to
//! the engine, and it holds the little state that stands above the engine,
//! the popup and whether the program goes on.

use vstd::prelude::*;

use crate::backend::Backend;
use crate::machine::BackendView;
use crate::models::{PlayerAction, Track};

verus! {

/// A message shown above everything else until Enter dismisses it.
#[derive(Debug)]
pub struct PopupState {
    pub onscreen: bool,
    pub dangerous: bool,
    pub title: String,
    pub message: Vec<String>,
}

pub struct App {
    /// Whether the program goes on.
    pub running: bool,
    /// Whether another instance holds the lock, so that this one only
    /// waits to be closed.
    pub repeatedinstance: bool,
    pub popup: PopupState,
    pub backend: Backend,
}

/// A key press, as far as the controller tells keys apart.
#[derive(Debug, PartialEq, Eq, Clone, Copy)]
pub enum Key {
    Char(char),
    Up,
    Down,
    Left,
    Right,
    Enter,
    Other,
}

/// What the user can ask of the player.
#[derive(Debug, PartialEq, Eq, Clone, Copy)]
pub enum Command {
    NavigateUp,
    NavigateDown,
    NavigateLeft,
    NavigateRight,
    Enter,
    TogglePause,
    Next,
    Prev,
    ToggleShuffle,
    CycleRepeat,
    Quit,
}

/// The command that a key stands for, if any.
pub open spec fn keycommand(key: Key) -> Option<Command> {
    match key {
        Key::Char('q') => Some(Command::Quit),
        Key::Char(' ') => Some(Command::TogglePause),
        Key::Char('>') => Some(Command::Next),
        Key::Char('<') => Some(Command::Prev),
        Key::Char('s') => Some(Command::ToggleShuffle),
        Key::Char('r') => Some(Command::CycleRepeat),
        Key::Up | Key::Char('k') => Some(Command::NavigateUp),
        Key::Down | Key::Char('j') => Some(Command::NavigateDown),
        Key::Left | Key::Char('h') => Some(Command::NavigateLeft),
        Key::Right | Key::Char('l') => Some(Command::NavigateRight),
        Key::Enter => Some(Command::Enter),
        _ => None,
    }
}

/// The engine after a command. `rest` is the order that a shuffle gave to
/// the tracks behind the current one; only the commands that shuffle read
/// it.
pub open spec fn commanded(m: BackendView, command: Command, rest: Seq<Track>) -> BackendView {
    match command {
        Command::NavigateUp => m.movedvertical(true),
        Command::NavigateDown => m.movedvertical(false),
        Command::NavigateLeft => m.movedhorizontal(true),
        Command::NavigateRight => m.movedhorizontal(false),
        Command::Enter => m.entered(rest),
        Command::TogglePause => m.pausetoggled(),
        Command::Next => m.advanced(),
        Command::Prev => m.rewound(),
        Command::ToggleShuffle => m.shuffletoggled(rest),
        Command::CycleRepeat => m.cycled(),
        Command::Quit => m.stopped(),
    }
}

/// What the process is to do after a command.
pub open spec fn commandaction(m: BackendView, command: Command) -> PlayerAction {
    match command {
        Command::Enter => m.enteraction(),
        Command::TogglePause => m.pauseaction(),
        Command::Next => m.advanced().steppedaction(),
        Command::Prev => m.rewound().steppedaction(),
        Command::Quit => PlayerAction::Stop,
        _ => PlayerAction::Nothing,
    }
}

/// Whether `rest` is an order that the shuffle of a command may give: the
/// tracks that were behind the current one, where the command shuffles.
pub open spec fn fairorder(m: BackendView, command: Command, rest: Seq<Track>) -> bool {
    match command {
        Command::ToggleShuffle => !m.shuffle ==> m.shufflesto(rest),
        Command::Enter => m.shuffle ==> m.entershufflesto(rest),
        _ => true,
    }
}

/// Whether two states of the controller differ in the engine at most.
pub open spec fn sameshell(a: App, b: App) -> bool {
    &&& a.running == b.running
    &&& a.repeatedinstance == b.repeatedinstance
    &&& a.popup == b.popup
}

impl App {
    /// A running controller over an empty engine, with no popup.
    pub fn new() -> (app: Self)
        ensures
            app.running,
            !app.repeatedinstance,
            !app.popup.onscreen,
            app.backend@ == BackendView::initial(),
            app.backend@.wf(),
    {
        App {
            running: true,
            repeatedinstance: false,
            popup: PopupState {
                onscreen: false,
                dangerous: false,
                title: String::new(),
                message: Vec::new(),
            },
            backend: Backend::new(),
        }
    }
}

pub fn commandforkey(key: Key) -> (command: Option<Command>)
    ensures
        command == keycommand(key),
{
    match key {
        Key::Char(c) => {
            if c == 'q' {
                Some(Command::Quit)
            } else if c == ' ' {
                Some(Command::TogglePause)
            } else if c == '>' {
                Some(Command::Next)
            } else if c == '<' {
                Some(Command::Prev)
            } else if c == 's' {
                Some(Command::ToggleShuffle)
            } else if c == 'r' {
                Some(Command::CycleRepeat)
            } else if c == 'k' {
                Some(Command::NavigateUp)
            } else if c == 'j' {
                Some(Command::NavigateDown)
            } else if c == 'h' {
                Some(Command::NavigateLeft)
            } else if c == 'l' {
                Some(Command::NavigateRight)
            } else {
                None
            }
        },
        Key::Up => Some(Command::NavigateUp),
        Key::Down => Some(Command::NavigateDown),
        Key::Left => Some(Command::NavigateLeft),
        Key::Right => Some(Command::NavigateRight),
        Key::Enter => Some(Command::Enter),
        Key::Other => None,
    }
}

/// Sets up the controller once it is known whether this instance got the
/// lock. With the lock, the selection is put on the first playlist and its
/// first track; without it, the instance is marked as a repeated one and
/// nothing else changes.
pub fn firstrun(app: &mut App, lockacquired: bool)
    ensures
        final(app).repeatedinstance == !lockacquired,
        final(app).running == old(app).running,
        final(app).popup == old(app).popup,
        lockacquired ==> final(app).backend@ == old(app).backend@.selectionreset(),
        !lockacquired ==> final(app).backend == old(app).backend,
{
    if lockacquired {
        app.repeatedinstance = false;
        app.backend.resetselection();
    } else {
        app.repeatedinstance = true;
    }
}

/// One tick of the clock, handed on to the engine with the time that the
/// process reported, if it reported one.
pub fn ontick(app: &mut App, counter: &u8, polled: Option<u32>) -> (action: PlayerAction)
    requires
        old(app).backend@.wf(),
    ensures
        final(app).backend@ == old(app).backend@.ticked(*counter, polled),
        action == old(app).backend@.tickaction(*counter, polled),
        sameshell(*final(app), *old(app)),
        final(app).backend@.wf(),
{
    app.backend.tick(*counter, polled)
}

/// One key press. While a popup is shown, Enter dismisses it and every
/// other key is ignored. In a repeated instance, Enter ends the program
/// and every other key is ignored. Otherwise the key's command, if it has
/// one, is carried out as `oncommand` does.
pub fn onkey(app: &mut App, key: Key) -> (action: PlayerAction)
    requires
        old(app).backend@.wf(),
    ensures
        final(app).backend@.wf(),
        final(app).repeatedinstance == old(app).repeatedinstance,
        old(app).popup.onscreen ==> {
            &&& final(app).popup == (PopupState { onscreen: !(key is Enter), ..old(app).popup })
            &&& final(app).running == old(app).running
            &&& final(app).backend == old(app).backend
            &&& action == PlayerAction::Nothing
        },
        !old(app).popup.onscreen ==> final(app).popup == old(app).popup,
        !old(app).popup.onscreen && old(app).repeatedinstance ==> {
            &&& final(app).running == (old(app).running && !(key is Enter))
            &&& final(app).backend == old(app).backend
            &&& action == PlayerAction::Nothing
        },
        !old(app).popup.onscreen && !old(app).repeatedinstance ==> match keycommand(key) {
            Some(command) => {
                &&& final(app).backend@ == commanded(
                    old(app).backend@,
                    command,
                    final(app).backend@.queue.skip(1),
                )
                &&& fairorder(old(app).backend@, command, final(app).backend@.queue.skip(1))
                &&& action == commandaction(old(app).backend@, command)
                &&& final(app).running == (old(app).running && command != Command::Quit)
            },
            None => {
                &&& final(app).running == old(app).running
                &&& final(app).backend == old(app).backend
                &&& action == PlayerAction::Nothing
            },
        },
{
    if app.popup.onscreen {
        match key {
            Key::Enter => {
                app.popup.onscreen = false;
            },
            _ => {},
        }
        return PlayerAction::Nothing;
    }
    if app.repeatedinstance {
        match key {
            Key::Enter => {
                app.running = false;
            },
            _ => {},
        }
        return PlayerAction::Nothing;
    }
    match commandforkey(key) {
        Some(command) => oncommand(app, command),
        None => PlayerAction::Nothing,
    }
}

/// Carries out one command on the engine. Quit also ends the program and
/// orders the process to end.
pub fn oncommand(app: &mut App, command: Command) -> (action: PlayerAction)
    requires
        old(app).backend@.wf(),
    ensures
        final(app).backend@ == commanded(
            old(app).backend@,
            command,
            final(app).backend@.queue.skip(1),
        ),
        fairorder(old(app).backend@, command, final(app).backend@.queue.skip(1)),
        action == commandaction(old(app).backend@, command),
        final(app).running == (old(app).running && command != Command::Quit),
        final(app).repeatedinstance == old(app).repeatedinstance,
        final(app).popup == old(app).popup,
        final(app).backend@.wf(),
{
    match command {
        Command::Quit => {
            app.running = false;
            app.backend.shutdown()
        },
        Command::TogglePause => app.backend.playpause(),
        Command::Next => app.backend.next(),
        Command::Prev => app.backend.prev(),
        Command::ToggleShuffle => {
            app.backend.toggleshuffle();
            PlayerAction::Nothing
        },
        Command::CycleRepeat => {
            app.backend.cyclerepeat();
            PlayerAction::Nothing
        },
        Command::NavigateUp => {
            handleverticalnavigation(app, true);
            PlayerAction::Nothing
        },
        Command::NavigateDown => {
            handleverticalnavigation(app, false);
            PlayerAction::Nothing
        },
        Command::NavigateLeft => {
            handlehorizontalnavigation(app, true);
            PlayerAction::Nothing
        },
        Command::NavigateRight => {
            handlehorizontalnavigation(app, false);
            PlayerAction::Nothing
        },
        Command::Enter => handleenter(app),
    }
}

/// Moves the highlight of the focused pane one row up or down, wrapping at
/// the ends of the list. The rows of the other panes stay as they are, and
/// in an empty list nothing is selected.
pub fn handleverticalnavigation(app: &mut App, isup: bool)
    ensures
        final(app).backend@ == old(app).backend@.movedvertical(isup),
        sameshell(*final(app), *old(app)),
        old(app).backend@.wf() ==> final(app).backend@.wf(),
{
    if isup {
        app.backend.prevrow();
    } else {
        app.backend.nextrow();
    }
}

/// Moves the focus to the pane on the left or on the right, round the ring
/// of the three panes. The pane that gets the focus shows the row it had
/// last, or its last row if the list has become shorter, or its first row if
/// it had none; an empty pane shows none.
pub fn handlehorizontalnavigation(app: &mut App, isleft: bool)
    ensures
        final(app).backend@ == old(app).backend@.movedhorizontal(isleft),
        final(app).backend@.rowinside(),
        sameshell(*final(app), *old(app)),
        old(app).backend@.wf() ==> final(app).backend@.wf(),
{
    if isleft {
        app.backend.prevcolumn();
    } else {
        app.backend.nextcolumn();
    }
}

/// Enter on the focused pane, as `Backend::enter` does it.
pub fn handleenter(app: &mut App) -> (action: PlayerAction)
    requires
        old(app).backend@.wf(),
    ensures
        final(app).backend@ == old(app).backend@.entered(final(app).backend@.queue.skip(1)),
        old(app).backend@.shuffle ==> old(app).backend@.entershufflesto(
            final(app).backend@.queue.skip(1),
        ),
        action == old(app).backend@.enteraction(),
        sameshell(*final(app), *old(app)),
        final(app).backend@.wf(),
{
    app.backend.enter()
}

/// Puts a popup with this title and message on the screen.
pub fn renderopup(app: &mut App, title: String, message: Vec<String>)
    ensures
        final(app).popup.onscreen,
        final(app).popup.title == title,
        final(app).popup.message == message,
        final(app).popup.dangerous == old(app).popup.dangerous,
        final(app).running == old(app).running,
        final(app).repeatedinstance == old(app).repeatedinstance,
        final(app).backend == old(app).backend,
{
    app.popup.onscreen = true;
    app.popup.title = title;
    app.popup.message = message;
}

/// Takes the popup off the screen and empties its title and message.
pub fn clearpopup(app: &mut App)
    ensures
        !final(app).popup.onscreen,
        final(app).popup.title@ == Seq::<char>::empty(),
        final(app).popup.message@ == Seq::<String>::empty(),
        final(app).popup.dangerous == old(app).popup.dangerous,
        final(app).running == old(app).running,
        final(app).repeatedinstance == old(app).repeatedinstance,
        final(app).backend == old(app).backend,
{
    app.popup.onscreen = false;
    app.popup.title = String::new();
    app.popup.message = Vec::new();
}

} // verus!
