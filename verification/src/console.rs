//! Text consoles and the registry of the selected one.
//!
//! At any time exactly one terminal context receives text output: either a
//! live console or the built-in default console. The registry holds that
//! single selection and the contexts of all live consoles. It remembers no
//! history: giving up the selected console falls back to the default
//! console, giving up any other console leaves the selection alone.

use vstd::prelude::*;
use crate::gfx::Screen;
use crate::raw;
use crate::raw::Request;

verus! {

/// What the registry's single slot refers to.
#[derive(Copy, Clone, Debug, PartialEq, Eq, Structural)]
pub enum Selection {
    /// The built-in console, which exists whether or not any console object
    /// is alive.
    Default,
    /// The live console with this identifier.
    Console(usize),
}

/// A rectangle of character cells.
#[derive(Copy, Clone, Debug, PartialEq, Eq, Structural)]
pub struct Window {
    /// Column of the top-left corner.
    pub x: i32,
    /// Row of the top-left corner.
    pub y: i32,
    /// Number of columns.
    pub width: i32,
    /// Number of rows.
    pub height: i32,
}

/// The state of one terminal.
#[derive(Copy, Clone, Debug, PartialEq, Eq)]
pub struct PrintConsole {
    /// The screen that the terminal draws on.
    pub screen: Screen,
    /// The rectangle that the terminal is confined to; `None` while it
    /// covers what the driver gives a new terminal.
    pub window: Option<Window>,
    /// Whether no text of this terminal is on its screen: nothing was
    /// written to it since its grid was last erased or overwritten.
    pub blank: bool,
}

impl PrintConsole {
    /// The context of a terminal that was just initialised on `screen`.
    pub open spec fn fresh(screen: Screen) -> PrintConsole {
        PrintConsole { screen, window: None, blank: true }
    }

    /// This context after `screen` was overwritten.
    pub open spec fn wiped(self, screen: Screen) -> PrintConsole {
        if self.screen == screen {
            PrintConsole { blank: true, ..self }
        } else {
            self
        }
    }
}

/// The registry as a mathematical value.
#[verifier::ext_equal]
pub struct RegistryState {
    /// The context of every live console, by identifier.
    pub consoles: Map<usize, PrintConsole>,
    /// The terminal that receives text output.
    pub selection: Selection,
    /// The context of the default console; `None` until it is initialised.
    pub default_console: Option<PrintConsole>,
}

impl RegistryState {
    /// The registry of a program that has not created any console.
    pub open spec fn empty() -> RegistryState {
        RegistryState {
            consoles: Map::empty(),
            selection: Selection::Default,
            default_console: None,
        }
    }

    /// Whether `id` names a live console.
    pub open spec fn is_live(self, id: usize) -> bool {
        self.consoles.contains_key(id)
    }

    /// Whether `id` is the least identifier that names no live console.
    pub open spec fn least_free(self, id: usize) -> bool {
        &&& !self.is_live(id)
        &&& forall|below: usize| below < id ==> self.is_live(below)
    }

    /// The selection invariant: the slot refers to a live console or to the
    /// default console, and the default console, once initialised, is bound
    /// to the top screen.
    pub open spec fn valid(self) -> bool {
        &&& self.selection matches Selection::Console(id) ==> self.is_live(id)
        &&& self.default_console matches Some(context) ==> context.screen == Screen::Top
    }

    /// The context that receives text output, if the selected terminal has
    /// been initialised.
    pub open spec fn selected(self) -> Option<PrintConsole> {
        match self.selection {
            Selection::Default => self.default_console,
            Selection::Console(id) => if self.is_live(id) {
                Some(self.consoles[id])
            } else {
                None
            },
        }
    }

    /// The registry with the context of the selected terminal replaced.
    pub open spec fn with_selected(self, context: PrintConsole) -> RegistryState {
        match self.selection {
            Selection::Default => RegistryState { default_console: Some(context), ..self },
            Selection::Console(id) => RegistryState {
                consoles: self.consoles.insert(id, context),
                ..self
            },
        }
    }

    /// The registry after `screen` was overwritten: no terminal bound to
    /// that screen has any text left on it.
    pub open spec fn wiped(self, screen: Screen) -> RegistryState {
        RegistryState {
            consoles: self.consoles.map_values(|context: PrintConsole| context.wiped(screen)),
            default_console: match self.default_console {
                Some(context) => Some(context.wiped(screen)),
                None => None,
            },
            ..self
        }
    }

    /// The registry after a console `id` was initialised on `screen`: the
    /// screen is overwritten and the new console is selected.
    pub open spec fn init(self, id: usize, screen: Screen) -> RegistryState {
        RegistryState {
            consoles: self.wiped(screen).consoles.insert(id, PrintConsole::fresh(screen)),
            selection: Selection::Console(id),
            default_console: self.wiped(screen).default_console,
        }
    }

    /// The registry after console `id` was selected.
    pub open spec fn select(self, id: usize) -> RegistryState {
        RegistryState { selection: Selection::Console(id), ..self }
    }

    /// The registry after the grid of the selected terminal was erased.
    pub open spec fn clear(self) -> RegistryState {
        match self.selected() {
            Some(context) => self.with_selected(PrintConsole { blank: true, ..context }),
            None => self,
        }
    }

    /// The registry after `len` bytes of text were written to the output
    /// stream.
    pub open spec fn write(self, len: nat) -> RegistryState {
        match self.selected() {
            Some(context) if len > 0 => self.with_selected(
                PrintConsole { blank: false, ..context },
            ),
            _ => self,
        }
    }

    /// The registry after the window of console `id` was set.
    pub open spec fn set_window(self, id: usize, window: Window) -> RegistryState {
        RegistryState {
            consoles: self.consoles.insert(
                id,
                PrintConsole { window: Some(window), ..self.consoles[id] },
            ),
            ..self
        }
    }

    /// The registry after console `id` was given up.
    ///
    /// If it was the selected one, the default console takes over, and is
    /// initialised on the top screen unless it has been before. Otherwise
    /// the selection stays as it is.
    pub open spec fn drop(self, id: usize) -> RegistryState {
        let rest = RegistryState { consoles: self.consoles.remove(id), ..self };
        if self.selection != Selection::Console(id) {
            rest
        } else if self.default_console is Some {
            RegistryState { selection: Selection::Default, ..rest }
        } else {
            RegistryState {
                consoles: rest.wiped(Screen::Top).consoles,
                selection: Selection::Default,
                default_console: Some(PrintConsole::fresh(Screen::Top)),
            }
        }
    }

    /// The driver requests that giving up console `id` takes, in order.
    ///
    /// The first one selects the default console. If `id` was selected, the
    /// default console is then initialised on the top screen unless it has
    /// been before; otherwise the previous selection is put back.
    pub open spec fn drop_requests(self, id: usize) -> Seq<Request> {
        let fall_back = Request::ConsoleSelect { console: Selection::Default };
        if self.selection != Selection::Console(id) {
            seq![fall_back, Request::ConsoleSelect { console: self.selection }]
        } else if self.default_console is Some {
            seq![fall_back]
        } else {
            seq![
                fall_back,
                Request::ConsoleInit { screen: raw::GFX_TOP, console: Selection::Default },
            ]
        }
    }
}

/// The process-wide record of the live consoles and of the one that
/// receives text output.
#[derive(Debug)]
pub struct ConsoleRegistry {
    contexts: Vec<Option<PrintConsole>>,
    selection: Selection,
    default_console: Option<PrintConsole>,
}

impl View for ConsoleRegistry {
    type V = RegistryState;

    closed spec fn view(&self) -> RegistryState {
        RegistryState {
            consoles: Map::new(
                |id: usize| id < self.contexts.len() && self.contexts[id as int] is Some,
                |id: usize| self.contexts[id as int].unwrap(),
            ),
            selection: self.selection,
            default_console: self.default_console,
        }
    }
}

impl ConsoleRegistry {
    /// Whether the selection invariant holds.
    pub open spec fn wf(&self) -> bool {
        self@.valid()
    }

    /// The registry of a program that has not created any console: text
    /// output goes to the default console, which is not initialised yet.
    pub fn new() -> (registry: ConsoleRegistry)
        ensures
            registry.wf(),
            registry@ == RegistryState::empty(),
    {
        ConsoleRegistry {
            contexts: Vec::new(),
            selection: Selection::Default,
            default_console: None,
        }
    }

    /// The terminal that receives text output.
    pub fn selection(&self) -> (selection: Selection)
        ensures
            selection == self@.selection,
    {
        self.selection
    }

    /// Whether `id` names a live console.
    pub fn is_live(&self, id: usize) -> (live: bool)
        ensures
            live == self@.is_live(id),
    {
        id < self.contexts.len() && self.contexts[id].is_some()
    }

    /// The context of console `id`, if it is live.
    pub fn context(&self, id: usize) -> (context: Option<PrintConsole>)
        ensures
            context == if self@.is_live(id) {
                Some(self@.consoles[id])
            } else {
                None
            },
    {
        if id < self.contexts.len() {
            self.contexts[id]
        } else {
            None
        }
    }

    /// The context of the default console, if it has been initialised.
    pub fn default_console(&self) -> (context: Option<PrintConsole>)
        ensures
            context == self@.default_console,
    {
        self.default_console
    }

    /// Takes note of text that was written to the output stream: the text
    /// went to the selected terminal, which is no longer blank.
    pub fn write(&mut self, bytes: &[u8])
        requires
            old(self).wf(),
        ensures
            final(self).wf(),
            final(self)@ == old(self)@.write(bytes@.len()),
    {
        if bytes.len() > 0 {
            self.mark_selected(false);
        }
    }

    /// Sets the blank flag of the selected terminal, if it is initialised.
    fn mark_selected(&mut self, blank: bool)
        requires
            old(self).wf(),
        ensures
            final(self).wf(),
            final(self)@ == match old(self)@.selected() {
                Some(context) => old(self)@.with_selected(PrintConsole { blank, ..context }),
                None => old(self)@,
            },
    {
        match self.selection {
            Selection::Default => {
                if let Some(context) = self.default_console {
                    self.default_console = Some(PrintConsole { blank, ..context });
                }
            },
            Selection::Console(id) => {
                if let Some(context) = self.contexts[id] {
                    self.contexts.set(id, Some(PrintConsole { blank, ..context }));
                }
            },
        }
    }

    /// Marks every terminal that is bound to `screen` as blank.
    fn wipe(&mut self, screen: Screen)
        ensures
            final(self)@ == old(self)@.wiped(screen),
            final(self).contexts.len() == old(self).contexts.len(),
    {
        if let Some(context) = self.default_console {
            self.default_console = Some(wiped_context(context, screen));
        }
        let mut i: usize = 0;
        while i < self.contexts.len()
            invariant
                i <= self.contexts.len(),
                self.contexts.len() == old(self).contexts.len(),
                self.selection == old(self).selection,
                self.default_console == old(self)@.wiped(screen).default_console,
                forall|j: int|
                    0 <= j < i ==> self.contexts[j] == match #[trigger] old(self).contexts[j] {
                        Some(context) => Some(context.wiped(screen)),
                        None => None,
                    },
                forall|j: int|
                    i <= j < self.contexts.len() ==> self.contexts[j] == old(self).contexts[j],
            decreases self.contexts.len() - i,
        {
            if let Some(context) = self.contexts[i] {
                self.contexts.set(i, Some(wiped_context(context, screen)));
            }
            i += 1;
        }
    }

    /// The least identifier that names no live console.
    fn free_id(&self) -> (id: usize)
        ensures
            self@.least_free(id),
            id <= self.contexts.len(),
    {
        let mut id: usize = 0;
        while id < self.contexts.len() && self.contexts[id].is_some()
            invariant
                id <= self.contexts.len(),
                forall|below: usize| below < id ==> self@.is_live(below),
            decreases self.contexts.len() - id,
        {
            id += 1;
        }
        id
    }
}

fn wiped_context(context: PrintConsole, screen: Screen) -> (wiped: PrintConsole)
    ensures
        wiped == context.wiped(screen),
{
    match (context.screen, screen) {
        (Screen::Top, Screen::Top) | (Screen::Bottom, Screen::Bottom) => PrintConsole {
            blank: true,
            ..context
        },
        _ => context,
    }
}

/// An owned text console on one screen.
///
/// A console is created selected. It stays in the registry until it is
/// given up with [`Console::drop`]; it cannot be duplicated.
#[derive(Debug)]
pub struct Console {
    id: usize,
}

impl Console {
    /// The identifier under which the registry knows this console.
    pub closed spec fn spec_id(&self) -> usize {
        self.id
    }

    /// The identifier under which the registry knows this console.
    #[verifier::when_used_as_spec(spec_id)]
    pub fn id(&self) -> (id: usize)
        ensures
            id == self.id(),
    {
        self.id
    }

    /// Initialize a console on the chosen screen, overwriting whatever was on the screen
    /// previously (including other consoles). The new console is automatically selected for
    /// printing.
    ///
    /// The console gets the least identifier that no live console has. Its
    /// cursor and window start at the driver's defaults. Binding two live
    /// consoles to one screen is not detected.
    pub fn init(registry: &mut ConsoleRegistry, screen: Screen) -> (created: (Console, Request))
        requires
            old(registry).wf(),
        ensures
            final(registry).wf(),
            old(registry)@.least_free(created.0.id()),
            final(registry)@ == old(registry)@.init(created.0.id(), screen),
            created.1 == (Request::ConsoleInit {
                screen: screen.code(),
                console: Selection::Console(created.0.id()),
            }),
    {
        let id: usize = registry.free_id();
        registry.wipe(screen);
        let context = PrintConsole { screen, window: None, blank: true };
        if id < registry.contexts.len() {
            registry.contexts.set(id, Some(context));
        } else {
            registry.contexts.push(Some(context));
        }
        registry.selection = Selection::Console(id);
        assert(registry@.consoles =~= old(registry)@.init(id, screen).consoles);
        let request = Request::ConsoleInit {
            screen: u32::from(screen),
            console: Selection::Console(id),
        };
        (Console { id }, request)
    }

    /// Initialise a console on the bottom screen.
    pub fn default(registry: &mut ConsoleRegistry) -> (created: (Console, Request))
        requires
            old(registry).wf(),
        ensures
            final(registry).wf(),
            old(registry)@.least_free(created.0.id()),
            final(registry)@ == old(registry)@.init(created.0.id(), Screen::Bottom),
            created.1 == (Request::ConsoleInit {
                screen: raw::GFX_BOTTOM,
                console: Selection::Console(created.0.id()),
            }),
    {
        Console::init(registry, Screen::Bottom)
    }

    /// Select this console as the current target for stdout
    ///
    /// Whatever was selected before is replaced; nothing on any screen
    /// changes.
    pub fn select(&self, registry: &mut ConsoleRegistry) -> (request: Request)
        requires
            old(registry).wf(),
            old(registry)@.is_live(self.id()),
        ensures
            final(registry).wf(),
            final(registry)@ == old(registry)@.select(self.id()),
            request == (Request::ConsoleSelect { console: Selection::Console(self.id()) }),
    {
        registry.selection = Selection::Console(self.id);
        Request::ConsoleSelect { console: Selection::Console(self.id) }
    }

    /// Clears all text from the selected console.
    ///
    /// Erasing acts on the terminal that is selected, which need not be
    /// this console: called on a console that is not the selected one, it
    /// still erases the selected one and leaves this one as it is.
    pub fn clear(&self, registry: &mut ConsoleRegistry) -> (request: Request)
        requires
            old(registry).wf(),
        ensures
            final(registry).wf(),
            final(registry)@ == old(registry)@.clear(),
            request == Request::ConsoleClear,
    {
        registry.mark_selected(true);
        Request::ConsoleClear
    }

    /// Resizes the active console to fit in a smaller portion of the screen.
    ///
    /// The first two arguments are the desired coordinates of the top-left corner
    /// of the console, and the second pair is the new width and height
    ///
    /// This function does not validate that the input will produce
    /// a console that actually fits on the screen: what the driver does
    /// with a window that does not fit is up to the driver.
    pub fn set_window(
        &mut self,
        registry: &mut ConsoleRegistry,
        x: i32,
        y: i32,
        width: i32,
        height: i32,
    ) -> (request: Request)
        requires
            old(registry).wf(),
            old(registry)@.is_live(old(self).id()),
        ensures
            final(self).id() == old(self).id(),
            final(registry).wf(),
            final(registry)@ == old(registry)@.set_window(
                old(self).id(),
                Window { x, y, width, height },
            ),
            request == (Request::ConsoleSetWindow {
                console: Selection::Console(old(self).id()),
                x,
                y,
                width,
                height,
            }),
    {
        let id: usize = self.id;
        if let Some(context) = registry.contexts[id] {
            registry.contexts.set(
                id,
                Some(PrintConsole { window: Some(Window { x, y, width, height }), ..context }),
            );
        }
        Request::ConsoleSetWindow { console: Selection::Console(id), x, y, width, height }
    }

    /// Gives the console up.
    ///
    /// If it is the selected one, the default console takes over and is
    /// initialised on the top screen unless it has been before, so that
    /// text output always has a valid terminal to go to. If another
    /// terminal is selected, it stays selected.
    pub fn drop(self, registry: &mut ConsoleRegistry) -> (requests: Vec<Request>)
        requires
            old(registry).wf(),
            old(registry)@.is_live(self.id()),
        ensures
            final(registry).wf(),
            final(registry)@ == old(registry)@.drop(self.id()),
            requests@ == old(registry)@.drop_requests(self.id()),
    {
        let mut requests: Vec<Request> = Vec::new();
        requests.push(Request::ConsoleSelect { console: Selection::Default });
        let current = registry.selection;
        registry.contexts.set(self.id, None);
        if current == Selection::Console(self.id) {
            registry.selection = Selection::Default;
            if registry.default_console.is_none() {
                registry.wipe(Screen::Top);
                registry.default_console = Some(
                    PrintConsole { screen: Screen::Top, window: None, blank: true },
                );
                requests.push(
                    Request::ConsoleInit { screen: raw::GFX_TOP, console: Selection::Default },
                );
            }
        } else {
            requests.push(Request::ConsoleSelect { console: current });
        }
        requests
    }
}

/// One step of the registry.
pub enum Transition {
    /// A console is initialised on a screen.
    Init { id: usize, screen: Screen },
    /// A console is selected.
    Select { id: usize },
    /// The grid of the selected terminal is erased.
    Clear,
    /// Text is written to the output stream.
    Write { len: nat },
    /// The window of a console is set.
    SetWindow { id: usize, window: Window },
    /// A console is given up.
    Drop { id: usize },
}

impl RegistryState {
    /// Whether the registry can take the step: a console that is
    /// initialised is new, a console that is used or given up is live.
    pub open spec fn admits(self, transition: Transition) -> bool {
        match transition {
            Transition::Init { id, .. } => !self.is_live(id),
            Transition::Select { id } => self.is_live(id),
            Transition::Clear => true,
            Transition::Write { .. } => true,
            Transition::SetWindow { id, .. } => self.is_live(id),
            Transition::Drop { id } => self.is_live(id),
        }
    }

    /// The registry after the step.
    pub open spec fn step(self, transition: Transition) -> RegistryState {
        match transition {
            Transition::Init { id, screen } => self.init(id, screen),
            Transition::Select { id } => self.select(id),
            Transition::Clear => self.clear(),
            Transition::Write { len } => self.write(len),
            Transition::SetWindow { id, window } => self.set_window(id, window),
            Transition::Drop { id } => self.drop(id),
        }
    }

    /// The registry after the steps, taken in order.
    pub open spec fn run(self, transitions: Seq<Transition>) -> RegistryState
        decreases transitions.len(),
    {
        if transitions.len() == 0 {
            self
        } else {
            self.run(transitions.drop_last()).step(transitions.last())
        }
    }

    /// Whether the registry can take the steps in order, each one from the
    /// state that the steps before it lead to.
    pub open spec fn admits_all(self, transitions: Seq<Transition>) -> bool
        decreases transitions.len(),
    {
        transitions.len() == 0 || (self.admits_all(transitions.drop_last()) && self.run(
            transitions.drop_last(),
        ).admits(transitions.last()))
    }
}

/// At most one identifier is the least free one: the registry's state
/// determines the identifier of the next console.
pub proof fn lemma_least_free_is_unique(state: RegistryState, a: usize, b: usize)
    requires
        state.least_free(a),
        state.least_free(b),
    ensures
        a == b,
{
}

/// Every step that the registry can take keeps the selection invariant.
pub proof fn lemma_step_keeps_selection_valid(state: RegistryState, transition: Transition)
    requires
        state.valid(),
        state.admits(transition),
    ensures
        state.step(transition).valid(),
{
}

/// The selection invariant holds after every step of any run: however
/// consoles are created, selected, used and given up, and in whatever order,
/// the slot refers to a console that is still live or to the default
/// console.
pub proof fn lemma_selection_invariant(start: RegistryState, transitions: Seq<Transition>)
    requires
        start.valid(),
        start.admits_all(transitions),
    ensures
        forall|k: int|
            0 <= k <= transitions.len() ==> #[trigger] start.run(transitions.take(k)).valid(),
    decreases transitions.len(),
{
    assert forall|k: int| 0 <= k <= transitions.len() implies #[trigger] start.run(
        transitions.take(k),
    ).valid() by {
        if transitions.len() == 0 {
            assert(transitions.take(k) =~= transitions);
        } else if k == transitions.len() {
            let before = transitions.drop_last();
            lemma_selection_invariant(start, before);
            assert(before.take(before.len() as int) =~= before);
            assert(start.run(before).valid());
            lemma_step_keeps_selection_valid(start.run(before), transitions.last());
            assert(transitions.take(k) =~= transitions);
        } else {
            let before = transitions.drop_last();
            lemma_selection_invariant(start, before);
            assert(transitions.take(k) =~= before.take(k));
        }
    }
}

/// Giving up a console that is not the selected one is transparent: the
/// selection, the default console and every other live console stay as they
/// are.
pub proof fn lemma_inactive_drop_is_transparent(state: RegistryState, id: usize)
    requires
        state.valid(),
        state.is_live(id),
        state.selection != Selection::Console(id),
    ensures
        state.drop(id).valid(),
        state.drop(id).selection == state.selection,
        state.drop(id).selected() == state.selected(),
        state.drop(id).default_console == state.default_console,
        state.drop(id).consoles == state.consoles.remove(id),
{
}

/// Giving up the selected console falls back to the default console, which
/// is left initialised and bound to the top screen; no console is selected
/// any more, and the one given up is gone.
pub proof fn lemma_active_drop_falls_back(state: RegistryState, id: usize)
    requires
        state.valid(),
        state.selection == Selection::Console(id),
    ensures
        state.drop(id).valid(),
        state.drop(id).selection == Selection::Default,
        state.drop(id).default_console matches Some(context) && context.screen == Screen::Top,
        !state.drop(id).is_live(id),
        forall|other: usize| other != id ==> (state.drop(id).is_live(other) <==> state.is_live(other)),
{
}

} // verus!
