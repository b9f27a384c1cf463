//! Which window the pointer is over, asked without changing anything and
//! without looking through a window that cannot be identified.

use vstd::prelude::*;
use crate::hook::foreground::{app_view, same_app, AppModel, ForegroundApp, SessionKind};
use crate::text::same_text;

verus! {

/// The window under the pointer, or why there is none.
#[derive(Clone, Copy, Debug, PartialEq, Eq, Structural)]
pub enum PointerTarget {
    /// A window, by its owner and its handle.
    Window {
        /// The owner.
        process_id: i32,
        /// The handle; it does not outlive the window.
        window_id: u64,
    },
    /// The desktop, positively identified.
    Desktop,
    /// The question failed, or the surface cannot be identified.
    Unavailable,
    /// The session cannot answer the question.
    Unsupported,
}

/// The application and window under the pointer.
#[derive(Debug, PartialEq, Eq)]
pub struct PointerContext {
    /// The application, in the namespace of the application in front.
    pub app: Option<ForegroundApp>,
    /// The window.
    pub target: PointerTarget,
}

/// The application and window under the pointer, as values.
pub struct ContextModel {
    /// The application.
    pub app: Option<AppModel>,
    /// The window.
    pub target: PointerTarget,
}

impl View for PointerContext {
    type V = ContextModel;

    open spec fn view(&self) -> ContextModel {
        ContextModel { app: app_view(self.app), target: self.target }
    }
}

/// The view of a context that may be missing.
pub open spec fn context_view(context: Option<PointerContext>) -> Option<ContextModel> {
    match context {
        Some(context) => Some(context@),
        None => None,
    }
}

impl ContextModel {
    /// An application comes with its window: the desktop, a session that cannot
    /// say and a failed question have none.
    pub open spec fn names_app_with_window(self) -> bool {
        self.app is Some ==> self.target is Window
    }
}

/// A context without an application.
pub open spec fn bare_context(target: PointerTarget) -> ContextModel {
    ContextModel { app: None, target }
}

/// A context without an application.
fn bare(target: PointerTarget) -> (context: PointerContext)
    ensures
        context@ == bare_context(target),
{
    PointerContext { app: None, target }
}

/// What the pointer is over, given whether the session can say and what it said.
pub open spec fn pointer_context_spec(
    supported: bool,
    found: Option<ContextModel>,
) -> ContextModel {
    if !supported {
        bare_context(PointerTarget::Unsupported)
    } else {
        match found {
            Some(found) => found,
            None => bare_context(PointerTarget::Unavailable),
        }
    }
}

/// What the pointer is over, given whether the session can say and what it said.
pub fn pointer_context(supported: bool, found: Option<PointerContext>) -> (context: PointerContext)
    ensures
        context@ == pointer_context_spec(supported, context_view(found)),
        context@ == if !supported {
            bare_context(PointerTarget::Unsupported)
        } else {
            match found {
                Some(found) => found@,
                None => bare_context(PointerTarget::Unavailable),
            }
        },
        (found matches Some(found) ==> found@.names_app_with_window())
            ==> context@.names_app_with_window(),
{
    if !supported {
        return bare(PointerTarget::Unsupported);
    }
    match found {
        Some(found) => found,
        None => bare(PointerTarget::Unavailable),
    }
}

/// Whether a session can say what the pointer is over: Wayland never falls back
/// to its X server.
pub fn pointer_context_supported(session: SessionKind) -> (supported: bool)
    ensures
        supported == (session == SessionKind::X11),
{
    match session {
        SessionKind::X11 => true,
        _ => false,
    }
}

/// Where the library runs, as far as pointer windows go.
#[derive(Clone, Copy, Debug, PartialEq, Eq, Structural)]
pub enum PointerPlatform {
    /// Linux, in a session of this kind.
    Linux(SessionKind),
    /// Windows.
    Windows,
    /// A platform that has no way to ask.
    Other,
}

/// Whether a platform can say what the pointer is over: Windows always, Linux as
/// its session can.
pub fn platform_supports_pointer_context(platform: PointerPlatform) -> (supported: bool)
    ensures
        supported == match platform {
            PointerPlatform::Linux(session) => session == SessionKind::X11,
            PointerPlatform::Windows => true,
            PointerPlatform::Other => false,
        },
{
    match platform {
        PointerPlatform::Linux(session) => pointer_context_supported(session),
        PointerPlatform::Windows => true,
        PointerPlatform::Other => false,
    }
}

/// Whether exactly this window has the focus, given the window that has it.
pub fn pointer_target_is_focused(
    target: PointerTarget,
    supported: bool,
    focused: Option<PointerTarget>,
) -> (is_focused: bool)
    ensures
        is_focused == (target is Window && supported && focused == Some(target)),
{
    match target {
        PointerTarget::Window { process_id: _, window_id: _ } => match focused {
            Some(window) => supported && window == target,
            None => false,
        },
        _ => false,
    }
}

/// What is published before the first answer.
pub fn initial_context(supported: bool) -> (context: PointerContext)
    ensures
        context@ == bare_context(
            if supported {
                PointerTarget::Unavailable
            } else {
                PointerTarget::Unsupported
            },
        ),
{
    bare(
        if supported {
            PointerTarget::Unavailable
        } else {
            PointerTarget::Unsupported
        },
    )
}

/// Whether `current` is to be published after `previous`: only a change of
/// window or application is, not movement within one.
pub fn context_changed(previous: &PointerContext, current: &PointerContext) -> (changed: bool)
    ensures
        changed == (previous@ != current@),
{
    !(previous.target == current.target && same_app(&previous.app, &current.app))
}

/// A process number as an owner: positive and in range.
pub open spec fn owner_spec(pid: u32) -> Option<i32> {
    if 0 < pid <= i32::MAX {
        Some(pid as i32)
    } else {
        None
    }
}

/// A process number as an owner: positive and in range.
pub fn owner(pid: u32) -> (process_id: Option<i32>)
    ensures
        process_id == owner_spec(pid),
{
    if 0 < pid && pid <= i32::MAX as u32 {
        Some(pid as i32)
    } else {
        None
    }
}

/// Whether a Windows handle is the desktop: the desktop or shell window itself,
/// or a window of the shell's process with a desktop class. The shell also owns
/// folders and the taskbar, so its process alone is not enough.
pub open spec fn desktop_spec(
    window: u64,
    desktop: u64,
    shell: u64,
    shell_pid: Option<i32>,
    window_pid: Option<i32>,
    class: Option<Seq<char>>,
) -> bool {
    ||| window == desktop
    ||| shell != 0 && (window == shell || (shell_pid is Some && window_pid == shell_pid && (class
        == Some("WorkerW"@) || class == Some("Progman"@))))
}

/// Whether a Windows handle is the desktop.
pub fn is_desktop(
    window: u64,
    desktop: u64,
    shell: u64,
    shell_pid: Option<i32>,
    window_pid: Option<i32>,
    class: Option<&str>,
) -> (is: bool)
    ensures
        is == desktop_spec(
            window,
            desktop,
            shell,
            shell_pid,
            window_pid,
            match class {
                Some(name) => Some(name@),
                None => None,
            },
        ),
{
    if window == desktop {
        return true;
    }
    if shell == 0 {
        return false;
    }
    if window == shell {
        return true;
    }
    match (shell_pid, window_pid, class) {
        (Some(s), Some(w), Some(name)) => s == w && (same_text(name, "WorkerW") || same_text(
            name,
            "Progman",
        )),
        _ => false,
    }
}

/// What the pointer is over on Windows.
pub open spec fn windows_context_spec(
    window: u64,
    desktop: bool,
    owner_pid: Option<i32>,
    app: Option<AppModel>,
) -> Option<ContextModel> {
    if window == 0 {
        None
    } else if desktop {
        Some(bare_context(PointerTarget::Desktop))
    } else if owner_pid is Some && app is Some {
        Some(
            ContextModel {
                app,
                target: PointerTarget::Window { process_id: owner_pid->0, window_id: window },
            },
        )
    } else {
        None
    }
}

/// What the pointer is over on Windows, given the root window under it, whether
/// that is the desktop, its owner and its application.
pub fn windows_context(
    window: u64,
    desktop: bool,
    owner_pid: Option<i32>,
    app: Option<ForegroundApp>,
) -> (context: Option<PointerContext>)
    ensures
        context_view(context) == windows_context_spec(window, desktop, owner_pid, app_view(app)),
        context_view(context) == if window == 0 {
            None
        } else if desktop {
            Some(bare_context(PointerTarget::Desktop))
        } else if owner_pid is Some && app is Some {
            Some(
                ContextModel {
                    app: app_view(app),
                    target: PointerTarget::Window {
                        process_id: owner_pid->0,
                        window_id: window,
                    },
                },
            )
        } else {
            None
        },
        context matches Some(context) ==> context@.names_app_with_window(),
{
    if window == 0 {
        return None;
    }
    if desktop {
        return Some(bare(PointerTarget::Desktop));
    }
    match (owner_pid, app) {
        (Some(process_id), Some(app)) => Some(
            PointerContext {
                app: Some(app),
                target: PointerTarget::Window { process_id, window_id: window },
            },
        ),
        _ => None,
    }
}

/// How many ancestors of a client are looked at.
pub const MAX_ANCESTORS: u32 = 32;

/// What a lookup waits for.
#[derive(Clone, Copy, Debug, PartialEq, Eq, Structural)]
pub enum LookupPhase {
    /// Where the pointer is.
    Pointer,
    /// The clients of the root, in stacking order.
    Clients,
    /// The parent of this ancestor of the current client.
    Parent(u32),
    /// The type that marks a desktop, for this client.
    DesktopType(u32),
    /// The types of this client.
    Types(u32, u32),
    /// The application of this client.
    AppId(u32),
    /// The owner of this client.
    Pid(u32),
    /// Nothing: the answer is known.
    Done,
}

/// What a lookup asks the server.
#[derive(Clone, Copy, Debug, PartialEq, Eq, Structural)]
pub enum LookupAsk {
    /// Where the pointer is.
    Pointer,
    /// The clients of the root, in stacking order.
    Clients,
    /// The parent of a window.
    Parent(u32),
    /// The type that marks a desktop.
    DesktopType,
    /// The types of a window.
    Types(u32),
    /// The application of a window.
    AppId(u32),
    /// The owner of a window.
    Pid(u32),
    /// Nothing.
    Done,
}

/// What a lookup that waits for something asks the server.
pub open spec fn lookup_ask(phase: LookupPhase) -> LookupAsk {
    match phase {
        LookupPhase::Pointer => LookupAsk::Pointer,
        LookupPhase::Clients => LookupAsk::Clients,
        LookupPhase::Parent(window) => LookupAsk::Parent(window),
        LookupPhase::DesktopType(_) => LookupAsk::DesktopType,
        LookupPhase::Types(window, _) => LookupAsk::Types(window),
        LookupPhase::AppId(window) => LookupAsk::AppId(window),
        LookupPhase::Pid(window) => LookupAsk::Pid(window),
        LookupPhase::Done => LookupAsk::Done,
    }
}

/// What the server answers.
#[derive(Debug, PartialEq, Eq)]
pub enum LookupAnswer {
    /// Where the pointer is.
    Pointer {
        /// Whether it is on this screen.
        same_screen: bool,
        /// The top child of the root under it, or zero.
        child: u32,
    },
    /// Windows or types.
    Values(Vec<u32>),
    /// One value.
    Value(u32),
    /// An application key.
    Text(String),
    /// The question failed.
    Failed,
}

/// A lookup as values.
pub struct LookupModel {
    /// The root window.
    pub root: u32,
    /// The top child under the pointer.
    pub child: u32,
    /// The clients that were not looked at, in stacking order.
    pub clients: Seq<u32>,
    /// The client that is looked at.
    pub client: u32,
    /// How many of its ancestors were passed.
    pub depth: u32,
    /// The application of the client.
    pub app: Option<Seq<char>>,
    /// What the lookup waits for.
    pub phase: LookupPhase,
    /// What it found.
    pub found: Option<ContextModel>,
}

impl LookupModel {
    /// A lookup below `root` that asked nothing yet.
    pub open spec fn below(root: u32) -> LookupModel {
        LookupModel {
            root,
            child: 0,
            clients: Seq::empty(),
            client: 0,
            depth: 0,
            app: None,
            phase: LookupPhase::Pointer,
            found: None,
        }
    }

    /// The lookup with its answer.
    pub open spec fn answered(self, found: Option<ContextModel>) -> LookupModel {
        LookupModel { phase: LookupPhase::Done, found, ..self }
    }

    /// The lookup at the next client from the top, or without an answer when
    /// none is left.
    pub open spec fn next_client(self) -> LookupModel {
        if self.clients.len() == 0 {
            self.answered(None)
        } else {
            (LookupModel {
                client: self.clients.last(),
                clients: self.clients.drop_last(),
                depth: 0,
                ..self
            }).at_ancestor(self.clients.last())
        }
    }

    /// The lookup at an ancestor of the current client.
    pub open spec fn at_ancestor(self, ancestor: u32) -> LookupModel {
        LookupModel {
            phase: if ancestor == self.child {
                LookupPhase::DesktopType(self.client)
            } else {
                LookupPhase::Parent(ancestor)
            },
            ..self
        }
    }

    /// What an answer does. A failed question leaves the lookup without an
    /// answer, except that a client without types has none.
    pub open spec fn step(self, answer: LookupAnswer) -> LookupModel {
        match (self.phase, answer) {
            (LookupPhase::Done, _) => self,
            (LookupPhase::Pointer, LookupAnswer::Pointer { same_screen, child }) => if !same_screen {
                self.answered(None)
            } else if child == 0 {
                self.answered(Some(bare_context(PointerTarget::Desktop)))
            } else {
                LookupModel { child, phase: LookupPhase::Clients, ..self }
            },
            (LookupPhase::Clients, LookupAnswer::Values(windows)) => (LookupModel {
                clients: windows@,
                ..self
            }).next_client(),
            (LookupPhase::Parent(ancestor), LookupAnswer::Value(parent)) => if parent == self.root
                || parent == 0 || self.depth + 1 >= MAX_ANCESTORS {
                self.next_client()
            } else {
                (LookupModel { depth: (self.depth + 1) as u32, ..self }).at_ancestor(parent)
            },
            (LookupPhase::DesktopType(client), LookupAnswer::Value(atom)) => LookupModel {
                phase: LookupPhase::Types(client, atom),
                ..self
            },
            (LookupPhase::Types(client, atom), LookupAnswer::Values(types)) => if types@.contains(
                atom,
            ) {
                self.answered(Some(bare_context(PointerTarget::Desktop)))
            } else {
                LookupModel { phase: LookupPhase::AppId(client), ..self }
            },
            (LookupPhase::Types(client, atom), LookupAnswer::Failed) => LookupModel {
                phase: LookupPhase::AppId(client),
                ..self
            },
            (LookupPhase::AppId(client), LookupAnswer::Text(id)) => LookupModel {
                app: Some(id@),
                phase: LookupPhase::Pid(client),
                ..self
            },
            (LookupPhase::Pid(client), LookupAnswer::Value(pid)) => match (
                owner_spec(pid),
                self.app,
            ) {
                (Some(process_id), Some(id)) => self.answered(
                    Some(
                        ContextModel {
                            app: Some(AppModel { id, display_name: id }),
                            target: PointerTarget::Window { process_id, window_id: client as u64 },
                        },
                    ),
                ),
                _ => self.answered(None),
            },
            (_, _) => self.answered(None),
        }
    }
}

/// A lookup of what the pointer is over on an X server.
#[derive(Debug)]
pub struct PointerLookup {
    root: u32,
    child: u32,
    clients: Vec<u32>,
    client: u32,
    depth: u32,
    app: Option<String>,
    phase: LookupPhase,
    found: Option<PointerContext>,
}

impl View for PointerLookup {
    type V = LookupModel;

    closed spec fn view(&self) -> LookupModel {
        LookupModel {
            root: self.root,
            child: self.child,
            clients: self.clients@,
            client: self.client,
            depth: self.depth,
            app: match self.app {
                Some(id) => Some(id@),
                None => None,
            },
            phase: self.phase,
            found: context_view(self.found),
        }
    }
}

/// Whether `values` holds `value`.
fn holds(values: &Vec<u32>, value: u32) -> (found: bool)
    ensures
        found == values@.contains(value),
{
    let mut i: usize = 0;
    while i < values.len()
        invariant
            i <= values@.len(),
            forall|k: int| 0 <= k < i ==> values@[k] != value,
        decreases values@.len() - i,
    {
        if values[i] == value {
            assert(values@[i as int] == value);
            return true;
        }
        i = i + 1;
    }
    false
}

impl PointerLookup {
    /// A lookup below `root`.
    pub fn new(root: u32) -> (lookup: PointerLookup)
        ensures
            lookup@ == LookupModel::below(root),
    {
        PointerLookup {
            root,
            child: 0,
            clients: Vec::new(),
            client: 0,
            depth: 0,
            app: None,
            phase: LookupPhase::Pointer,
            found: None,
        }
    }

    /// What the lookup asks the server next.
    pub fn ask(&self) -> (ask: LookupAsk)
        ensures
            ask == match self@.phase {
                LookupPhase::Pointer => LookupAsk::Pointer,
                LookupPhase::Clients => LookupAsk::Clients,
                LookupPhase::Parent(window) => LookupAsk::Parent(window),
                LookupPhase::DesktopType(_) => LookupAsk::DesktopType,
                LookupPhase::Types(window, _) => LookupAsk::Types(window),
                LookupPhase::AppId(window) => LookupAsk::AppId(window),
                LookupPhase::Pid(window) => LookupAsk::Pid(window),
                LookupPhase::Done => LookupAsk::Done,
            },
            ask == lookup_ask(self@.phase),
    {
        match self.phase {
            LookupPhase::Pointer => LookupAsk::Pointer,
            LookupPhase::Clients => LookupAsk::Clients,
            LookupPhase::Parent(window) => LookupAsk::Parent(window),
            LookupPhase::DesktopType(_) => LookupAsk::DesktopType,
            LookupPhase::Types(window, _) => LookupAsk::Types(window),
            LookupPhase::AppId(window) => LookupAsk::AppId(window),
            LookupPhase::Pid(window) => LookupAsk::Pid(window),
            LookupPhase::Done => LookupAsk::Done,
        }
    }

    /// What the lookup found.
    pub fn into_found(self) -> (found: Option<PointerContext>)
        ensures
            context_view(found) == self@.found,
    {
        self.found
    }

    fn answer_with(&mut self, found: Option<PointerContext>)
        ensures
            final(self)@ == old(self)@.answered(context_view(found)),
    {
        self.phase = LookupPhase::Done;
        self.found = found;
    }

    fn go_to_ancestor(&mut self, ancestor: u32)
        ensures
            final(self)@ == old(self)@.at_ancestor(ancestor),
    {
        self.phase = if ancestor == self.child {
            LookupPhase::DesktopType(self.client)
        } else {
            LookupPhase::Parent(ancestor)
        };
    }

    fn go_to_next_client(&mut self)
        ensures
            final(self)@ == old(self)@.next_client(),
    {
        match self.clients.pop() {
            None => {
                self.answer_with(None);
            },
            Some(client) => {
                self.client = client;
                self.depth = 0;
                self.go_to_ancestor(client);
            },
        }
    }

    /// Takes an answer.
    pub fn step(&mut self, answer: LookupAnswer)
        ensures
            final(self)@ == old(self)@.step(answer),
    {
        match (self.phase, answer) {
            (LookupPhase::Done, _) => {},
            (LookupPhase::Pointer, LookupAnswer::Pointer { same_screen, child }) => {
                if !same_screen {
                    self.answer_with(None);
                } else if child == 0 {
                    self.answer_with(Some(bare(PointerTarget::Desktop)));
                } else {
                    self.child = child;
                    self.phase = LookupPhase::Clients;
                }
            },
            (LookupPhase::Clients, LookupAnswer::Values(windows)) => {
                self.clients = windows;
                self.go_to_next_client();
            },
            (LookupPhase::Parent(_), LookupAnswer::Value(parent)) => {
                if parent == self.root || parent == 0 || self.depth >= MAX_ANCESTORS - 1 {
                    self.go_to_next_client();
                } else {
                    self.depth = self.depth + 1;
                    self.go_to_ancestor(parent);
                }
            },
            (LookupPhase::DesktopType(client), LookupAnswer::Value(atom)) => {
                self.phase = LookupPhase::Types(client, atom);
            },
            (LookupPhase::Types(client, atom), LookupAnswer::Values(types)) => {
                if holds(&types, atom) {
                    self.answer_with(Some(bare(PointerTarget::Desktop)));
                } else {
                    self.phase = LookupPhase::AppId(client);
                }
            },
            (LookupPhase::Types(client, _), LookupAnswer::Failed) => {
                self.phase = LookupPhase::AppId(client);
            },
            (LookupPhase::AppId(client), LookupAnswer::Text(id)) => {
                self.app = Some(id);
                self.phase = LookupPhase::Pid(client);
            },
            (LookupPhase::Pid(client), LookupAnswer::Value(pid)) => {
                let mut app: Option<String> = None;
                std::mem::swap(&mut app, &mut self.app);
                let found = match (owner(pid), &app) {
                    (Some(process_id), Some(id)) => Some(
                        PointerContext {
                            app: Some(ForegroundApp::unnamed(id.clone())),
                            target: PointerTarget::Window { process_id, window_id: client as u64 },
                        },
                    ),
                    _ => None,
                };
                self.app = app;
                self.answer_with(found);
            },
            (_, _) => {
                self.answer_with(None);
            },
        }
    }
}

/// The window that has the focus, given the active window and its owner.
pub open spec fn focus_spec(active: Option<u32>, pid: Option<u32>) -> Option<PointerTarget> {
    if active is Some && active->0 != 0 && pid is Some && owner_spec(pid->0) is Some {
        Some(
            PointerTarget::Window {
                process_id: owner_spec(pid->0)->0,
                window_id: active->0 as u64,
            },
        )
    } else {
        None
    }
}

/// The window that has the focus, given the active window and its owner. Window
/// zero is none.
pub fn focused_target(active: Option<u32>, pid: Option<u32>) -> (target: Option<PointerTarget>)
    ensures
        target == focus_spec(active, pid),
        target == if active is Some && active->0 != 0 && pid is Some && owner_spec(pid->0) is Some {
            Some(
                PointerTarget::Window {
                    process_id: owner_spec(pid->0)->0,
                    window_id: active->0 as u64,
                },
            )
        } else {
            None
        },
{
    match (active, pid) {
        (Some(window), Some(pid)) => if window == 0 {
            None
        } else {
            match owner(pid) {
                Some(process_id) => Some(
                    PointerTarget::Window { process_id, window_id: window as u64 },
                ),
                None => None,
            }
        },
        _ => None,
    }
}

/// Missing knowledge never becomes the desktop: a lookup answers desktop only
/// where nothing is above the root, or where the client under the pointer says
/// that it is one.
pub proof fn law_only_a_desktop_is_a_desktop(lookup: LookupModel, answer: LookupAnswer)
    requires
        lookup.phase != LookupPhase::Done,
        lookup.step(answer).phase == LookupPhase::Done,
        lookup.step(answer).found matches Some(context) && context.target == PointerTarget::Desktop,
    ensures
        ({
            ||| answer matches LookupAnswer::Pointer { same_screen, child } && same_screen && child
                == 0
            ||| lookup.phase matches LookupPhase::Types(client, atom) && answer
                matches LookupAnswer::Values(types) && types@.contains(atom)
        }),
{
}

/// What answers make of a lookup.
pub open spec fn lookup_run(lookup: LookupModel, answers: Seq<LookupAnswer>) -> LookupModel
    decreases answers.len(),
{
    if answers.len() == 0 {
        lookup
    } else {
        lookup_run(lookup, answers.drop_last()).step(answers.last())
    }
}

/// Whatever the server answers, a lookup names an application only with its
/// window: none for the desktop, and none while or where there is no answer.
pub proof fn law_an_application_comes_with_its_window(root: u32, answers: Seq<LookupAnswer>)
    ensures
        lookup_run(LookupModel::below(root), answers).found matches Some(context)
            ==> context.names_app_with_window(),
    decreases answers.len(),
{
    if answers.len() > 0 {
        law_an_application_comes_with_its_window(root, answers.drop_last());
    }
}

/// A failed question never gives a window: whatever fails, the lookup ends
/// without an answer, or goes on where only the types were missing.
pub proof fn law_failures_are_not_answered(lookup: LookupModel)
    requires
        lookup.phase != LookupPhase::Done,
    ensures
        !(lookup.phase is Types) ==> lookup.step(LookupAnswer::Failed).found is None,
{
}

} // verus!
