//! What a lookup of the window under the pointer ends with, said of the windows
//! there are.

use vstd::prelude::*;
use crate::hook::foreground::AppModel;
use crate::hook::pointer::{
    desktop_spec, focus_spec, lookup_ask, lookup_run, pointer_context_spec, windows_context_spec,
    ContextModel, LookupAnswer, LookupAsk, LookupModel, LookupPhase, PointerTarget,
};

verus! {

/// The windows of a screen, as its server would describe them.
pub struct WindowTree {
    /// The root.
    pub root: u32,
    /// The child of the root under the pointer.
    pub child: u32,
    /// The clients, from the bottom to the top.
    pub clients: Seq<u32>,
    /// The parent of a window; zero where it has none.
    pub parent: spec_fn(u32) -> u32,
    /// The type that marks a desktop.
    pub desktop_type: u32,
    /// The types of a window, where it has some.
    pub types: spec_fn(u32) -> Option<Seq<u32>>,
    /// The application key of a window, where it has one.
    pub app: spec_fn(u32) -> Option<Seq<char>>,
    /// The process number of a window, where it has one.
    pub pid: spec_fn(u32) -> Option<u32>,
}

impl WindowTree {
    /// The root has no parent, window zero is none, and the pointer is over a
    /// child of the root.
    pub open spec fn valid(self) -> bool {
        &&& (self.parent)(self.root) == 0
        &&& (self.parent)(0) == 0
        &&& self.child != 0
        &&& self.child != self.root
    }

    /// The window that is `n` levels above `window`.
    pub open spec fn ancestor(self, window: u32, n: nat) -> u32
        decreases n,
    {
        if n == 0 {
            window
        } else {
            (self.parent)(self.ancestor(window, (n - 1) as nat))
        }
    }

    /// Whether the child under the pointer is the window itself or one of the
    /// next 31 windows above it.
    pub open spec fn under_pointer(self, window: u32) -> bool {
        exists|n: nat| n < 32 && #[trigger] self.ancestor(window, n) == self.child
    }

    /// Whether an answer is what this screen says to a question.
    pub open spec fn says(self, ask: LookupAsk, answer: LookupAnswer) -> bool {
        match ask {
            LookupAsk::Pointer => answer == (LookupAnswer::Pointer {
                same_screen: true,
                child: self.child,
            }),
            LookupAsk::Clients => answer matches LookupAnswer::Values(windows) && windows@
                == self.clients,
            LookupAsk::Parent(window) => answer == LookupAnswer::Value((self.parent)(window)),
            LookupAsk::DesktopType => answer == LookupAnswer::Value(self.desktop_type),
            LookupAsk::Types(window) => match (self.types)(window) {
                Some(types) => answer matches LookupAnswer::Values(values) && values@ == types,
                None => answer == LookupAnswer::Failed,
            },
            LookupAsk::AppId(window) => match (self.app)(window) {
                Some(id) => answer matches LookupAnswer::Text(text) && text@ == id,
                None => answer == LookupAnswer::Failed,
            },
            LookupAsk::Pid(window) => match (self.pid)(window) {
                Some(pid) => answer == LookupAnswer::Value(pid),
                None => answer == LookupAnswer::Failed,
            },
            LookupAsk::Done => true,
        }
    }

    /// Whether every one of some answers is what this screen says to what a new lookup
    /// asks at that point.
    pub open spec fn says_all(self, answers: Seq<LookupAnswer>) -> bool
        decreases answers.len(),
    {
        answers.len() > 0 ==> {
            &&& self.says_all(answers.drop_last())
            &&& self.says(
                lookup_ask(lookup_run(LookupModel::below(self.root), answers.drop_last()).phase),
                answers.last(),
            )
        }
    }

    /// Whether the client at `j` is under the pointer and none above it is.
    pub open spec fn topmost(self, j: int) -> bool {
        &&& 0 <= j < self.clients.len()
        &&& self.under_pointer(self.clients[j])
        &&& forall|m: int|
            j < m < self.clients.len() ==> !self.under_pointer(#[trigger] self.clients[m])
    }

    /// Whether a window says that it is a desktop.
    pub open spec fn is_desktop(self, window: u32) -> bool {
        (self.types)(window) matches Some(types) && types.contains(self.desktop_type)
    }

    /// What there is to say of a client.
    pub open spec fn context_of(self, client: u32) -> Option<ContextModel> {
        if self.is_desktop(client) {
            Some(ContextModel { app: None, target: PointerTarget::Desktop })
        } else {
            match ((self.app)(client), (self.pid)(client)) {
                (Some(id), Some(pid)) => if 1 <= pid <= 0x7fff_ffff {
                    Some(
                        ContextModel {
                            app: Some(AppModel { id, display_name: id }),
                            target: PointerTarget::Window {
                                process_id: pid as i32,
                                window_id: client as u64,
                            },
                        },
                    )
                } else {
                    None
                },
                _ => None,
            }
        }
    }

    /// What holds of a lookup on this screen at every point.
    spec fn agrees(self, lookup: LookupModel) -> bool {
        let j = lookup.clients.len() as int;
        let looking = {
            &&& lookup.child == self.child
            &&& j < self.clients.len()
            &&& lookup.clients == self.clients.take(j)
            &&& lookup.client == self.clients[j]
            &&& forall|m: int|
                j < m < self.clients.len() ==> !self.under_pointer(#[trigger] self.clients[m])
        };
        &&& lookup.root == self.root
        &&& match lookup.phase {
            LookupPhase::Pointer => lookup == LookupModel::below(self.root),
            LookupPhase::Clients => lookup.child == self.child,
            LookupPhase::Parent(ancestor) => {
                &&& looking
                &&& lookup.depth < 32
                &&& ancestor == self.ancestor(lookup.client, lookup.depth as nat)
                &&& forall|n: nat|
                    n <= lookup.depth ==> #[trigger] self.ancestor(lookup.client, n) != self.child
            },
            LookupPhase::DesktopType(client) => looking && client == lookup.client
                && self.under_pointer(client),
            LookupPhase::Types(client, atom) => looking && client == lookup.client
                && self.under_pointer(client) && atom == self.desktop_type,
            LookupPhase::AppId(client) => looking && client == lookup.client && self.under_pointer(
                client,
            ) && !self.is_desktop(client),
            LookupPhase::Pid(client) => looking && client == lookup.client && self.under_pointer(
                client,
            ) && !self.is_desktop(client) && lookup.app is Some && lookup.app == (self.app)(client),
            LookupPhase::Done => self.ends_with(lookup.found),
        }
    }

    /// Whether an answer is that of the topmost client under the pointer, or none
    /// where there is no such client.
    spec fn ends_with(self, found: Option<ContextModel>) -> bool {
        ||| found is None && forall|m: int|
            0 <= m < self.clients.len() ==> !self.under_pointer(#[trigger] self.clients[m])
        ||| exists|j: int| #[trigger] self.topmost(j) && found == self.context_of(self.clients[j])
    }

    proof fn lemma_above_the_root(self, window: u32, n: nat, m: nat)
        requires
            self.valid(),
            n <= m,
            self.ancestor(window, n) == self.root || self.ancestor(window, n) == 0,
        ensures
            self.ancestor(window, m) == self.root || self.ancestor(window, m) == 0,
        decreases m - n,
    {
        if n < m {
            self.lemma_above_the_root(window, n, (m - 1) as nat);
        }
    }

    proof fn lemma_next_client(self, lookup: LookupModel)
        requires
            self.valid(),
            lookup.root == self.root,
            lookup.child == self.child,
            lookup.clients.len() <= self.clients.len(),
            lookup.clients == self.clients.take(lookup.clients.len() as int),
            forall|m: int|
                lookup.clients.len() <= m < self.clients.len() ==> !self.under_pointer(
                    #[trigger] self.clients[m],
                ),
        ensures
            self.agrees(lookup.next_client()),
    {
        let next = lookup.next_client();
        let j = lookup.clients.len() - 1;
        if j >= 0 {
            let client = self.clients[j];
            assert(lookup.clients.last() == client);
            assert(next.clients =~= self.clients.take(j));
            assert(self.ancestor(client, 0) == client);
            assert forall|m: int| j < m < self.clients.len() implies !self.under_pointer(
                #[trigger] self.clients[m],
            ) by {}
            if client == self.child {
                assert(self.under_pointer(client));
            } else {
                assert forall|n: nat| n <= 0 implies #[trigger] self.ancestor(client, n)
                    != self.child by {}
            }
        }
    }

    #[verifier::spinoff_prover]
    proof fn lemma_step(self, lookup: LookupModel, answer: LookupAnswer)
        requires
            self.valid(),
            self.agrees(lookup),
            self.says(lookup_ask(lookup.phase), answer),
        ensures
            self.agrees(lookup.step(answer)),
    {
        let next = lookup.step(answer);
        let j = lookup.clients.len() as int;
        match lookup.phase {
            LookupPhase::Clients => {
                let listed = LookupModel { clients: self.clients, ..lookup };
                assert(self.clients.take(self.clients.len() as int) =~= self.clients);
                self.lemma_next_client(listed);
            },
            LookupPhase::Parent(window) => {
                let parent = (self.parent)(window);
                let client = lookup.client;
                let up = (lookup.depth + 1) as nat;
                assert(self.ancestor(client, up) == parent);
                if parent == self.root || parent == 0 || lookup.depth + 1 >= 32 {
                    assert(!self.under_pointer(client)) by {
                        assert forall|n: nat| n < 32 implies #[trigger] self.ancestor(client, n)
                            != self.child by {
                            if n > lookup.depth {
                                self.lemma_above_the_root(client, up, n);
                            }
                        }
                    }
                    assert forall|m: int| j <= m < self.clients.len() implies !self.under_pointer(
                        #[trigger] self.clients[m],
                    ) by {}
                    self.lemma_next_client(lookup);
                } else if parent == self.child {
                    assert(up < 32);
                    assert(self.under_pointer(client));
                } else {
                    assert forall|n: nat| n <= next.depth implies #[trigger] self.ancestor(
                        client,
                        n,
                    ) != self.child by {
                        if n > lookup.depth {
                            assert(n == up);
                        }
                    }
                }
            },
            LookupPhase::Types(client, atom) => {
                assert(self.topmost(j));
            },
            LookupPhase::AppId(client) => {
                assert(self.topmost(j));
            },
            LookupPhase::Pid(client) => {
                assert(self.topmost(j));
            },
            _ => {},
        }
    }

    proof fn lemma_run(self, answers: Seq<LookupAnswer>)
        requires
            self.valid(),
            self.says_all(answers),
        ensures
            self.agrees(lookup_run(LookupModel::below(self.root), answers)),
        decreases answers.len(),
    {
        if answers.len() > 0 {
            self.lemma_run(answers.drop_last());
            self.lemma_step(
                lookup_run(LookupModel::below(self.root), answers.drop_last()),
                answers.last(),
            );
        }
    }

    /// How many answers a lookup still takes, at most.
    spec fn left(self, lookup: LookupModel) -> int {
        let clients = self.clients.len() as int;
        match lookup.phase {
            LookupPhase::Pointer => 32 * clients + 6,
            LookupPhase::Clients => 32 * clients + 5,
            LookupPhase::Parent(_) => 32 * lookup.clients.len() + 36 - lookup.depth,
            LookupPhase::DesktopType(_) => 4,
            LookupPhase::Types(_, _) => 3,
            LookupPhase::AppId(_) => 2,
            LookupPhase::Pid(_) => 1,
            LookupPhase::Done => 0,
        }
    }

    proof fn lemma_left(self, answers: Seq<LookupAnswer>)
        requires
            self.valid(),
            self.says_all(answers),
        ensures
            ({
                let lookup = lookup_run(LookupModel::below(self.root), answers);
                lookup.phase == LookupPhase::Done || self.left(lookup) + answers.len() <= 32
                    * self.clients.len() + 6
            }),
        decreases answers.len(),
    {
        if answers.len() > 0 {
            self.lemma_left(answers.drop_last());
            self.lemma_run(answers.drop_last());
        }
    }
}

/// The topmost client that has the child under the pointer among its first 32
/// ancestors, itself counted, is what a lookup ends with, wherever in the stack
/// it is: the desktop where its types say so, its window and application where
/// both can be read, and no answer where one cannot.
pub proof fn law_the_topmost_client_under_the_pointer_is_found(
    tree: WindowTree,
    answers: Seq<LookupAnswer>,
    j: int,
)
    requires
        tree.valid(),
        tree.says_all(answers),
        lookup_run(LookupModel::below(tree.root), answers).phase == LookupPhase::Done,
        tree.topmost(j),
    ensures
        lookup_run(LookupModel::below(tree.root), answers).found == tree.context_of(
            tree.clients[j],
        ),
{
    tree.lemma_run(answers);
    let found = lookup_run(LookupModel::below(tree.root), answers).found;
    assert(tree.under_pointer(tree.clients[j]));
    let k = choose|k: int|
        #[trigger] tree.topmost(k) && found == tree.context_of(tree.clients[k]);
    if k < j {
        assert(!tree.under_pointer(tree.clients[j]));
    }
    if j < k {
        assert(!tree.under_pointer(tree.clients[k]));
    }
}

/// Where no client has the child under the pointer among its first 32 ancestors,
/// a lookup ends without an answer.
pub proof fn law_no_client_under_the_pointer_is_no_answer(
    tree: WindowTree,
    answers: Seq<LookupAnswer>,
)
    requires
        tree.valid(),
        tree.says_all(answers),
        lookup_run(LookupModel::below(tree.root), answers).phase == LookupPhase::Done,
        forall|m: int|
            0 <= m < tree.clients.len() ==> !tree.under_pointer(#[trigger] tree.clients[m]),
    ensures
        lookup_run(LookupModel::below(tree.root), answers).found is None,
{
    tree.lemma_run(answers);
}

/// A lookup ends: it asks at most 32 questions for each client, and six more.
pub proof fn law_a_lookup_ends(tree: WindowTree, answers: Seq<LookupAnswer>)
    requires
        tree.valid(),
        tree.says_all(answers),
        answers.len() >= 32 * tree.clients.len() + 6,
    ensures
        lookup_run(LookupModel::below(tree.root), answers).phase == LookupPhase::Done,
{
    tree.lemma_left(answers);
    tree.lemma_run(answers);
}

/// A pointer on another screen is over nothing that can be said, and a pointer
/// over no child of the root is over the desktop; neither asks anything more. A
/// lookup that ended stays as it is.
pub proof fn law_a_pointer_over_the_root_is_over_the_desktop(
    root: u32,
    child: u32,
    lookup: LookupModel,
    answer: LookupAnswer,
)
    ensures
        ({
            let away = LookupModel::below(root).step(
                LookupAnswer::Pointer { same_screen: false, child },
            );
            let bare = LookupModel::below(root).step(
                LookupAnswer::Pointer { same_screen: true, child: 0 },
            );
            &&& away.phase == LookupPhase::Done && away.found is None
            &&& bare.phase == LookupPhase::Done && bare.found == Some(
                ContextModel { app: None, target: PointerTarget::Desktop },
            )
        }),
        lookup.phase == LookupPhase::Done ==> lookup.step(answer) == lookup,
{
}

/// A session that cannot say is not asked, whatever it might have said; one that can is
/// believed, and its silence is that nothing is available. Neither makes up a window or
/// an application.
pub proof fn law_a_session_is_believed_where_it_can_say(found: Option<ContextModel>)
    ensures
        pointer_context_spec(false, found).target == PointerTarget::Unsupported,
        pointer_context_spec(false, found).app is None,
        found matches Some(context) ==> pointer_context_spec(true, found) == context,
        pointer_context_spec(true, None).target == PointerTarget::Unavailable,
        pointer_context_spec(true, None).app is None,
{
}

/// On Windows a window is answered with its owner and its application where both are
/// known, the desktop as the desktop, and nothing for no window.
pub proof fn law_a_window_is_answered_with_its_owner(
    window: u64,
    pid: i32,
    app: AppModel,
    desktop: bool,
    known: Option<AppModel>,
    owner: Option<i32>,
)
    ensures
        windows_context_spec(0, desktop, owner, known) is None,
        window != 0 ==> {
            &&& windows_context_spec(window, true, owner, known) == Some(
                ContextModel { app: None, target: PointerTarget::Desktop },
            )
            &&& windows_context_spec(window, false, Some(pid), Some(app)) == Some(
                ContextModel {
                    app: Some(app),
                    target: PointerTarget::Window { process_id: pid, window_id: window },
                },
            )
            &&& windows_context_spec(window, false, None, known) is None
            &&& windows_context_spec(window, false, owner, None) is None
        },
{
}

/// The focused window is the active one with its owner; window zero, a process number of
/// zero and one that is out of range are none.
pub proof fn law_the_active_window_has_the_focus(active: u32, pid: u32)
    ensures
        focus_spec(None, Some(pid)) is None,
        focus_spec(Some(active), None) is None,
        focus_spec(Some(0), Some(pid)) is None,
        active != 0 && 1 <= pid <= 0x7fff_ffff ==> focus_spec(Some(active), Some(pid)) == Some(
            PointerTarget::Window { process_id: pid as i32, window_id: active as u64 },
        ),
        pid == 0 || pid > 0x7fff_ffff ==> focus_spec(Some(active), Some(pid)) is None,
{
}

/// On Windows a window is the desktop exactly where it is the desktop window or
/// the shell window, or where it belongs to the process of the shell and bears one
/// of the two class names of desktop windows; without a shell only the desktop
/// window is.
pub proof fn law_the_shell_is_not_the_desktop_by_itself(
    window: u64,
    desktop: u64,
    shell: u64,
    shell_pid: Option<i32>,
    window_pid: Option<i32>,
    class: Option<Seq<char>>,
)
    ensures
        ({
            let held = desktop_spec(window, desktop, shell, shell_pid, window_pid, class);
            &&& window == desktop ==> held
            &&& window != desktop && shell == 0 ==> !held
            &&& window == shell && shell != 0 ==> held
            &&& window != desktop && window != shell && window_pid != shell_pid ==> !held
            &&& window != desktop && window != shell && window_pid is None ==> !held
            &&& window != desktop && window != shell && class is None ==> !held
            &&& shell != 0 && window_pid is Some && window_pid == shell_pid && (class == Some(
                "WorkerW"@,
            ) || class == Some("Progman"@)) ==> held
            &&& window != desktop && window != shell && class != Some("WorkerW"@) && class != Some(
                "Progman"@,
            ) ==> !held
        }),
{
}

} // verus!
