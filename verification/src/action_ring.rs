//! The ring of actions a device can open, with a layout per application.

use vstd::prelude::*;
use crate::binding::Action;
use crate::order::{Duplicate, Key, Order};
use crate::table::Table;

verus! {

/// A place on the ring, clockwise from the top.
#[derive(Clone, Copy, Debug, PartialEq, Eq, Structural)]
pub enum ActionRingSlot {
    /// Up.
    Top,
    /// Up and right.
    TopRight,
    /// Right.
    Right,
    /// Down and right.
    BottomRight,
    /// Down.
    Bottom,
    /// Down and left.
    BottomLeft,
    /// Left.
    Left,
    /// Up and left.
    TopLeft,
}

/// A picture chosen for a place, in place of the action's own.
#[derive(Clone, Copy, Debug, PartialEq, Eq, Structural)]
pub enum ActionRingIcon {
    /// A keyboard.
    Keyboard,
    /// A mouse.
    Mouse,
    /// A folder.
    Folder,
    /// A globe.
    Globe,
}

/// An action that can stand on the ring: one that does something.
#[derive(Clone, Copy, Debug, PartialEq, Eq, Structural)]
pub struct RingAction {
    action: Action,
}

impl RingAction {
    /// The action.
    pub closed spec fn spec_action(self) -> Action {
        self.action
    }

    /// `action` as one that can stand on the ring.
    pub fn new(action: Action) -> (ring_action: Option<RingAction>)
        ensures
            match ring_action {
                Some(a) => action != Action::NoOp && a.spec_action() == action,
                None => action == Action::NoOp,
            },
    {
        if action == Action::NoOp {
            None
        } else {
            Some(RingAction { action })
        }
    }

    /// The action.
    pub fn get(self) -> (action: Action)
        ensures
            action == self.spec_action(),
    {
        self.action
    }
}

/// What stands in a place.
#[derive(Clone, Copy, Debug, PartialEq, Eq, Structural)]
pub struct RingEntry {
    /// What it does.
    pub action: Action,
    /// The picture chosen for it.
    pub icon: Option<ActionRingIcon>,
}

impl RingEntry {
    /// What it does.
    pub fn action(&self) -> (action: &Action)
        ensures
            *action == self.action,
    {
        &self.action
    }

    /// The picture chosen for it.
    pub fn custom_icon(&self) -> (icon: Option<ActionRingIcon>)
        ensures
            icon == self.icon,
    {
        self.icon
    }
}

impl View for ActionRingSlot {
    type V = ActionRingSlot;

    open spec fn view(&self) -> ActionRingSlot {
        *self
    }
}

impl View for RingEntry {
    type V = RingEntry;

    open spec fn view(&self) -> RingEntry {
        *self
    }
}

impl Duplicate for ActionRingSlot {
    fn duplicate(&self) -> (copy: Self) {
        *self
    }
}

impl Duplicate for RingEntry {
    fn duplicate(&self) -> (copy: Self) {
        *self
    }
}

impl ActionRingSlot {
    /// Position clockwise from the top.
    pub open spec fn rank_spec(self) -> u8 {
        match self {
            ActionRingSlot::Top => 0,
            ActionRingSlot::TopRight => 1,
            ActionRingSlot::Right => 2,
            ActionRingSlot::BottomRight => 3,
            ActionRingSlot::Bottom => 4,
            ActionRingSlot::BottomLeft => 5,
            ActionRingSlot::Left => 6,
            ActionRingSlot::TopLeft => 7,
        }
    }

    /// Position clockwise from the top.
    pub fn rank(self) -> (rank: u8)
        ensures
            rank == self.rank_spec(),
    {
        match self {
            ActionRingSlot::Top => 0,
            ActionRingSlot::TopRight => 1,
            ActionRingSlot::Right => 2,
            ActionRingSlot::BottomRight => 3,
            ActionRingSlot::Bottom => 4,
            ActionRingSlot::BottomLeft => 5,
            ActionRingSlot::Left => 6,
            ActionRingSlot::TopLeft => 7,
        }
    }
}

impl Key for ActionRingSlot {
    open spec fn before(a: ActionRingSlot, b: ActionRingSlot) -> bool {
        a.rank_spec() < b.rank_spec()
    }

    proof fn before_irreflexive(a: ActionRingSlot) {
    }

    proof fn before_transitive(a: ActionRingSlot, b: ActionRingSlot, c: ActionRingSlot) {
    }

    proof fn before_total(a: ActionRingSlot, b: ActionRingSlot) {
    }

    fn order(&self, other: &Self) -> (o: Order) {
        let a: u8 = self.rank();
        let b: u8 = other.rank();
        if a < b {
            Order::Before
        } else if a == b {
            proof {
                ActionRingSlot::before_total(*self, *other);
            }
            Order::Same
        } else {
            Order::After
        }
    }
}

/// What stands where.
pub type LayoutModel = Map<ActionRingSlot, RingEntry>;

/// What stands where on a ring.
#[derive(Debug, PartialEq, Eq)]
pub struct ActionRingLayout {
    /// The places that hold something.
    pub slots: Table<ActionRingSlot, RingEntry>,
}

impl View for ActionRingLayout {
    type V = LayoutModel;

    open spec fn view(&self) -> LayoutModel {
        self.slots@
    }
}

impl Duplicate for ActionRingLayout {
    fn duplicate(&self) -> (copy: Self) {
        ActionRingLayout { slots: self.slots.duplicate() }
    }
}

/// A place that does `action` under its own picture.
pub open spec fn plain(action: Action) -> RingEntry {
    RingEntry { action, icon: None }
}

/// The layout of a device that never had one.
pub open spec fn default_layout() -> LayoutModel {
    LayoutModel::empty().insert(ActionRingSlot::Top, plain(Action::MissionControl)).insert(
        ActionRingSlot::TopRight,
        plain(Action::Copy),
    ).insert(ActionRingSlot::Right, plain(Action::NextDesktop)).insert(
        ActionRingSlot::BottomRight,
        plain(Action::Paste),
    ).insert(ActionRingSlot::Bottom, plain(Action::ShowDesktop)).insert(
        ActionRingSlot::BottomLeft,
        plain(Action::Undo),
    ).insert(ActionRingSlot::Left, plain(Action::PreviousDesktop)).insert(
        ActionRingSlot::TopLeft,
        plain(Action::Redo),
    )
}

/// `layout` with `action` in a place, or with nothing there.
pub open spec fn with_action(
    layout: LayoutModel,
    slot: ActionRingSlot,
    action: Option<Action>,
) -> LayoutModel {
    match action {
        Some(action) => layout.insert(slot, plain(action)),
        None => layout.remove(slot),
    }
}

/// `layout` with a picture chosen for a place; an empty place stays empty.
pub open spec fn with_icon(
    layout: LayoutModel,
    slot: ActionRingSlot,
    icon: Option<ActionRingIcon>,
) -> LayoutModel {
    if layout.dom().contains(slot) {
        layout.insert(slot, RingEntry { icon, ..layout[slot] })
    } else {
        layout
    }
}

impl Default for ActionRingLayout {
    fn default() -> (layout: Self)
        ensures
            layout@ == default_layout(),
    {
        let mut slots: Table<ActionRingSlot, RingEntry> = Table::new();
        slots.insert(
            ActionRingSlot::Top,
            RingEntry { action: Action::MissionControl, icon: None },
        );
        slots.insert(ActionRingSlot::TopRight, RingEntry { action: Action::Copy, icon: None });
        slots.insert(ActionRingSlot::Right, RingEntry { action: Action::NextDesktop, icon: None });
        slots.insert(ActionRingSlot::BottomRight, RingEntry { action: Action::Paste, icon: None });
        slots.insert(ActionRingSlot::Bottom, RingEntry { action: Action::ShowDesktop, icon: None });
        slots.insert(ActionRingSlot::BottomLeft, RingEntry { action: Action::Undo, icon: None });
        slots.insert(
            ActionRingSlot::Left,
            RingEntry { action: Action::PreviousDesktop, icon: None },
        );
        slots.insert(ActionRingSlot::TopLeft, RingEntry { action: Action::Redo, icon: None });
        ActionRingLayout { slots }
    }
}

impl ActionRingLayout {
    /// Puts an action in a place, or empties it.
    pub fn set_action(&mut self, slot: ActionRingSlot, action: Option<RingAction>)
        ensures
            final(self)@ == with_action(
                old(self)@,
                slot,
                match action {
                    Some(a) => Some(a.spec_action()),
                    None => None,
                },
            ),
    {
        match action {
            Some(action) => {
                self.slots.insert(slot, RingEntry { action: action.get(), icon: None });
            },
            None => {
                let _ = self.slots.remove(&slot);
            },
        }
    }

    /// Chooses a picture for a place that holds something.
    pub fn set_icon(&mut self, slot: ActionRingSlot, icon: Option<ActionRingIcon>)
        ensures
            final(self)@ == with_icon(old(self)@, slot, icon),
    {
        let held = match self.slots.get(&slot) {
            Some(entry) => Some(*entry),
            None => None,
        };
        if let Some(entry) = held {
            self.slots.insert(slot, RingEntry { action: entry.action, icon });
        }
    }
}

/// A device's ring: the default layout, and one for each application that has
/// its own.
#[derive(Debug, PartialEq, Eq)]
pub struct ActionRing {
    /// The default layout.
    pub default: ActionRingLayout,
    /// The layouts of applications.
    pub per_app: Table<String, ActionRingLayout>,
}

/// A device's ring, its layouts read as maps.
pub struct RingModel {
    /// The default layout.
    pub default: LayoutModel,
    /// The layouts of applications.
    pub per_app: Map<Seq<char>, LayoutModel>,
}

impl View for ActionRing {
    type V = RingModel;

    open spec fn view(&self) -> RingModel {
        RingModel { default: self.default@, per_app: self.per_app@ }
    }
}

impl Duplicate for ActionRing {
    fn duplicate(&self) -> (copy: Self) {
        ActionRing { default: self.default.duplicate(), per_app: self.per_app.duplicate() }
    }
}

impl RingModel {
    /// The ring of a device that never had one.
    pub open spec fn fresh() -> RingModel {
        RingModel { default: default_layout(), per_app: Map::empty() }
    }

    /// The layout an application sees: its own, else the default.
    pub open spec fn layout(self, app: Option<Seq<char>>) -> LayoutModel {
        match app {
            Some(app) => if self.per_app.dom().contains(app) {
                self.per_app[app]
            } else {
                self.default
            },
            None => self.default,
        }
    }

    /// The ring with an application's layout, or the default one, replaced.
    pub open spec fn with_layout(self, app: Option<Seq<char>>, layout: LayoutModel) -> RingModel {
        match app {
            Some(app) => RingModel { per_app: self.per_app.insert(app, layout), ..self },
            None => RingModel { default: layout, ..self },
        }
    }

    /// The ring without an application's layout.
    pub open spec fn without_layout(self, app: Seq<char>) -> RingModel {
        RingModel { per_app: self.per_app.remove(app), ..self }
    }
}

impl Default for ActionRing {
    fn default() -> (ring: Self)
        ensures
            ring@ == RingModel::fresh(),
    {
        ActionRing { default: ActionRingLayout::default(), per_app: Table::new() }
    }
}

impl ActionRing {
    /// The layout an application sees: its own, else the default.
    pub fn layout(&self, app: Option<&str>) -> (layout: &ActionRingLayout)
        ensures
            layout@ == self@.layout(
                match app {
                    Some(app) => Some(app@),
                    None => None,
                },
            ),
    {
        match app {
            Some(app) => match self.per_app.get(&app.to_owned()) {
                Some(layout) => layout,
                None => &self.default,
            },
            None => &self.default,
        }
    }

    /// Replaces an application's layout, or the default one.
    pub fn set_layout(&mut self, app: Option<&str>, layout: ActionRingLayout)
        ensures
            final(self)@ == old(self)@.with_layout(
                match app {
                    Some(app) => Some(app@),
                    None => None,
                },
                layout@,
            ),
    {
        match app {
            Some(app) => {
                self.per_app.insert(app.to_owned(), layout);
            },
            None => {
                self.default = layout;
            },
        }
    }
}

/// An application without a layout of its own follows the default, and its first
/// edit starts from a complete copy of it that leaves the default alone.
pub proof fn law_an_unsaved_layout_inherits_until_its_first_edit(
    ring: RingModel,
    app: Seq<char>,
    slot: ActionRingSlot,
    action: Option<Action>,
)
    requires
        !ring.per_app.dom().contains(app),
    ensures
        ring.layout(Some(app)) == ring.default,
        ({
            let edited = ring.with_layout(
                Some(app),
                with_action(ring.layout(Some(app)), slot, action),
            );
            &&& edited.default == ring.default
            &&& forall|other: ActionRingSlot|
                other != slot ==> (#[trigger] edited.layout(Some(app)).dom().contains(other)
                    <==> ring.default.dom().contains(other)) && edited.layout(Some(app))[other]
                    == ring.default[other]
        }),
{
}

/// Forgetting an application's layout brings back whatever the default is by
/// then, and leaves the others alone.
pub proof fn law_a_forgotten_layout_inherits_again(
    ring: RingModel,
    app: Seq<char>,
    default: LayoutModel,
    other: Seq<char>,
)
    ensures
        ring.without_layout(app).with_layout(None, default).layout(Some(app)) == default,
        other != app ==> ring.without_layout(app).layout(Some(other)) == ring.layout(Some(other)),
{
}

} // verus!
