//! Physical controls, the actions they run, and the shapes a binding takes.

use vstd::prelude::*;
use crate::order::{Duplicate, Key, Order};
use crate::table::Table;

verus! {

/// A physical control of a device, in declaration order.
#[derive(Clone, Copy, Debug, PartialEq, Eq, Structural)]
pub enum ButtonId {
    /// Primary button.
    LeftClick,
    /// Secondary button.
    RightClick,
    /// Wheel press.
    MiddleClick,
    /// Rear thumb button.
    Back,
    /// Front thumb button.
    Forward,
    /// The button behind the wheel.
    DpiToggle,
    /// Thumb wheel press.
    Thumbwheel,
    /// Thumb wheel rotated up.
    ThumbwheelScrollUp,
    /// Thumb wheel rotated down.
    ThumbwheelScrollDown,
    /// Wheel tilted left.
    WheelTiltLeft,
    /// Wheel tilted right.
    WheelTiltRight,
    /// The dedicated gesture button.
    GestureButton,
    /// Keyboard mute key.
    KeyMute,
    /// Presenter Next, pressed.
    PresenterNext,
    /// Presenter Next, held.
    PresenterNextHold,
    /// Presenter Back, pressed.
    PresenterBack,
    /// Presenter Back, held.
    PresenterBackHold,
}

/// A direction of a gesture, or the plain click without movement.
#[derive(Clone, Copy, Debug, PartialEq, Eq, Structural)]
pub enum GestureDirection {
    /// Upward swipe.
    Up,
    /// Downward swipe.
    Down,
    /// Leftward swipe.
    Left,
    /// Rightward swipe.
    Right,
    /// Press and release without a swipe.
    Click,
}

/// What a control does.
#[derive(Clone, Copy, Debug, PartialEq, Eq, Structural)]
pub enum Action {
    /// Nothing.
    NoOp,
    /// Primary click.
    LeftClick,
    /// Secondary click.
    RightClick,
    /// Middle click.
    MiddleClick,
    /// Mouse button 4.
    MouseBack,
    /// Mouse button 5.
    MouseForward,
    /// Browser history back.
    BrowserBack,
    /// Browser history forward.
    BrowserForward,
    /// Copy.
    Copy,
    /// Paste.
    Paste,
    /// Undo.
    Undo,
    /// Redo.
    Redo,
    /// New tab.
    NewTab,
    /// Volume up.
    VolumeUp,
    /// Volume down.
    VolumeDown,
    /// Mute audio.
    MuteVolume,
    /// Scroll left.
    HorizontalScrollLeft,
    /// Scroll right.
    HorizontalScrollRight,
    /// Overview of all windows.
    MissionControl,
    /// Windows of the application in front.
    AppExpose,
    /// Show the desktop.
    ShowDesktop,
    /// Previous desktop.
    PreviousDesktop,
    /// Next desktop.
    NextDesktop,
    /// Step to the next DPI preset.
    CycleDpiPresets,
    /// Step to the previous DPI preset.
    CycleDpiPresetsBack,
    /// Next slide.
    PresenterNext,
    /// Previous slide.
    PresenterBack,
    /// Show the presenter pointer effect.
    PresenterPointer,
    /// Start the slide show.
    PresenterStart,
    /// Blank the screen.
    PresenterBlank,
}

/// Both arms of a press that distinguishes its duration.
#[derive(Clone, Copy, Debug, PartialEq, Eq, Structural)]
pub struct LongPress {
    short: Action,
    long: Action,
}

/// What a button is bound to.
#[derive(Debug, PartialEq, Eq)]
pub enum Binding {
    /// One action for the whole button.
    Single(Action),
    /// One action per gesture direction.
    Gesture(Table<GestureDirection, Action>),
    /// One action per press duration.
    LongPress(LongPress),
}

/// A binding with its direction table read as a map.
pub enum BindingModel {
    /// One action for the whole button.
    Single(Action),
    /// One action per gesture direction.
    Gesture(Map<GestureDirection, Action>),
    /// One action per press duration.
    LongPress(LongPress),
}

impl View for ButtonId {
    type V = ButtonId;

    open spec fn view(&self) -> ButtonId {
        *self
    }
}

impl View for GestureDirection {
    type V = GestureDirection;

    open spec fn view(&self) -> GestureDirection {
        *self
    }
}

impl View for Action {
    type V = Action;

    open spec fn view(&self) -> Action {
        *self
    }
}

impl View for Binding {
    type V = BindingModel;

    open spec fn view(&self) -> BindingModel {
        match *self {
            Binding::Single(action) => BindingModel::Single(action),
            Binding::Gesture(map) => BindingModel::Gesture(map@),
            Binding::LongPress(press) => BindingModel::LongPress(press),
        }
    }
}

impl ButtonId {
    /// Every control, in declaration order.
    pub open spec fn all_spec() -> Seq<ButtonId> {
        seq![
            ButtonId::LeftClick,
            ButtonId::RightClick,
            ButtonId::MiddleClick,
            ButtonId::Back,
            ButtonId::Forward,
            ButtonId::DpiToggle,
            ButtonId::Thumbwheel,
            ButtonId::ThumbwheelScrollUp,
            ButtonId::ThumbwheelScrollDown,
            ButtonId::WheelTiltLeft,
            ButtonId::WheelTiltRight,
            ButtonId::GestureButton,
            ButtonId::KeyMute,
            ButtonId::PresenterNext,
            ButtonId::PresenterNextHold,
            ButtonId::PresenterBack,
            ButtonId::PresenterBackHold,
        ]
    }

    /// Every control, in declaration order.
    pub fn all() -> (buttons: Vec<ButtonId>)
        ensures
            buttons@ == Self::all_spec(),
    {
        let buttons = vec![
            ButtonId::LeftClick,
            ButtonId::RightClick,
            ButtonId::MiddleClick,
            ButtonId::Back,
            ButtonId::Forward,
            ButtonId::DpiToggle,
            ButtonId::Thumbwheel,
            ButtonId::ThumbwheelScrollUp,
            ButtonId::ThumbwheelScrollDown,
            ButtonId::WheelTiltLeft,
            ButtonId::WheelTiltRight,
            ButtonId::GestureButton,
            ButtonId::KeyMute,
            ButtonId::PresenterNext,
            ButtonId::PresenterNextHold,
            ButtonId::PresenterBack,
            ButtonId::PresenterBackHold,
        ];
        assert(buttons@ =~= Self::all_spec());
        buttons
    }

    /// The control's place in declaration order.
    pub open spec fn rank_spec(self) -> u8 {
        match self {
            ButtonId::LeftClick => 0,
            ButtonId::RightClick => 1,
            ButtonId::MiddleClick => 2,
            ButtonId::Back => 3,
            ButtonId::Forward => 4,
            ButtonId::DpiToggle => 5,
            ButtonId::Thumbwheel => 6,
            ButtonId::ThumbwheelScrollUp => 7,
            ButtonId::ThumbwheelScrollDown => 8,
            ButtonId::WheelTiltLeft => 9,
            ButtonId::WheelTiltRight => 10,
            ButtonId::GestureButton => 11,
            ButtonId::KeyMute => 12,
            ButtonId::PresenterNext => 13,
            ButtonId::PresenterNextHold => 14,
            ButtonId::PresenterBack => 15,
            ButtonId::PresenterBackHold => 16,
        }
    }

    /// The control's place in declaration order.
    pub fn rank(self) -> (rank: u8)
        ensures
            rank == self.rank_spec(),
    {
        match self {
            ButtonId::LeftClick => 0,
            ButtonId::RightClick => 1,
            ButtonId::MiddleClick => 2,
            ButtonId::Back => 3,
            ButtonId::Forward => 4,
            ButtonId::DpiToggle => 5,
            ButtonId::Thumbwheel => 6,
            ButtonId::ThumbwheelScrollUp => 7,
            ButtonId::ThumbwheelScrollDown => 8,
            ButtonId::WheelTiltLeft => 9,
            ButtonId::WheelTiltRight => 10,
            ButtonId::GestureButton => 11,
            ButtonId::KeyMute => 12,
            ButtonId::PresenterNext => 13,
            ButtonId::PresenterNextHold => 14,
            ButtonId::PresenterBack => 15,
            ButtonId::PresenterBackHold => 16,
        }
    }
}

impl Key for ButtonId {
    open spec fn before(a: ButtonId, b: ButtonId) -> bool {
        a.rank_spec() < b.rank_spec()
    }

    proof fn before_irreflexive(a: ButtonId) {
    }

    proof fn before_transitive(a: ButtonId, b: ButtonId, c: ButtonId) {
    }

    proof fn before_total(a: ButtonId, b: ButtonId) {
    }

    fn order(&self, other: &Self) -> (o: Order) {
        let a: u8 = self.rank();
        let b: u8 = other.rank();
        if a < b {
            Order::Before
        } else if a == b {
            proof {
                ButtonId::before_total(*self, *other);
            }
            Order::Same
        } else {
            Order::After
        }
    }
}

impl Duplicate for ButtonId {
    fn duplicate(&self) -> (copy: Self) {
        *self
    }
}

impl GestureDirection {
    /// Every direction, in declaration order.
    pub open spec fn all_spec() -> Seq<GestureDirection> {
        seq![
            GestureDirection::Up,
            GestureDirection::Down,
            GestureDirection::Left,
            GestureDirection::Right,
            GestureDirection::Click,
        ]
    }

    /// Every direction, in declaration order.
    pub fn all() -> (directions: Vec<GestureDirection>)
        ensures
            directions@ == Self::all_spec(),
    {
        let directions = vec![
            GestureDirection::Up,
            GestureDirection::Down,
            GestureDirection::Left,
            GestureDirection::Right,
            GestureDirection::Click,
        ];
        assert(directions@ =~= Self::all_spec());
        directions
    }

    /// The direction's place in declaration order.
    pub open spec fn rank_spec(self) -> u8 {
        match self {
            GestureDirection::Up => 0,
            GestureDirection::Down => 1,
            GestureDirection::Left => 2,
            GestureDirection::Right => 3,
            GestureDirection::Click => 4,
        }
    }

    /// The direction's place in declaration order.
    pub fn rank(self) -> (rank: u8)
        ensures
            rank == self.rank_spec(),
    {
        match self {
            GestureDirection::Up => 0,
            GestureDirection::Down => 1,
            GestureDirection::Left => 2,
            GestureDirection::Right => 3,
            GestureDirection::Click => 4,
        }
    }
}

impl Key for GestureDirection {
    open spec fn before(a: GestureDirection, b: GestureDirection) -> bool {
        a.rank_spec() < b.rank_spec()
    }

    proof fn before_irreflexive(a: GestureDirection) {
    }

    proof fn before_transitive(a: GestureDirection, b: GestureDirection, c: GestureDirection) {
    }

    proof fn before_total(a: GestureDirection, b: GestureDirection) {
    }

    fn order(&self, other: &Self) -> (o: Order) {
        let a: u8 = self.rank();
        let b: u8 = other.rank();
        if a < b {
            Order::Before
        } else if a == b {
            proof {
                GestureDirection::before_total(*self, *other);
            }
            Order::Same
        } else {
            Order::After
        }
    }
}

impl Duplicate for GestureDirection {
    fn duplicate(&self) -> (copy: Self) {
        *self
    }
}

impl Duplicate for Action {
    fn duplicate(&self) -> (copy: Self) {
        *self
    }
}

impl Duplicate for Binding {
    fn duplicate(&self) -> (copy: Self) {
        match self {
            Binding::Single(action) => Binding::Single(*action),
            Binding::Gesture(map) => Binding::Gesture(map.duplicate()),
            Binding::LongPress(press) => Binding::LongPress(*press),
        }
    }
}

impl LongPress {
    /// A long press with its two arms.
    pub fn new(short: Action, long: Action) -> (press: LongPress)
        ensures
            press.short_spec() == short,
            press.long_spec() == long,
    {
        LongPress { short, long }
    }

    /// The action of a short press.
    pub closed spec fn short_spec(self) -> Action {
        self.short
    }

    /// The action of a long press.
    pub closed spec fn long_spec(self) -> Action {
        self.long
    }

    /// The action of a short press.
    pub fn short(&self) -> (action: &Action)
        ensures
            *action == self.short_spec(),
    {
        &self.short
    }

    /// The action of a long press.
    pub fn long(&self) -> (action: &Action)
        ensures
            *action == self.long_spec(),
    {
        &self.long
    }
}

/// The action a button runs when nothing is stored for it.
pub open spec fn default_binding_spec(button: ButtonId) -> Action {
    match button {
        ButtonId::LeftClick => Action::LeftClick,
        ButtonId::RightClick => Action::RightClick,
        ButtonId::MiddleClick => Action::MiddleClick,
        ButtonId::Back => Action::MouseBack,
        ButtonId::Forward => Action::MouseForward,
        ButtonId::DpiToggle => Action::CycleDpiPresets,
        ButtonId::Thumbwheel => Action::AppExpose,
        ButtonId::ThumbwheelScrollUp => Action::HorizontalScrollRight,
        ButtonId::ThumbwheelScrollDown => Action::HorizontalScrollLeft,
        ButtonId::WheelTiltLeft => Action::HorizontalScrollLeft,
        ButtonId::WheelTiltRight => Action::HorizontalScrollRight,
        ButtonId::GestureButton => Action::AppExpose,
        ButtonId::KeyMute => Action::MuteVolume,
        ButtonId::PresenterNext => Action::PresenterNext,
        ButtonId::PresenterNextHold => Action::PresenterStart,
        ButtonId::PresenterBack => Action::PresenterBack,
        ButtonId::PresenterBackHold => Action::PresenterBlank,
    }
}

/// The action a button runs when nothing is stored for it.
pub fn default_binding(button: ButtonId) -> (action: Action)
    ensures
        action == default_binding_spec(button),
{
    match button {
        ButtonId::LeftClick => Action::LeftClick,
        ButtonId::RightClick => Action::RightClick,
        ButtonId::MiddleClick => Action::MiddleClick,
        ButtonId::Back => Action::MouseBack,
        ButtonId::Forward => Action::MouseForward,
        ButtonId::DpiToggle => Action::CycleDpiPresets,
        ButtonId::Thumbwheel => Action::AppExpose,
        ButtonId::ThumbwheelScrollUp => Action::HorizontalScrollRight,
        ButtonId::ThumbwheelScrollDown => Action::HorizontalScrollLeft,
        ButtonId::WheelTiltLeft => Action::HorizontalScrollLeft,
        ButtonId::WheelTiltRight => Action::HorizontalScrollRight,
        ButtonId::GestureButton => Action::AppExpose,
        ButtonId::KeyMute => Action::MuteVolume,
        ButtonId::PresenterNext => Action::PresenterNext,
        ButtonId::PresenterNextHold => Action::PresenterStart,
        ButtonId::PresenterBack => Action::PresenterBack,
        ButtonId::PresenterBackHold => Action::PresenterBlank,
    }
}

/// The action an unbound gesture direction runs.
pub open spec fn default_gesture_binding_spec(direction: GestureDirection) -> Action {
    match direction {
        GestureDirection::Up => Action::MissionControl,
        GestureDirection::Down => Action::ShowDesktop,
        GestureDirection::Left => Action::PreviousDesktop,
        GestureDirection::Right => Action::NextDesktop,
        GestureDirection::Click => Action::AppExpose,
    }
}

/// The action an unbound gesture direction runs.
pub fn default_gesture_binding(direction: GestureDirection) -> (action: Action)
    ensures
        action == default_gesture_binding_spec(direction),
{
    match direction {
        GestureDirection::Up => Action::MissionControl,
        GestureDirection::Down => Action::ShowDesktop,
        GestureDirection::Left => Action::PreviousDesktop,
        GestureDirection::Right => Action::NextDesktop,
        GestureDirection::Click => Action::AppExpose,
    }
}

/// The full default direction map.
pub open spec fn default_gesture_map() -> Map<GestureDirection, Action> {
    Map::new(|d: GestureDirection| true, |d: GestureDirection| default_gesture_binding_spec(d))
}

/// The shape and actions a button has when nothing is stored for it: the
/// dedicated gesture button gestures, every other button runs one action.
pub open spec fn default_binding_for_spec(button: ButtonId) -> BindingModel {
    if button == ButtonId::GestureButton {
        BindingModel::Gesture(default_gesture_map())
    } else {
        BindingModel::Single(default_binding_spec(button))
    }
}

/// `map` with every unbound direction at its default.
pub open spec fn filled_gesture_map(map: Map<GestureDirection, Action>) -> Map<
    GestureDirection,
    Action,
> {
    default_gesture_map().union_prefer_right(map)
}

/// Adds every unbound direction at its default.
fn fill_directions(map: &mut Table<GestureDirection, Action>)
    ensures
        final(map)@ == filled_gesture_map(old(map)@),
{
    let ghost start = map@;
    let directions = GestureDirection::all();
    let mut i: usize = 0;
    while i < directions.len()
        invariant
            i <= directions.len(),
            directions@ == GestureDirection::all_spec(),
            forall|d: GestureDirection| #[trigger]
                map@.dom().contains(d) <==> start.dom().contains(d) || d.rank_spec() < i,
            forall|d: GestureDirection| #[trigger]
                map@.dom().contains(d) ==> map@[d] == filled_gesture_map(start)[d],
        decreases directions.len() - i,
    {
        let direction = directions[i];
        assert(direction.rank_spec() == i);
        assert forall|d: GestureDirection| d.rank_spec() == i implies d == direction by {
            GestureDirection::before_total(d, direction);
        }
        if !map.contains_key(&direction) {
            map.insert(direction, default_gesture_binding(direction));
        }
        i = i + 1;
    }
    assert(map@ =~= filled_gesture_map(start));
}

/// The full default direction map.
pub fn default_gesture_table() -> (map: Table<GestureDirection, Action>)
    ensures
        map@ == default_gesture_map(),
{
    let mut map: Table<GestureDirection, Action> = Table::new();
    fill_directions(&mut map);
    assert(map@ =~= default_gesture_map());
    map
}

/// The shape and actions a button has when nothing is stored for it.
pub fn default_binding_for(button: ButtonId) -> (binding: Binding)
    ensures
        binding@ == default_binding_for_spec(button),
{
    if button == ButtonId::GestureButton {
        Binding::Gesture(default_gesture_table())
    } else {
        Binding::Single(default_binding(button))
    }
}

impl BindingModel {
    /// Whether the binding dispatches a direction map.
    pub open spec fn is_gesture(self) -> bool {
        self is Gesture
    }

    /// The action of a plain press: nothing, for a direction map without a click.
    pub open spec fn click_action(self) -> Action {
        match self {
            BindingModel::Single(action) => action,
            BindingModel::Gesture(map) => if map.dom().contains(GestureDirection::Click) {
                map[GestureDirection::Click]
            } else {
                Action::NoOp
            },
            BindingModel::LongPress(press) => press.short_spec(),
        }
    }

    /// The direction map the binding becomes: a plain press is kept as the click.
    pub open spec fn gesture_map(self) -> Map<GestureDirection, Action> {
        match self {
            BindingModel::Gesture(map) => map,
            _ => Map::empty().insert(GestureDirection::Click, self.click_action()),
        }
    }

    /// A direction map reduced to its click, or to `fallback` without one.
    pub open spec fn demoted(self, fallback: Action) -> BindingModel {
        match self {
            BindingModel::Gesture(map) => BindingModel::Single(
                if map.dom().contains(GestureDirection::Click) {
                    map[GestureDirection::Click]
                } else {
                    fallback
                },
            ),
            _ => self,
        }
    }
}

impl Binding {
    /// Whether the binding dispatches a direction map.
    pub fn is_gesture(&self) -> (gesture: bool)
        ensures
            gesture == self@.is_gesture(),
    {
        match self {
            Binding::Gesture(_) => true,
            _ => false,
        }
    }

    /// The action of a plain press.
    pub fn click_action(&self) -> (action: Action)
        ensures
            action == self@.click_action(),
    {
        match self {
            Binding::Single(action) => *action,
            Binding::Gesture(map) => match map.get(&GestureDirection::Click) {
                Some(action) => *action,
                None => Action::NoOp,
            },
            Binding::LongPress(press) => *press.short(),
        }
    }

    /// The binding's direction map, a plain press kept as its click.
    pub fn into_gesture_map(self) -> (map: Table<GestureDirection, Action>)
        ensures
            map@ == self@.gesture_map(),
    {
        let click = self.click_action();
        match self {
            Binding::Gesture(map) => map,
            _ => {
                let mut map: Table<GestureDirection, Action> = Table::new();
                map.insert(GestureDirection::Click, click);
                map
            },
        }
    }

    /// The binding as a direction map, its press kept as the click.
    pub fn upgrade_to_gesture(self) -> (binding: Binding)
        ensures
            binding@ == BindingModel::Gesture(self@.gesture_map()),
    {
        Binding::Gesture(self.into_gesture_map())
    }

    /// A direction map with every unbound direction at its default; any other
    /// binding unchanged.
    pub fn fill_gesture_defaults(self) -> (binding: Binding)
        ensures
            binding@ == match self@ {
                BindingModel::Gesture(map) => BindingModel::Gesture(filled_gesture_map(map)),
                other => other,
            },
    {
        match self {
            Binding::Gesture(map) => {
                let mut map = map;
                fill_directions(&mut map);
                Binding::Gesture(map)
            },
            other => other,
        }
    }

    /// A direction map reduced to its click, or to `fallback` without one.
    pub fn demote_to_single(self, fallback: Action) -> (binding: Binding)
        ensures
            binding@ == self@.demoted(fallback),
    {
        match self {
            Binding::Gesture(map) => {
                let action = match map.get(&GestureDirection::Click) {
                    Some(action) => *action,
                    None => fallback,
                };
                Binding::Single(action)
            },
            other => other,
        }
    }
}

} // verus!
