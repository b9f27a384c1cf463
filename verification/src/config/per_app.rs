//! Per-application profiles: the button overrides and presenter settings a
//! device stores for one application, and how the application in front is
//! matched to them.
//!
//! An override replaces a whole button with a single action. Editing addresses
//! a profile by its exact key; matching also falls back from the path of a
//! Windows executable to that executable's `exe:<filename>` key.

use vstd::prelude::*;
use crate::binding::{Action, Binding, BindingModel, ButtonId};
use crate::config::{blank_device, device_at, lemma_put_back, Config, DeviceModel};
use crate::order::Duplicate;
use crate::presenter::PresenterSettings;
use crate::table::{ascending_keys, Table};
use crate::text::{
    ascii_lower, ascii_lowercase, chars_of, lowercase_chars, slice_chars, string_of, to_ascii_lower,
};

verus! {

/// Whether `c` separates the components of a path.
pub open spec fn path_separator(c: char) -> bool {
    c == '\\' || c == '/'
}

/// What stands behind the last path separator of `app`.
pub open spec fn last_component(app: Seq<char>) -> Seq<char>
    decreases app.len(),
{
    if app.len() == 0 || path_separator(app.last()) {
        Seq::empty()
    } else {
        last_component(app.drop_last()).push(app.last())
    }
}

/// Whether a file name has a stem and the extension `exe` in any ASCII case.
pub open spec fn names_executable(name: Seq<char>) -> bool {
    &&& name.len() > 4
    &&& name[name.len() - 4] == '.'
    &&& ascii_lower(name[name.len() - 3]) == 'e'
    &&& ascii_lower(name[name.len() - 2]) == 'x'
    &&& ascii_lower(name[name.len() - 1]) == 'e'
}

/// The key that stands for an executable wherever it is installed.
pub open spec fn exe_selector(app: Seq<char>) -> Option<Seq<char>> {
    if names_executable(last_component(app)) {
        Some(seq!['e', 'x', 'e', ':'] + ascii_lowercase(last_component(app)))
    } else {
        None
    }
}

/// The key under which `overlays` answers `app`: the exact key first, then the
/// selector of its executable.
pub open spec fn overlay_key<T>(overlays: Map<Seq<char>, T>, app: Seq<char>) -> Option<Seq<char>> {
    if overlays.dom().contains(app) {
        Some(app)
    } else if exe_selector(app) is Some && overlays.dom().contains(exe_selector(app)->0) {
        exe_selector(app)
    } else {
        None
    }
}

/// `bindings` with every override in `overlay` replacing its whole button.
pub open spec fn overlaid(
    bindings: Map<ButtonId, BindingModel>,
    overlay: Map<ButtonId, Action>,
) -> Map<ButtonId, BindingModel> {
    bindings.union_prefer_right(
        Map::new(
            |b: ButtonId| overlay.dom().contains(b),
            |b: ButtonId| BindingModel::Single(overlay[b]),
        ),
    )
}

/// What the buttons of `device` do with `app` in front.
pub open spec fn effective(device: DeviceModel, app: Option<Seq<char>>) -> Map<
    ButtonId,
    BindingModel,
> {
    match app {
        None => device.bindings,
        Some(app) => match overlay_key(device.per_app_bindings, app) {
            None => device.bindings,
            Some(key) => overlaid(device.bindings, device.per_app_bindings[key]),
        },
    }
}

/// The presenter settings of `device` with `app` in front.
pub open spec fn effective_settings(
    device: DeviceModel,
    app: Option<Seq<char>>,
) -> PresenterSettings {
    match app {
        None => device.presenter,
        Some(app) => match overlay_key(device.per_app_presenter, app) {
            None => device.presenter,
            Some(key) => device.per_app_presenter[key],
        },
    }
}

/// Whether an application in front replaces any of the bindings of `device`.
pub open spec fn overridden(device: DeviceModel, app: Seq<char>) -> bool {
    overlay_key(device.per_app_bindings, app) matches Some(key)
        && device.per_app_bindings[key] != Map::<ButtonId, Action>::empty()
}

/// The profiles that hold at least one override.
pub open spec fn pruned(profiles: Map<Seq<char>, Map<ButtonId, Action>>) -> Map<
    Seq<char>,
    Map<ButtonId, Action>,
> {
    Map::new(
        |app: Seq<char>|
            profiles.dom().contains(app) && profiles[app] != Map::<ButtonId, Action>::empty(),
        |app: Seq<char>| profiles[app],
    )
}

/// The overrides stored under exactly `app`.
pub open spec fn overrides_at(
    profiles: Map<Seq<char>, Map<ButtonId, Action>>,
    app: Seq<char>,
) -> Map<ButtonId, Action> {
    if profiles.dom().contains(app) {
        profiles[app]
    } else {
        Map::empty()
    }
}

/// `device` with one override of `app` set or cleared, and every profile that
/// holds nothing dropped.
pub open spec fn with_override(
    device: DeviceModel,
    app: Seq<char>,
    button: ButtonId,
    action: Option<Action>,
) -> DeviceModel {
    let entry = overrides_at(device.per_app_bindings, app);
    DeviceModel {
        per_app_bindings: pruned(
            device.per_app_bindings.insert(
                app,
                match action {
                    Some(a) => entry.insert(button, a),
                    None => entry.remove(button),
                },
            ),
        ),
        ..device
    }
}

/// `device` without its profile for exactly `app`.
pub open spec fn without_profile(device: DeviceModel, app: Seq<char>) -> DeviceModel {
    DeviceModel {
        per_app_bindings: device.per_app_bindings.remove(app),
        per_app_presenter: device.per_app_presenter.remove(app),
        ..device
    }
}

/// The views of a list of strings.
pub open spec fn texts(strings: Seq<String>) -> Seq<Seq<char>> {
    Seq::new(strings.len(), |i: int| strings[i]@)
}

/// The key that stands for the executable `app` names, wherever it is installed.
pub fn executable_selector(app: &str) -> (selector: Option<String>)
    ensures
        match selector {
            Some(s) => exe_selector(app@) == Some(s@),
            None => exe_selector(app@) is None,
        },
{
    let chars = chars_of(app);
    let n: usize = chars.len();
    let mut from: usize = n;
    assert(chars@.take(n as int) =~= chars@);
    assert(chars@.subrange(from as int, n as int) =~= Seq::<char>::empty());
    assert(last_component(chars@.take(from as int)) + Seq::<char>::empty() =~= last_component(
        chars@.take(from as int),
    ));
    while from > 0 && chars[from - 1] != '\\' && chars[from - 1] != '/'
        invariant
            from <= n == chars@.len(),
            chars@ == app@,
            last_component(app@) == last_component(chars@.take(from as int)) + chars@.subrange(
                from as int,
                n as int,
            ),
        decreases from,
    {
        let ghost head = chars@.take(from as int);
        assert(head.drop_last() =~= chars@.take(from - 1));
        assert(last_component(head.drop_last()).push(head.last()) + chars@.subrange(
            from as int,
            n as int,
        ) =~= last_component(head.drop_last()) + chars@.subrange(from - 1, n as int));
        from = from - 1;
    }
    let name = slice_chars(&chars, from, n);
    assert(last_component(chars@.take(from as int)) =~= Seq::<char>::empty());
    assert(last_component(app@) =~= name@);
    let len: usize = name.len();
    if len <= 4 || name[len - 4] != '.' || to_ascii_lower(name[len - 3]) != 'e' || to_ascii_lower(
        name[len - 2],
    ) != 'x' || to_ascii_lower(name[len - 1]) != 'e' {
        return None;
    }
    let mut selector: Vec<char> = vec!['e', 'x', 'e', ':'];
    let mut lower = lowercase_chars(&name);
    let ghost tail = lower@;
    selector.append(&mut lower);
    assert(selector@ =~= seq!['e', 'x', 'e', ':'] + tail);
    Some(string_of(&selector))
}

/// The overlay that answers `app`: its exact key first, then the selector of its
/// executable, which stays the same when the install directory changes.
pub fn app_overlay<'a, T: View>(overlays: &'a Table<String, T>, app: &str) -> (overlay: Option<
    &'a T,
>)
    ensures
        match overlay {
            Some(t) => overlay_key(overlays@, app@) matches Some(key) && t@ == overlays@[key],
            None => overlay_key(overlays@, app@) is None,
        },
{
    match overlays.get(&app.to_owned()) {
        Some(t) => Some(t),
        None => match executable_selector(app) {
            Some(selector) => overlays.get(&selector),
            None => None,
        },
    }
}

/// Drops every profile that holds nothing.
fn prune(profiles: Table<String, Table<ButtonId, Action>>) -> (kept: Table<
    String,
    Table<ButtonId, Action>,
>)
    ensures
        kept@ == pruned(profiles@),
{
    let ghost all = profiles@;
    let mut rest = profiles;
    let mut kept: Table<String, Table<ButtonId, Action>> = Table::new();
    loop
        invariant
            forall|k: Seq<char>| #[trigger]
                rest@.dom().contains(k) ==> all.dom().contains(k) && rest@[k] == all[k],
            forall|k: Seq<char>| #[trigger]
                kept@.dom().contains(k) <==> all.dom().contains(k) && !rest@.dom().contains(k)
                    && all[k] != Map::<ButtonId, Action>::empty(),
            forall|k: Seq<char>| #[trigger] kept@.dom().contains(k) ==> kept@[k] == all[k],
        ensures
            rest@ == Map::<Seq<char>, Map<ButtonId, Action>>::empty(),
        decreases rest.keys().len(),
    {
        match rest.pop_last() {
            None => {
                break;
            },
            Some((app, overrides)) => {
                if !overrides.is_empty() {
                    kept.insert(app, overrides);
                }
            },
        }
    }
    assert(kept@ =~= pruned(all));
    kept
}

/// Adds every key of `table` to `keys`.
fn collect_keys<T: View>(keys: &mut Table<String, bool>, table: &Table<String, T>)
    ensures
        forall|k: Seq<char>| #[trigger]
            final(keys)@.dom().contains(k) <==> old(keys)@.dom().contains(k)
                || table@.dom().contains(k),
{
    let n: usize = table.len();
    let mut i: usize = 0;
    let ghost start = keys@;
    while i < n
        invariant
            i <= n == table.keys().len(),
            forall|j: int| 0 <= j < n ==> table@.dom().contains(#[trigger] table.keys()[j]),
            forall|k: Seq<char>| #[trigger]
                keys@.dom().contains(k) ==> start.dom().contains(k) || table@.dom().contains(k),
            forall|k: Seq<char>| #[trigger] start.dom().contains(k) ==> keys@.dom().contains(k),
            forall|j: int| 0 <= j < i ==> keys@.dom().contains(#[trigger] table.keys()[j]),
        decreases n - i,
    {
        let (key, _) = table.entry_at(i);
        keys.insert(key.duplicate(), true);
        i = i + 1;
    }
    assert forall|k: Seq<char>| #[trigger] table@.dom().contains(k) implies keys@.dom().contains(k) by {
        let j = choose|j: int| 0 <= j < table.keys().len() && table.keys()[j] == k;
        assert(keys@.dom().contains(table.keys()[j]));
    }
}

impl Config {
    /// What the buttons of `device_key` do with `bundle_id` in front: the stored
    /// bindings, with each override of the application's profile replacing its
    /// whole button. Nothing, for a device that was never stored.
    pub fn effective_bindings(&self, device_key: &str, bundle_id: Option<&str>) -> (out: Table<
        ButtonId,
        Binding,
    >)
        ensures
            out@ == effective(
                device_at(self@, device_key@),
                match bundle_id {
                    Some(app) => Some(app@),
                    None => None,
                },
            ),
    {
        let device = match self.device(device_key) {
            Some(device) => device,
            None => {
                return Table::new();
            },
        };
        let mut out = device.bindings.duplicate();
        if let Some(app) = bundle_id {
            if let Some(overlay) = app_overlay(&device.per_app_bindings, app) {
                let ghost base = out@;
                let n: usize = overlay.len();
                let mut i: usize = 0;
                while i < n
                    invariant
                        i <= n == overlay.keys().len(),
                        forall|j: int|
                            0 <= j < n ==> overlay@.dom().contains(#[trigger] overlay.keys()[j]),
                        forall|b: ButtonId| #[trigger]
                            out@.dom().contains(b) ==> base.dom().contains(b)
                                || overlay@.dom().contains(b),
                        forall|b: ButtonId| #[trigger]
                            base.dom().contains(b) ==> out@.dom().contains(b),
                        forall|j: int|
                            0 <= j < i ==> out@.dom().contains(#[trigger] overlay.keys()[j])
                                && out@[overlay.keys()[j]] == BindingModel::Single(
                                overlay@[overlay.keys()[j]],
                            ),
                        forall|b: ButtonId| #[trigger]
                            out@.dom().contains(b) && !overlay@.dom().contains(b) ==> out@[b]
                                == base[b],
                    decreases n - i,
                {
                    let (button, action) = overlay.entry_at(i);
                    out.insert(*button, Binding::Single(*action));
                    i = i + 1;
                }
                assert forall|b: ButtonId| #[trigger] overlay@.dom().contains(b) implies out@.dom().contains(
                    b,
                ) && out@[b] == BindingModel::Single(overlay@[b]) by {
                    let j = choose|j: int| 0 <= j < overlay.keys().len() && overlay.keys()[j] == b;
                    assert(out@.dom().contains(overlay.keys()[j]));
                }
                assert(out@ =~= overlaid(base, overlay@));
            }
        }
        out
    }

    /// Records an override of one button for an application, or removes it.
    /// Creates the device and the profile as needed, and drops every profile
    /// that holds nothing.
    pub fn set_per_app_binding(
        &mut self,
        device_key: &str,
        bundle_id: &str,
        button: ButtonId,
        action: Option<Action>,
    )
        ensures
            final(self)@ == old(self)@.insert(
                device_key@,
                with_override(device_at(old(self)@, device_key@), bundle_id@, button, action),
            ),
    {
        let mut device = self.take_device(device_key);
        let ghost before = device@;
        let key = bundle_id.to_owned();
        let mut entry: Table<ButtonId, Action> = match device.per_app_bindings.remove(&key) {
            Some(entry) => entry,
            None => Table::new(),
        };
        match action {
            Some(a) => {
                entry.insert(button, a);
            },
            None => {
                let _ = entry.remove(&button);
            },
        }
        let ghost entry_view = entry@;
        let mut profiles: Table<String, Table<ButtonId, Action>> = Table::new();
        std::mem::swap(&mut profiles, &mut device.per_app_bindings);
        profiles.insert(key, entry);
        proof {
            lemma_put_back(before.per_app_bindings, bundle_id@, entry_view);
        }
        device.per_app_bindings = prune(profiles);
        proof {
            lemma_put_back(old(self)@, device_key@, device@);
        }
        self.put_device(device_key, device);
    }

    /// The overrides `device_key` stores under exactly `app`: what the user
    /// authored there. Whether an application in front replaces any binding is
    /// [`Self::has_app_override`].
    pub fn per_app_overrides(&self, device_key: &str, app: &str) -> (overrides: Option<
        &Table<ButtonId, Action>,
    >)
        ensures
            match overrides {
                Some(t) => t@ == overrides_at(
                    device_at(self@, device_key@).per_app_bindings,
                    app@,
                ) && t@ != Map::<ButtonId, Action>::empty(),
                None => overrides_at(device_at(self@, device_key@).per_app_bindings, app@)
                    == Map::<ButtonId, Action>::empty(),
            },
    {
        match self.device(device_key) {
            Some(device) => match device.per_app_bindings.get(&app.to_owned()) {
                Some(overrides) => if overrides.is_empty() {
                    None
                } else {
                    Some(overrides)
                },
                None => None,
            },
            None => None,
        }
    }

    /// Every application key `device_key` has a profile for, each once and in
    /// key order.
    pub fn app_profiles(&self, device_key: &str) -> (profiles: Vec<String>)
        ensures
            ascending_keys::<String>(texts(profiles@)),
            forall|app: Seq<char>| #[trigger]
                texts(profiles@).contains(app) <==> device_at(
                    self@,
                    device_key@,
                ).per_app_bindings.dom().contains(app) || device_at(
                    self@,
                    device_key@,
                ).per_app_presenter.dom().contains(app),
    {
        let mut keys: Table<String, bool> = Table::new();
        if let Some(device) = self.device(device_key) {
            collect_keys(&mut keys, &device.per_app_bindings);
            collect_keys(&mut keys, &device.per_app_presenter);
        }
        let n: usize = keys.len();
        let mut profiles: Vec<String> = Vec::new();
        let mut i: usize = 0;
        while i < n
            invariant
                i <= n == keys.keys().len(),
                texts(profiles@) == keys.keys().take(i as int),
            decreases n - i,
        {
            let (key, _) = keys.entry_at(i);
            let ghost listed = profiles@;
            profiles.push(key.duplicate());
            assert(texts(profiles@) =~= texts(listed).push(key@));
            assert(keys.keys().take(i + 1) =~= keys.keys().take(i as int).push(key@));
            i = i + 1;
        }
        assert(keys.keys().take(i as int) =~= keys.keys());
        assert forall|app: Seq<char>| #[trigger] texts(profiles@).contains(app) <==> device_at(
            self@,
            device_key@,
        ).per_app_bindings.dom().contains(app) || device_at(
            self@,
            device_key@,
        ).per_app_presenter.dom().contains(app) by {
            assert(keys@.dom().contains(app) <==> keys.keys().contains(app));
        }
        profiles
    }

    /// Drops the whole profile of `device_key` for exactly `app`.
    pub fn remove_app_profile(&mut self, device_key: &str, app: &str)
        ensures
            final(self)@ == if old(self)@.dom().contains(device_key@) {
                old(self)@.insert(device_key@, without_profile(old(self)@[device_key@], app@))
            } else {
                old(self)@
            },
    {
        if self.device(device_key).is_none() {
            return;
        }
        let mut device = self.take_device(device_key);
        let key = app.to_owned();
        let _ = device.per_app_bindings.remove(&key);
        let _ = device.per_app_presenter.remove(&key);
        proof {
            lemma_put_back(old(self)@, device_key@, device@);
        }
        self.put_device(device_key, device);
    }

    /// Whether `app` in front replaces any of the bindings of `device_key`.
    /// Presenter settings of its own are not bindings and do not count.
    pub fn has_app_override(&self, device_key: &str, app: &str) -> (hit: bool)
        ensures
            hit == overridden(device_at(self@, device_key@), app@),
    {
        match self.device(device_key) {
            None => {
                proof {
                    assert(overlay_key(blank_device().per_app_bindings, app@) is None);
                }
                false
            },
            Some(device) => match app_overlay(&device.per_app_bindings, app) {
                Some(overlay) => !overlay.is_empty(),
                None => false,
            },
        }
    }

    /// The presenter settings of `device_key` with `bundle_id` in front.
    pub fn effective_presenter(
        &self,
        device_key: &str,
        bundle_id: Option<&str>,
    ) -> (settings: PresenterSettings)
        ensures
            settings == effective_settings(
                device_at(self@, device_key@),
                match bundle_id {
                    Some(app) => Some(app@),
                    None => None,
                },
            ),
    {
        let device = match self.device(device_key) {
            Some(device) => device,
            None => {
                return PresenterSettings::default();
            },
        };
        if let Some(app) = bundle_id {
            if let Some(settings) = app_overlay(&device.per_app_presenter, app) {
                return *settings;
            }
        }
        device.presenter
    }

    /// Replaces or removes the presenter settings of an application, creating
    /// the device if needed.
    pub fn set_per_app_presenter(
        &mut self,
        device_key: &str,
        bundle_id: &str,
        settings: Option<PresenterSettings>,
    )
        ensures
            final(self)@ == old(self)@.insert(
                device_key@,
                (DeviceModel {
                    per_app_presenter: match settings {
                        Some(s) => device_at(old(self)@, device_key@).per_app_presenter.insert(
                            bundle_id@,
                            s,
                        ),
                        None => device_at(old(self)@, device_key@).per_app_presenter.remove(
                            bundle_id@,
                        ),
                    },
                    ..device_at(old(self)@, device_key@)
                }),
            ),
    {
        let mut device = self.take_device(device_key);
        match settings {
            Some(settings) => {
                device.per_app_presenter.insert(bundle_id.to_owned(), settings);
            },
            None => {
                let _ = device.per_app_presenter.remove(&bundle_id.to_owned());
            },
        }
        proof {
            lemma_put_back(old(self)@, device_key@, device@);
        }
        self.put_device(device_key, device);
    }
}

/// An exact key answers before the selector of the executable does.
pub proof fn law_exact_key_takes_precedence(device: DeviceModel, app: Seq<char>)
    ensures
        device.per_app_bindings.dom().contains(app) ==> effective(device, Some(app)) == overlaid(
            device.bindings,
            device.per_app_bindings[app],
        ),
        device.per_app_presenter.dom().contains(app) ==> effective_settings(device, Some(app))
            == device.per_app_presenter[app],
{
}

/// Two installations of one executable are answered by the same selector when
/// neither has a profile of its own.
pub proof fn law_selector_outlives_the_install_directory(
    device: DeviceModel,
    app: Seq<char>,
    other: Seq<char>,
)
    requires
        ascii_lowercase(last_component(app)) == ascii_lowercase(last_component(other)),
    ensures
        !device.per_app_bindings.dom().contains(app) && !device.per_app_bindings.dom().contains(
            other,
        ) ==> effective(device, Some(app)) == effective(device, Some(other)),
        !device.per_app_presenter.dom().contains(app) && !device.per_app_presenter.dom().contains(
            other,
        ) ==> effective_settings(device, Some(app)) == effective_settings(device, Some(other)),
{
    lemma_executables_agree(last_component(app), last_component(other));
}

proof fn lemma_executables_agree(a: Seq<char>, b: Seq<char>)
    requires
        ascii_lowercase(a) == ascii_lowercase(b),
    ensures
        names_executable(a) == names_executable(b),
{
    assert(a.len() == ascii_lowercase(a).len());
    assert(b.len() == ascii_lowercase(b).len());
    assert forall|i: int| 0 <= i < a.len() implies ascii_lower(#[trigger] a[i]) == ascii_lower(b[i]) by {
        assert(ascii_lowercase(a)[i] == ascii_lower(a[i]));
        assert(ascii_lowercase(b)[i] == ascii_lower(b[i]));
    }
    if a.len() > 4 {
        let n = a.len() as int;
        assert(ascii_lower(a[n - 4]) == ascii_lower(b[n - 4]) && ascii_lower(a[n - 3])
            == ascii_lower(b[n - 3]) && ascii_lower(a[n - 2]) == ascii_lower(b[n - 2])
            && ascii_lower(a[n - 1]) == ascii_lower(b[n - 1]));
        assert(ascii_lower(a[n - 4]) == '.' <==> a[n - 4] == '.');
        assert(ascii_lower(b[n - 4]) == '.' <==> b[n - 4] == '.');
    }
}

/// After an override was set or cleared no profile is left that holds nothing,
/// and the overrides of every other application are as before.
pub proof fn law_override_leaves_no_empty_profile(
    device: DeviceModel,
    app: Seq<char>,
    button: ButtonId,
    action: Option<Action>,
    other: Seq<char>,
)
    ensures
        with_override(device, app, button, action).per_app_bindings.dom().contains(other)
            ==> with_override(device, app, button, action).per_app_bindings[other] != Map::<
            ButtonId,
            Action,
        >::empty(),
        other != app ==> overrides_at(
            with_override(device, app, button, action).per_app_bindings,
            other,
        ) == overrides_at(device.per_app_bindings, other),
        with_override(device, app, button, action).bindings == device.bindings,
{
}

/// An override that was set is what the button does in that application, and
/// clearing it again hands back the profile as it was without it.
pub proof fn law_override_round_trip(
    device: DeviceModel,
    app: Seq<char>,
    button: ButtonId,
    action: Action,
)
    ensures
        effective(with_override(device, app, button, Some(action)), Some(app)).dom().contains(
            button,
        ),
        effective(with_override(device, app, button, Some(action)), Some(app))[button]
            == BindingModel::Single(action),
        overrides_at(
            with_override(
                with_override(device, app, button, Some(action)),
                app,
                button,
                None,
            ).per_app_bindings,
            app,
        ) == overrides_at(device.per_app_bindings, app).remove(button),
{
    let entry = overrides_at(device.per_app_bindings, app);
    let set = with_override(device, app, button, Some(action));
    assert(entry.insert(button, action).dom().contains(button));
    assert(entry.insert(button, action) != Map::<ButtonId, Action>::empty());
    assert(entry.insert(button, action).remove(button) =~= entry.remove(button));
}

/// Once the profile of an application is removed nothing is stored under its
/// key, and without a selector for it the device answers as for no application.
pub proof fn law_removed_profile_falls_back(device: DeviceModel, app: Seq<char>)
    requires
        overlay_key(device.per_app_bindings.remove(app), app) is None,
        overlay_key(device.per_app_presenter.remove(app), app) is None,
    ensures
        effective(without_profile(device, app), Some(app)) == effective(device, None),
        effective_settings(without_profile(device, app), Some(app)) == effective_settings(
            device,
            None,
        ),
        !overridden(without_profile(device, app), app),
{
}

} // verus!
