//! Profiles per application, as the selector above a device's editor shows them.

use vstd::prelude::*;
use crate::order::{text_before, Duplicate, Key, Order};
use crate::text::{to_lowercase, unicode_lowercase, 
    chars_of, is_white_space, push_text, same_text, slice_chars, string_of, white_space,
};

verus! {

/// What a character separates.
#[derive(Clone, Copy, Debug, PartialEq, Eq, Structural)]
pub enum Separator {
    /// The parts of a dotted identifier.
    Dot,
    /// The components of a path.
    Slash,
}

impl Separator {
    /// Whether `c` separates.
    pub open spec fn matches_spec(self, c: char) -> bool {
        match self {
            Separator::Dot => c == '.',
            Separator::Slash => c == '/' || c == '\\',
        }
    }

    /// Whether `c` separates.
    fn matches(self, c: char) -> (matches: bool)
        ensures
            matches == self.matches_spec(c),
    {
        match self {
            Separator::Dot => c == '.',
            Separator::Slash => c == '/' || c == '\\',
        }
    }
}

/// `s` without the separators it ends in.
pub open spec fn without_trailing(s: Seq<char>, separator: Separator) -> Seq<char>
    decreases s.len(),
{
    if s.len() > 0 && separator.matches_spec(s.last()) {
        without_trailing(s.drop_last(), separator)
    } else {
        s
    }
}

/// What stands behind the last separator of `s`.
pub open spec fn last_run(s: Seq<char>, separator: Separator) -> Seq<char>
    decreases s.len(),
{
    if s.len() == 0 || separator.matches_spec(s.last()) {
        Seq::empty()
    } else {
        last_run(s.drop_last(), separator).push(s.last())
    }
}

/// The last part of `s` that is not empty, or all of `s` when it has none.
pub open spec fn last_part(s: Seq<char>, separator: Separator) -> Seq<char> {
    if without_trailing(s, separator).len() == 0 {
        s
    } else {
        last_run(without_trailing(s, separator), separator)
    }
}

/// Whether `s` ends in the extension `.exe`.
pub open spec fn ends_in_exe(s: Seq<char>) -> bool {
    &&& s.len() >= 4
    &&& s[s.len() - 4] == '.'
    &&& s[s.len() - 3] == 'e'
    &&& s[s.len() - 2] == 'x'
    &&& s[s.len() - 1] == 'e'
}

/// `s` without any extensions `.exe` at its end.
pub open spec fn without_exe(s: Seq<char>) -> Seq<char>
    decreases s.len(),
{
    if ends_in_exe(s) {
        without_exe(s.take(s.len() - 4))
    } else {
        s
    }
}

/// Whether `s` starts with the mark of an executable's selector.
pub open spec fn marks_executable(s: Seq<char>) -> bool {
    s.len() >= 4 && s[0] == 'e' && s[1] == 'x' && s[2] == 'e' && s[3] == ':'
}

/// A readable name for an application known only by its identifier: the last
/// part that a person would recognise.
pub open spec fn friendly_name(identifier: Seq<char>) -> Seq<char> {
    if marks_executable(identifier) {
        without_exe(last_part(identifier.skip(4), Separator::Slash))
    } else {
        last_part(identifier, Separator::Dot)
    }
}

/// The last part of `s` that is not empty, or all of `s` when it has none.
fn last_part_of(s: &Vec<char>, separator: Separator) -> (part: Vec<char>)
    ensures
        part@ == last_part(s@, separator),
{
    let n: usize = s.len();
    let mut to: usize = n;
    assert(s@.take(n as int) =~= s@);
    while to > 0 && separator.matches(s[to - 1])
        invariant
            to <= n == s@.len(),
            without_trailing(s@, separator) == without_trailing(s@.take(to as int), separator),
        decreases to,
    {
        assert(s@.take(to as int).drop_last() =~= s@.take(to - 1));
        to = to - 1;
    }
    let ghost kept = s@.take(to as int);
    assert(without_trailing(s@, separator) == kept);
    if to == 0 {
        return slice_chars(s, 0, n);
    }
    let mut from: usize = to;
    assert(s@.subrange(to as int, to as int) =~= Seq::<char>::empty());
    assert(last_run(kept, separator) + Seq::<char>::empty() =~= last_run(kept, separator));
    while from > 0 && !separator.matches(s[from - 1])
        invariant
            from <= to <= n == s@.len(),
            kept == s@.take(to as int),
            last_run(kept, separator) == last_run(s@.take(from as int), separator) + s@.subrange(
                from as int,
                to as int,
            ),
        decreases from,
    {
        let ghost head = s@.take(from as int);
        assert(head.drop_last() =~= s@.take(from - 1));
        assert(last_run(head.drop_last(), separator).push(head.last()) + s@.subrange(
            from as int,
            to as int,
        ) =~= last_run(head.drop_last(), separator) + s@.subrange(from - 1, to as int));
        from = from - 1;
    }
    assert(last_run(s@.take(from as int), separator) =~= Seq::<char>::empty());
    assert(last_run(kept, separator) =~= s@.subrange(from as int, to as int));
    slice_chars(s, from, to)
}

/// A readable name for an application the agent has not reported.
pub fn friendly_app_name(identifier: &str) -> (name: String)
    ensures
        name@ == friendly_name(identifier@),
{
    let chars = chars_of(identifier);
    let n: usize = chars.len();
    if n >= 4 && chars[0] == 'e' && chars[1] == 'x' && chars[2] == 'e' && chars[3] == ':' {
        let path = slice_chars(&chars, 4, n);
        assert(path@ =~= identifier@.skip(4));
        let part = last_part_of(&path, Separator::Slash);
        let mut to: usize = part.len();
        assert(part@.take(to as int) =~= part@);
        while to >= 4 && part[to - 4] == '.' && part[to - 3] == 'e' && part[to - 2] == 'x' && part[to
            - 1] == 'e'
            invariant
                to <= part@.len(),
                without_exe(part@) == without_exe(part@.take(to as int)),
            decreases to,
        {
            assert(part@.take(to as int).take(to - 4) =~= part@.take(to - 4));
            to = to - 4;
        }
        assert(part@.subrange(0, to as int) =~= part@.take(to as int));
        return string_of(&slice_chars(&part, 0, to));
    }
    string_of(&last_part_of(&chars, Separator::Dot))
}

/// An application a profile can be for.
#[derive(Debug, PartialEq, Eq)]
pub struct ProfileChoice {
    /// The key that profiles match.
    pub app: String,
    /// The name that people read.
    pub name: String,
    /// Whether the profile is stored.
    pub persisted: bool,
}

/// An application a profile can be for, its texts read as characters.
pub struct ChoiceModel {
    /// The key that profiles match.
    pub app: Seq<char>,
    /// The name that people read.
    pub name: Seq<char>,
    /// Whether the profile is stored.
    pub persisted: bool,
}

impl View for ProfileChoice {
    type V = ChoiceModel;

    open spec fn view(&self) -> ChoiceModel {
        ChoiceModel { app: self.app@, name: self.name@, persisted: self.persisted }
    }
}

impl Duplicate for ProfileChoice {
    fn duplicate(&self) -> (copy: Self) {
        ProfileChoice {
            app: self.app.clone(),
            name: self.name.clone(),
            persisted: self.persisted,
        }
    }
}

/// The views of a list of choices.
pub open spec fn choices_view(choices: Seq<ProfileChoice>) -> Seq<ChoiceModel> {
    choices.map_values(|choice: ProfileChoice| choice@)
}

/// An application seen in front: its key and its name.
pub type SeenApp = (String, String);

/// The views of a list of applications seen in front.
pub open spec fn seen_view(seen: Seq<SeenApp>) -> Seq<(Seq<char>, Seq<char>)> {
    seen.map_values(|app: SeenApp| (app.0@, app.1@))
}

/// A choice with the key it is sorted by.
pub struct KeyedModel {
    /// The choice.
    pub choice: ChoiceModel,
    /// Its key.
    pub key: Seq<char>,
}

/// Whether `a` is listed before `b`: by key.
pub open spec fn listed_before(a: KeyedModel, b: KeyedModel) -> bool {
    text_before(a.key, b.key)
}

/// A sorted list with `item` put behind everything it does not precede.
pub open spec fn placed(sorted: Seq<KeyedModel>, item: KeyedModel) -> Seq<KeyedModel>
    decreases sorted.len(),
{
    if sorted.len() > 0 && listed_before(item, sorted.last()) {
        placed(sorted.drop_last(), item).push(sorted.last())
    } else {
        sorted.push(item)
    }
}

/// The items by key, equal keys in the order they came.
pub open spec fn by_key(items: Seq<KeyedModel>) -> Seq<KeyedModel>
    decreases items.len(),
{
    if items.len() == 0 {
        Seq::empty()
    } else {
        placed(by_key(items.drop_last()), items.last())
    }
}

/// The choices with their keys.
pub open spec fn keyed(choices: Seq<ChoiceModel>, keys: Seq<Seq<char>>) -> Seq<KeyedModel> {
    Seq::new(choices.len(), |i: int| KeyedModel { choice: choices[i], key: keys[i] })
}

/// The choices without their keys.
pub open spec fn unkeyed(items: Seq<KeyedModel>) -> Seq<ChoiceModel> {
    items.map_values(|item: KeyedModel| item.choice)
}

/// The choices sorted by their keys, equal keys in the order they came.
pub open spec fn sorted_choices(choices: Seq<ChoiceModel>, keys: Seq<Seq<char>>) -> Seq<
    ChoiceModel,
> {
    unkeyed(by_key(keyed(choices, keys)))
}

/// The keys that choices are listed by: their names in small letters.
pub open spec fn name_keys(choices: Seq<ChoiceModel>) -> Seq<Seq<char>> {
    choices.map_values(|choice: ChoiceModel| unicode_lowercase(choice.name))
}

/// The choices by name in small letters, equal names in the order they came.
pub open spec fn by_name(choices: Seq<ChoiceModel>) -> Seq<ChoiceModel> {
    sorted_choices(choices, name_keys(choices))
}

/// Whether a list is in order.
pub open spec fn in_order(items: Seq<KeyedModel>) -> bool {
    forall|i: int, j: int|
        0 <= i < j < items.len() ==> !listed_before(#[trigger] items[j], #[trigger] items[i])
}

/// Putting an item in keeps the order and adds just that item.
proof fn lemma_placed(sorted: Seq<KeyedModel>, item: KeyedModel)
    requires
        in_order(sorted),
    ensures
        in_order(placed(sorted, item)),
        placed(sorted, item).len() == sorted.len() + 1,
        unkeyed(placed(sorted, item)).to_multiset() == unkeyed(sorted).to_multiset().insert(
            item.choice,
        ),
        forall|i: int|
            0 <= i < placed(sorted, item).len() ==> (#[trigger] placed(sorted, item)[i]) == item
                || sorted.contains(placed(sorted, item)[i]),
    decreases sorted.len(),
{
    broadcast use vstd::seq_lib::group_to_multiset_ensures;

    let all = placed(sorted, item);
    if sorted.len() > 0 && listed_before(item, sorted.last()) {
        let rest = sorted.drop_last();
        assert(in_order(rest));
        lemma_placed(rest, item);
        let inner = placed(rest, item);
        assert(sorted =~= rest.push(sorted.last()));
        assert forall|i: int, j: int| 0 <= i < j < all.len() implies !listed_before(
            #[trigger] all[j],
            #[trigger] all[i],
        ) by {
            if j == all.len() - 1 {
                if inner[i] == item {
                    <String as Key>::before_irreflexive(item.key);
                    if listed_before(sorted.last(), item) {
                        <String as Key>::before_transitive(item.key, sorted.last().key, item.key);
                    }
                } else {
                    let k = rest.index_of(inner[i]);
                    assert(sorted[k] == inner[i]);
                    assert(sorted[sorted.len() - 1] == sorted.last());
                }
            }
        }
        assert forall|i: int| 0 <= i < all.len() implies (#[trigger] all[i]) == item
            || sorted.contains(all[i]) by {
            if i < inner.len() {
                if inner[i] != item {
                    let k = rest.index_of(inner[i]);
                    assert(sorted[k] == inner[i]);
                }
            } else {
                assert(sorted[sorted.len() - 1] == all[i]);
            }
        }
        assert(unkeyed(all) =~= unkeyed(inner).push(sorted.last().choice));
        assert(unkeyed(sorted) =~= unkeyed(rest).push(sorted.last().choice));
        assert(unkeyed(all).to_multiset() =~= unkeyed(sorted).to_multiset().insert(item.choice));
    } else {
        assert forall|i: int, j: int| 0 <= i < j < all.len() implies !listed_before(
            #[trigger] all[j],
            #[trigger] all[i],
        ) by {
            if j == all.len() - 1 {
                let last = sorted.last();
                if listed_before(item, sorted[i]) && i < sorted.len() - 1 {
                    assert(!listed_before(sorted[sorted.len() - 1], sorted[i]));
                    <String as Key>::before_total(sorted[i].key, last.key);
                    if listed_before(sorted[i], last) {
                        <String as Key>::before_transitive(item.key, sorted[i].key, last.key);
                    }
                }
            }
        }
        assert forall|i: int| 0 <= i < all.len() implies (#[trigger] all[i]) == item
            || sorted.contains(all[i]) by {
            if i < sorted.len() {
                assert(sorted[i] == all[i]);
            }
        }
        assert(unkeyed(all) =~= unkeyed(sorted).push(item.choice));
    }
}

/// Sorting by key orders the items, and neither adds nor loses one.
proof fn lemma_by_key(items: Seq<KeyedModel>)
    ensures
        in_order(by_key(items)),
        by_key(items).len() == items.len(),
        unkeyed(by_key(items)).to_multiset() == unkeyed(items).to_multiset(),
        forall|i: int|
            0 <= i < by_key(items).len() ==> items.contains(#[trigger] by_key(items)[i]),
    decreases items.len(),
{
    broadcast use vstd::seq_lib::group_to_multiset_ensures;

    if items.len() == 0 {
        assert(by_key(items) =~= items);
    } else {
        let rest = items.drop_last();
        lemma_by_key(rest);
        lemma_placed(by_key(rest), items.last());
        assert(items =~= rest.push(items.last()));
        assert(unkeyed(items) =~= unkeyed(rest).push(items.last().choice));
        assert forall|i: int| 0 <= i < by_key(items).len() implies items.contains(
            #[trigger] by_key(items)[i],
        ) by {
            let item = by_key(items)[i];
            if item == items.last() {
                assert(items[items.len() - 1] == item);
            } else {
                let k = by_key(rest).index_of(item);
                assert(rest.contains(by_key(rest)[k]));
                let j = rest.index_of(item);
                assert(items[j] == item);
            }
        }
    }
}

/// The profiles are listed by name in small letters, and listing them neither
/// adds nor loses one.
pub proof fn law_profiles_are_listed_by_name(choices: Seq<ChoiceModel>)
    ensures
        by_name(choices).len() == choices.len(),
        forall|i: int, j: int|
            0 <= i < j < choices.len() ==> !text_before(
                unicode_lowercase((#[trigger] by_name(choices)[j]).name),
                unicode_lowercase((#[trigger] by_name(choices)[i]).name),
            ),
        by_name(choices).to_multiset() == choices.to_multiset(),
{
    let items = keyed(choices, name_keys(choices));
    lemma_by_key(items);
    assert(unkeyed(items) =~= choices);
    assert forall|i: int| 0 <= i < items.len() implies (#[trigger] by_key(items)[i]).key
        == unicode_lowercase(by_key(items)[i].choice.name) by {
        let k = items.index_of(by_key(items)[i]);
        assert(items[k] == by_key(items)[i]);
    }
    assert forall|i: int, j: int| 0 <= i < j < choices.len() implies !text_before(
        unicode_lowercase((#[trigger] by_name(choices)[j]).name),
        unicode_lowercase((#[trigger] by_name(choices)[i]).name),
    ) by {
        assert(!listed_before(by_key(items)[j], by_key(items)[i]));
    }
}

/// The choices in `sorted` with their keys, as they stand side by side.
spec fn beside(sorted: Seq<ProfileChoice>, keys: Seq<String>) -> Seq<KeyedModel> {
    Seq::new(sorted.len(), |i: int| KeyedModel { choice: sorted[i]@, key: keys[i]@ })
}

/// Sorts the choices by their keys, equal keys in the order they came.
pub fn sort_by_keys(choices: Vec<ProfileChoice>, keys: Vec<String>) -> (sorted: Vec<ProfileChoice>)
    requires
        choices@.len() == keys@.len(),
    ensures
        choices_view(sorted@) == sorted_choices(choices_view(choices@), strings_view(keys@)),
{
    let ghost start = keyed(choices_view(choices@), strings_view(keys@));
    let mut sorted: Vec<ProfileChoice> = Vec::new();
    let mut sorted_keys: Vec<String> = Vec::new();
    let mut rest = choices;
    let mut rest_keys = keys;
    let n: usize = rest.len();
    let mut taken: usize = 0;
    assert(beside(sorted@, sorted_keys@) =~= by_key(start.take(0)));
    assert(beside(rest@, rest_keys@) =~= start.skip(0));
    while taken < n
        invariant
            taken <= n,
            start.len() == n,
            rest@.len() == n - taken,
            rest_keys@.len() == rest@.len(),
            beside(rest@, rest_keys@) == start.skip(taken as int),
            sorted_keys@.len() == sorted@.len(),
            beside(sorted@, sorted_keys@) == by_key(start.take(taken as int)),
        decreases n - taken,
    {
        let ghost remaining = beside(rest@, rest_keys@);
        let choice = rest.remove(0);
        let key = rest_keys.remove(0);
        let ghost item = KeyedModel { choice: choice@, key: key@ };
        proof {
            assert(remaining[0] == item);
            assert(beside(rest@, rest_keys@) =~= remaining.skip(1));
            assert(start.skip(taken as int).skip(1) =~= start.skip(taken + 1));
            assert(start.skip(taken as int)[0] == item);
            assert(start.take(taken + 1).drop_last() =~= start.take(taken as int));
            assert(start.take(taken + 1).last() == item);
        }
        let ghost list = beside(sorted@, sorted_keys@);
        let mut at: usize = sorted.len();
        assert(list.take(at as int) =~= list);
        assert(placed(list, item) =~= placed(list.take(at as int), item) + list.skip(at as int));
        while at > 0 && key_precedes(&key, &sorted_keys[at - 1])
            invariant
                at <= list.len(),
                list.len() == sorted@.len() == sorted_keys@.len(),
                list == beside(sorted@, sorted_keys@),
                key@ == item.key,
                placed(list, item) == placed(list.take(at as int), item) + list.skip(at as int),
            decreases at,
        {
            let ghost head = list.take(at as int);
            assert(head.last() == list[at - 1]);
            assert(listed_before(item, head.last()));
            assert(head.drop_last() =~= list.take(at - 1));
            assert(placed(head.drop_last(), item).push(head.last()) + list.skip(at as int)
                =~= placed(head.drop_last(), item) + list.skip(at - 1));
            at = at - 1;
        }
        proof {
            let head = list.take(at as int);
            if at > 0 {
                assert(head.last() == list[at - 1]);
                assert(!listed_before(item, head.last()));
            }
            assert(placed(head, item) == head.push(item));
            assert(head.push(item) + list.skip(at as int) =~= list.insert(at as int, item));
        }
        sorted.insert(at, choice);
        sorted_keys.insert(at, key);
        assert(beside(sorted@, sorted_keys@) =~= list.insert(at as int, item));
        taken = taken + 1;
    }
    assert(start.take(n as int) =~= start);
    assert(choices_view(sorted@) =~= unkeyed(beside(sorted@, sorted_keys@)));
    sorted
}

/// Sorts the choices by name in small letters, equal names in the order they came.
fn sort_by_name(choices: Vec<ProfileChoice>) -> (sorted: Vec<ProfileChoice>)
    ensures
        choices_view(sorted@) == by_name(choices_view(choices@)),
{
    let mut keys: Vec<String> = Vec::new();
    let mut i: usize = 0;
    while i < choices.len()
        invariant
            i <= choices@.len(),
            keys@.len() == i,
            forall|k: int|
                0 <= k < i ==> (#[trigger] keys@[k])@ == unicode_lowercase(choices@[k].name@),
        decreases choices@.len() - i,
    {
        keys.push(to_lowercase(choices[i].name.as_str()));
        i = i + 1;
    }
    assert(strings_view(keys@) =~= name_keys(choices_view(choices@)));
    sort_by_keys(choices, keys)
}

/// Whether one key comes before another.
fn key_precedes(a: &String, b: &String) -> (precedes: bool)
    ensures
        precedes == text_before(a@, b@),
{
    match a.order(b) {
        Order::Before => true,
        Order::Same => {
            proof {
                <String as Key>::before_irreflexive(a@);
            }
            false
        },
        Order::After => {
            proof {
                if text_before(a@, b@) {
                    <String as Key>::before_transitive(a@, b@, a@);
                    <String as Key>::before_irreflexive(a@);
                }
            }
            false
        },
    }
}

/// The name the agent reported for `app`, if it did.
pub open spec fn reported_name(seen: Seq<(Seq<char>, Seq<char>)>, app: Seq<char>) -> Option<
    Seq<char>,
>
    decreases seen.len(),
{
    if seen.len() == 0 {
        None
    } else if seen[0].0 == app {
        Some(seen[0].1)
    } else {
        reported_name(seen.skip(1), app)
    }
}

/// The name to show for `app`.
pub open spec fn shown_name(seen: Seq<(Seq<char>, Seq<char>)>, app: Seq<char>) -> Seq<char> {
    match reported_name(seen, app) {
        Some(name) => name,
        None => friendly_name(app),
    }
}

/// The name to show for `app`: the one the agent reported, else a readable part
/// of its identifier.
pub fn display_name_of(seen: &Vec<SeenApp>, app: &str) -> (name: String)
    ensures
        name@ == shown_name(seen_view(seen@), app@),
{
    let mut i: usize = 0;
    let ghost all = seen_view(seen@);
    assert(all.skip(0) =~= all);
    while i < seen.len()
        invariant
            i <= seen@.len(),
            all == seen_view(seen@),
            reported_name(all, app@) == reported_name(all.skip(i as int), app@),
        decreases seen@.len() - i,
    {
        assert(all.skip(i as int)[0] == all[i as int]);
        assert(all.skip(i as int).skip(1) =~= all.skip(i + 1));
        if same_text(seen[i].0.as_str(), app) {
            return seen[i].1.clone();
        }
        i = i + 1;
    }
    friendly_app_name(app)
}

/// Whether some choice is for `app`.
pub open spec fn lists(choices: Seq<ChoiceModel>, app: Seq<char>) -> bool {
    exists|i: int| 0 <= i < choices.len() && (#[trigger] choices[i]).app == app
}

/// Whether a stored profile is for `app`.
pub open spec fn stores(choices: Seq<ChoiceModel>, app: Seq<char>) -> bool {
    exists|i: int|
        0 <= i < choices.len() && (#[trigger] choices[i]).app == app && choices[i].persisted
}

/// Whether some choice is for `app`, stored or, with `stored_only`, stored.
fn has_choice(choices: &Vec<ProfileChoice>, app: &str, stored_only: bool) -> (found: bool)
    ensures
        found == if stored_only {
            stores(choices_view(choices@), app@)
        } else {
            lists(choices_view(choices@), app@)
        },
{
    let ghost all = choices_view(choices@);
    let mut i: usize = 0;
    while i < choices.len()
        invariant
            i <= choices@.len(),
            all == choices_view(choices@),
            forall|j: int|
                0 <= j < i ==> (#[trigger] all[j]).app != app@ || (stored_only
                    && !all[j].persisted),
        decreases choices@.len() - i,
    {
        if (!stored_only || choices[i].persisted) && same_text(choices[i].app.as_str(), app) {
            assert(all[i as int].app == app@);
            return true;
        }
        i = i + 1;
    }
    false
}

/// What the selector of a profile shows.
#[derive(Debug, PartialEq, Eq)]
pub struct ProfileScopeModel {
    /// The application whose profile is open, or none for the default.
    pub editing_app: Option<String>,
    /// The profiles, by name.
    pub profiles: Vec<ProfileChoice>,
    /// Recent applications without a profile, newest first.
    pub recent: Vec<ProfileChoice>,
    /// The applications the agent has seen.
    pub observed: Vec<String>,
    /// The applications a catalog may not offer: they have a profile, were seen,
    /// or are open.
    pub unavailable: Vec<String>,
}

/// The profiles to list: the stored ones and, when it is not among them, the one
/// that is open, by name.
pub open spec fn listed_profiles(
    editing: Option<Seq<char>>,
    profiles: Seq<ChoiceModel>,
    seen: Seq<(Seq<char>, Seq<char>)>,
) -> Seq<ChoiceModel> {
    match editing {
        Some(app) => if lists(profiles, app) {
            by_name(profiles)
        } else {
            by_name(
                profiles.push(
                    ChoiceModel { app, name: shown_name(seen, app), persisted: false },
                ),
            )
        },
        None => by_name(profiles),
    }
}

/// The recent applications to offer: without a stored profile, and not open.
pub open spec fn offered_recent(
    editing: Option<Seq<char>>,
    profiles: Seq<ChoiceModel>,
    seen: Seq<(Seq<char>, Seq<char>)>,
) -> Seq<ChoiceModel>
    decreases seen.len(),
{
    if seen.len() == 0 {
        Seq::empty()
    } else {
        let before = offered_recent(editing, profiles, seen.drop_last());
        let app = seen.last().0;
        if stores(profiles, app) || editing == Some(app) {
            before
        } else {
            before.push(ChoiceModel { app, name: seen.last().1, persisted: false })
        }
    }
}

/// The applications of the stored profiles.
pub open spec fn stored_apps(profiles: Seq<ChoiceModel>) -> Seq<Seq<char>>
    decreases profiles.len(),
{
    if profiles.len() == 0 {
        Seq::empty()
    } else if profiles.last().persisted {
        stored_apps(profiles.drop_last()).push(profiles.last().app)
    } else {
        stored_apps(profiles.drop_last())
    }
}

/// The views of a list of strings.
pub open spec fn strings_view(strings: Seq<String>) -> Seq<Seq<char>> {
    strings.map_values(|s: String| s@)
}

/// The text that may be missing, read as characters.
pub open spec fn text_view(text: Option<String>) -> Option<Seq<char>> {
    match text {
        Some(text) => Some(text@),
        None => None,
    }
}

/// What the selector shows, given the open profile, the stored profiles and the
/// applications seen in front, newest first.
pub fn profile_scope_model(
    editing_app: Option<String>,
    profiles: Vec<ProfileChoice>,
    recent_apps: &Vec<SeenApp>,
) -> (model: ProfileScopeModel)
    ensures
        text_view(model.editing_app) == text_view(editing_app),
        choices_view(model.profiles@) == listed_profiles(
            text_view(editing_app),
            choices_view(profiles@),
            seen_view(recent_apps@),
        ),
        choices_view(model.recent@) == offered_recent(
            text_view(editing_app),
            choices_view(model.profiles@),
            seen_view(recent_apps@),
        ),
        strings_view(model.observed@) == seen_view(recent_apps@).map_values(
            |app: (Seq<char>, Seq<char>)| app.0,
        ),
        strings_view(model.unavailable@) == stored_apps(choices_view(model.profiles@))
            + strings_view(model.observed@) + match editing_app {
            Some(app) => seq![app@],
            None => Seq::<Seq<char>>::empty(),
        },
{
    let ghost editing = text_view(editing_app);
    let ghost seen = seen_view(recent_apps@);
    let mut list = profiles;
    if let Some(app) = &editing_app {
        if !has_choice(&list, app.as_str(), false) {
            let ghost before = choices_view(list@);
            let choice = ProfileChoice {
                app: app.clone(),
                name: display_name_of(recent_apps, app.as_str()),
                persisted: false,
            };
            list.push(choice);
            assert(choices_view(list@) =~= before.push(choice@));
        }
    }
    let list = sort_by_name(list);
    let ghost listed = choices_view(list@);

    let mut unavailable: Vec<String> = Vec::new();
    let mut i: usize = 0;
    assert(listed.take(0) =~= Seq::<ChoiceModel>::empty());
    assert(strings_view(unavailable@) =~= stored_apps(listed.take(0)));
    while i < list.len()
        invariant
            i <= list@.len(),
            listed == choices_view(list@),
            strings_view(unavailable@) == stored_apps(listed.take(i as int)),
        decreases list@.len() - i,
    {
        proof {
            assert(listed.take(i + 1).drop_last() =~= listed.take(i as int));
            assert(listed.take(i + 1).last() == listed[i as int]);
        }
        if list[i].persisted {
            let ghost before = strings_view(unavailable@);
            unavailable.push(list[i].app.clone());
            assert(strings_view(unavailable@) =~= before.push(listed[i as int].app));
        }
        i = i + 1;
    }
    assert(listed.take(i as int) =~= listed);

    let mut recent: Vec<ProfileChoice> = Vec::new();
    let mut observed: Vec<String> = Vec::new();
    let ghost key = |app: (Seq<char>, Seq<char>)| app.0;
    let ghost stored = strings_view(unavailable@);
    let mut j: usize = 0;
    assert(seen.take(0) =~= Seq::<(Seq<char>, Seq<char>)>::empty());
    assert(choices_view(recent@) =~= offered_recent(editing, listed, seen.take(0)));
    assert(strings_view(observed@) =~= seen.take(0).map_values(key));
    assert(stored + strings_view(observed@) =~= stored);
    while j < recent_apps.len()
        invariant
            j <= recent_apps@.len(),
            seen == seen_view(recent_apps@),
            listed == choices_view(list@),
            editing == text_view(editing_app),
            key == (|app: (Seq<char>, Seq<char>)| app.0),
            choices_view(recent@) == offered_recent(editing, listed, seen.take(j as int)),
            strings_view(observed@) == seen.take(j as int).map_values(key),
            strings_view(unavailable@) == stored + strings_view(observed@),
        decreases recent_apps@.len() - j,
    {
        proof {
            assert(seen.take(j + 1).drop_last() =~= seen.take(j as int));
            assert(seen.take(j + 1).last() == seen[j as int]);
        }
        let app = &recent_apps[j].0;
        let ghost observed_before = strings_view(observed@);
        let ghost unavailable_before = strings_view(unavailable@);
        observed.push(app.clone());
        unavailable.push(app.clone());
        proof {
            assert(strings_view(observed@) =~= observed_before.push(app@));
            assert(strings_view(observed@) =~= seen.take(j + 1).map_values(key));
            assert(strings_view(unavailable@) =~= unavailable_before.push(app@));
            assert(strings_view(unavailable@) =~= stored + strings_view(observed@));
        }
        let open = match &editing_app {
            Some(editing) => same_text(editing.as_str(), app.as_str()),
            None => false,
        };
        if !open && !has_choice(&list, app.as_str(), true) {
            let ghost before = choices_view(recent@);
            let choice = ProfileChoice {
                app: app.clone(),
                name: recent_apps[j].1.clone(),
                persisted: false,
            };
            recent.push(choice);
            assert(choices_view(recent@) =~= before.push(choice@));
        }
        j = j + 1;
    }
    assert(seen.take(j as int) =~= seen);
    match &editing_app {
        Some(app) => {
            let ghost before = strings_view(unavailable@);
            unavailable.push(app.clone());
            assert(strings_view(unavailable@) =~= before + seq![app@]);
        },
        None => {
            assert(strings_view(unavailable@) + Seq::<Seq<char>>::empty() =~= strings_view(
                unavailable@,
            ));
        },
    }
    ProfileScopeModel { editing_app, profiles: list, recent, observed, unavailable }
}

/// An application with a stored profile is never offered again, nor is the one
/// that is open.
pub proof fn law_no_profile_is_offered_twice(
    editing: Option<Seq<char>>,
    profiles: Seq<ChoiceModel>,
    seen: Seq<(Seq<char>, Seq<char>)>,
)
    ensures
        forall|i: int|
            0 <= i < offered_recent(editing, profiles, seen).len() ==> {
                &&& !stores(
                    profiles,
                    (#[trigger] offered_recent(editing, profiles, seen)[i]).app,
                )
                &&& editing != Some(offered_recent(editing, profiles, seen)[i].app)
            },
    decreases seen.len(),
{
    if seen.len() > 0 {
        law_no_profile_is_offered_twice(editing, profiles, seen.drop_last());
        let before = offered_recent(editing, profiles, seen.drop_last());
        let all = offered_recent(editing, profiles, seen);
        assert forall|i: int| 0 <= i < all.len() implies !stores(profiles, (#[trigger] all[i]).app)
            && editing != Some(all[i].app) by {
            if i < before.len() {
                assert(all[i] == before[i]);
            }
        }
    }
}

/// A tab of the selector.
#[derive(Debug, PartialEq, Eq)]
pub struct ProfileTab {
    /// Identity of the element.
    pub id: String,
    /// The application, or none for the default profile.
    pub app: Option<String>,
    /// The name on it, or none for the default profile's own.
    pub label: Option<String>,
    /// Whether its profile is open.
    pub selected: bool,
}

/// The tab of the default profile.
pub fn default_tab(id_base: &str, model: &ProfileScopeModel) -> (tab: ProfileTab)
    ensures
        tab.id@ == id_base@ + ":default"@,
        tab.app is None,
        tab.label is None,
        tab.selected == (model.editing_app is None),
{
    let mut id: Vec<char> = Vec::new();
    push_text(&mut id, id_base);
    push_text(&mut id, ":default");
    assert(id@ =~= id_base@ + ":default"@);
    ProfileTab {
        id: string_of(&id),
        app: None,
        label: None,
        selected: model.editing_app.is_none(),
    }
}

/// Whether a tab is that of a listed profile, given the profile that is open.
pub open spec fn tab_of(
    tab: ProfileTab,
    id_base: Seq<char>,
    choice: ChoiceModel,
    editing: Option<Seq<char>>,
) -> bool {
    &&& tab.id@ == id_base + ":app:"@ + choice.app
    &&& text_view(tab.app) == Some(choice.app)
    &&& text_view(tab.label) == Some(choice.name)
    &&& tab.selected == (editing == Some(choice.app))
}

/// The tabs of the listed profiles, in their order.
pub fn profile_tabs(id_base: &str, model: &ProfileScopeModel) -> (tabs: Vec<ProfileTab>)
    ensures
        forall|i: int|
            0 <= i < tabs@.len() ==> tab_of(
                #[trigger] tabs@[i],
                id_base@,
                model.profiles@[i]@,
                text_view(model.editing_app),
            ),
        tabs@.len() == model.profiles@.len(),
        forall|i: int|
            0 <= i < tabs@.len() ==> {
                &&& (#[trigger] tabs@[i]).id@ == id_base@ + ":app:"@ + model.profiles@[i].app@
                &&& text_view(tabs@[i].app) == Some(model.profiles@[i].app@)
                &&& text_view(tabs@[i].label) == Some(model.profiles@[i].name@)
                &&& tabs@[i].selected == (text_view(model.editing_app) == Some(
                    model.profiles@[i].app@,
                ))
            },
{
    let mut tabs: Vec<ProfileTab> = Vec::new();
    let mut i: usize = 0;
    while i < model.profiles.len()
        invariant
            i <= model.profiles@.len(),
            tabs@.len() == i,
            forall|k: int|
                0 <= k < i ==> {
                    &&& (#[trigger] tabs@[k]).id@ == id_base@ + ":app:"@ + model.profiles@[k].app@
                    &&& text_view(tabs@[k].app) == Some(model.profiles@[k].app@)
                    &&& text_view(tabs@[k].label) == Some(model.profiles@[k].name@)
                    &&& tabs@[k].selected == (text_view(model.editing_app) == Some(
                        model.profiles@[k].app@,
                    ))
                },
        decreases model.profiles@.len() - i,
    {
        let app = &model.profiles[i].app;
        let mut id: Vec<char> = Vec::new();
        push_text(&mut id, id_base);
        push_text(&mut id, ":app:");
        push_text(&mut id, app.as_str());
        assert(id@ =~= id_base@ + ":app:"@ + app@);
        let selected = match &model.editing_app {
            Some(editing) => same_text(editing.as_str(), app.as_str()),
            None => false,
        };
        tabs.push(
            ProfileTab {
                id: string_of(&id),
                app: Some(app.clone()),
                label: Some(model.profiles[i].name.clone()),
                selected,
            },
        );
        i = i + 1;
    }
    tabs
}

/// The listed profile that is open, which gets the options menu.
pub fn selected_profile(model: &ProfileScopeModel) -> (profile: Option<&ProfileChoice>)
    ensures
        match profile {
            Some(p) => exists|i: int|
                0 <= i < model.profiles@.len() && model.profiles@[i] == *p && text_view(
                    model.editing_app,
                ) == Some((#[trigger] model.profiles@[i]).app@) && forall|j: int|
                    0 <= j < i ==> text_view(model.editing_app) != Some(
                        (#[trigger] model.profiles@[j]).app@,
                    ),
            None => forall|i: int|
                0 <= i < model.profiles@.len() ==> text_view(model.editing_app) != Some(
                    (#[trigger] model.profiles@[i]).app@,
                ),
        },
{
    match &model.editing_app {
        None => None,
        Some(editing) => {
            let mut i: usize = 0;
            while i < model.profiles.len()
                invariant
                    i <= model.profiles@.len(),
                    text_view(model.editing_app) == Some(editing@),
                    forall|j: int|
                        0 <= j < i ==> text_view(model.editing_app) != Some(
                            (#[trigger] model.profiles@[j]).app@,
                        ),
                decreases model.profiles@.len() - i,
            {
                if same_text(model.profiles[i].app.as_str(), editing.as_str()) {
                    return Some(&model.profiles[i]);
                }
                i = i + 1;
            }
            None
        },
    }
}

/// The first character of `name` that is not white space.
pub open spec fn first_visible(name: Seq<char>) -> Option<char>
    decreases name.len(),
{
    if name.len() == 0 {
        None
    } else if white_space(name[0]) {
        first_visible(name.skip(1))
    } else {
        Some(name[0])
    }
}

/// The letter that stands for an application without an icon.
pub fn application_initial(name: &str) -> (initial: char)
    ensures
        initial == match first_visible(name@) {
            Some(c) => c,
            None => '?',
        },
{
    let chars = chars_of(name);
    let mut i: usize = 0;
    assert(chars@.skip(0) =~= chars@);
    while i < chars.len()
        invariant
            i <= chars@.len(),
            chars@ == name@,
            first_visible(name@) == first_visible(chars@.skip(i as int)),
        decreases chars@.len() - i,
    {
        assert(chars@.skip(i as int).skip(1) =~= chars@.skip(i + 1));
        if !is_white_space(chars[i]) {
            return chars[i];
        }
        i = i + 1;
    }
    '?'
}

/// What the summary above the device says of the open profile.
#[derive(Clone, Copy, Debug, PartialEq, Eq, Structural)]
pub enum ProfileSummary {
    /// The default bindings are open.
    DefaultBindings,
    /// A profile without overrides.
    NoOverrides,
    /// A profile with one override.
    SingleOverride,
    /// A profile with this many overrides.
    OverrideCount(usize),
}

/// What the summary says, given whether a profile is open and how many overrides it has.
pub open spec fn summary_spec(open: bool, count: nat) -> ProfileSummary {
    if !open {
        ProfileSummary::DefaultBindings
    } else if count == 0 {
        ProfileSummary::NoOverrides
    } else if count == 1 {
        ProfileSummary::SingleOverride
    } else {
        ProfileSummary::OverrideCount(count as usize)
    }
}

/// What the summary says, given whether a profile is open and how many overrides
/// it has.
pub fn profile_summary(editing_app: Option<&str>, override_count: usize) -> (summary:
    ProfileSummary)
    ensures
        summary == summary_spec(editing_app is Some, override_count as nat),
        summary == if editing_app is None {
            ProfileSummary::DefaultBindings
        } else if override_count == 0 {
            ProfileSummary::NoOverrides
        } else if override_count == 1 {
            ProfileSummary::SingleOverride
        } else {
            ProfileSummary::OverrideCount(override_count)
        },
{
    match editing_app {
        None => ProfileSummary::DefaultBindings,
        Some(_) => match override_count {
            0 => ProfileSummary::NoOverrides,
            1 => ProfileSummary::SingleOverride,
            count => ProfileSummary::OverrideCount(count),
        },
    }
}

/// What the options menu can do to a profile.
#[derive(Clone, Copy, Debug, PartialEq, Eq, Structural)]
pub enum ProfileCommand {
    /// Forget the button overrides and keep the editor open.
    ResetButtons,
    /// Forget the button overrides.
    RemoveButtons,
    /// Forget the ring layout and keep the editor open.
    ResetRing,
    /// Forget the ring layout.
    RemoveRing,
    /// Forget everything stored for the application.
    RemoveAll,
}

/// What a confirmation asks.
#[derive(Clone, Copy, Debug, PartialEq, Eq, Structural)]
pub enum ProfileQuestion {
    /// Remove everything?
    RemoveAllProfiles,
    /// Reset the profile?
    ResetProfile,
    /// Remove the profile?
    RemoveProfile,
}

/// What choosing a command leads to.
#[derive(Clone, Copy, Debug, PartialEq, Eq, Structural)]
pub enum Confirmation {
    /// It is done at once.
    ApplyAtOnce,
    /// A dialog asks first.
    Ask(ProfileQuestion),
}

impl ProfileCommand {
    /// What the dialog asks.
    pub open spec fn question_spec(self) -> ProfileQuestion {
        match self {
            ProfileCommand::RemoveAll => ProfileQuestion::RemoveAllProfiles,
            ProfileCommand::ResetButtons => ProfileQuestion::ResetProfile,
            ProfileCommand::ResetRing => ProfileQuestion::ResetProfile,
            _ => ProfileQuestion::RemoveProfile,
        }
    }

    /// What choosing the command leads to.
    pub open spec fn confirmation(self, persisted: bool) -> Confirmation {
        if !persisted && self != ProfileCommand::RemoveAll {
            Confirmation::ApplyAtOnce
        } else {
            Confirmation::Ask(self.question_spec())
        }
    }

    /// What choosing the command leads to. A draft has nothing to lose, except
    /// that removing everything may reach what the other editor has stored.
    pub fn confirm(self, persisted: bool) -> (confirmation: Confirmation)
        ensures
            confirmation == self.confirmation(persisted),
            confirmation == if !persisted && self != ProfileCommand::RemoveAll {
                Confirmation::ApplyAtOnce
            } else {
                Confirmation::Ask(self.question_spec())
            },
    {
        let all = match self {
            ProfileCommand::RemoveAll => true,
            _ => false,
        };
        if !persisted && !all {
            return Confirmation::ApplyAtOnce;
        }
        Confirmation::Ask(
            match self {
                ProfileCommand::RemoveAll => ProfileQuestion::RemoveAllProfiles,
                ProfileCommand::ResetButtons => ProfileQuestion::ResetProfile,
                ProfileCommand::ResetRing => ProfileQuestion::ResetProfile,
                _ => ProfileQuestion::RemoveProfile,
            },
        )
    }
}

/// The options menu of a profile.
#[derive(Clone, Copy, Debug, PartialEq, Eq, Structural)]
pub struct ProfileOptions {
    /// Whether the profile can be reset.
    pub reset_enabled: bool,
    /// Whether removing it opens a dialog.
    pub remove_asks: bool,
}

/// The options menu of a profile: only what is stored can be reset, and only
/// that is asked about.
pub fn profile_options(profile: &ProfileChoice) -> (options: ProfileOptions)
    ensures
        options == (ProfileOptions {
            reset_enabled: profile.persisted,
            remove_asks: profile.persisted,
        }),
{
    ProfileOptions { reset_enabled: profile.persisted, remove_asks: profile.persisted }
}

/// What the selector of a profile lays out: the row of tabs, the default profile
/// first, and a menu for the profile that is open.
#[derive(Debug, PartialEq, Eq)]
pub struct ProfileScopeContent {
    /// Identity of the row.
    pub row_id: String,
    /// The tab of the default profile.
    pub default_tab: ProfileTab,
    /// The tabs of the listed profiles.
    pub tabs: Vec<ProfileTab>,
    /// The name of the open profile and what its menu can do.
    pub menu: Option<(String, ProfileOptions)>,
}

/// Lays a selector out. The menu is there exactly while a listed profile is open.
pub fn profile_scope_content(id_base: &str, model: &ProfileScopeModel) -> (content:
    ProfileScopeContent)
    ensures
        forall|i: int|
            0 <= i < content.tabs@.len() ==> tab_of(
                #[trigger] content.tabs@[i],
                id_base@,
                model.profiles@[i]@,
                text_view(model.editing_app),
            ),
        content.row_id@ == id_base@ + ":tabs-scroll"@,
        content.default_tab.id@ == id_base@ + ":default"@,
        content.default_tab.selected == (model.editing_app is None),
        content.default_tab.app is None && content.default_tab.label is None,
        content.tabs@.len() == model.profiles@.len(),
        forall|i: int|
            0 <= i < content.tabs@.len() ==> {
                &&& (#[trigger] content.tabs@[i]).id@ == id_base@ + ":app:"@
                    + model.profiles@[i].app@
                &&& text_view(content.tabs@[i].app) == Some(model.profiles@[i].app@)
                &&& text_view(content.tabs@[i].label) == Some(model.profiles@[i].name@)
                &&& content.tabs@[i].selected == (text_view(model.editing_app) == Some(
                    model.profiles@[i].app@,
                ))
            },
        match content.menu {
            Some((name, options)) => exists|i: int|
                0 <= i < model.profiles@.len() && text_view(model.editing_app) == Some(
                    (#[trigger] model.profiles@[i]).app@,
                ) && (forall|j: int|
                    0 <= j < i ==> text_view(model.editing_app) != Some(
                        (#[trigger] model.profiles@[j]).app@,
                    )) && name@ == model.profiles@[i].name@ && options == (ProfileOptions {
                    reset_enabled: model.profiles@[i].persisted,
                    remove_asks: model.profiles@[i].persisted,
                }),
            None => forall|i: int|
                0 <= i < model.profiles@.len() ==> text_view(model.editing_app) != Some(
                    (#[trigger] model.profiles@[i]).app@,
                ),
        },
{
    let mut row_id: Vec<char> = Vec::new();
    push_text(&mut row_id, id_base);
    push_text(&mut row_id, ":tabs-scroll");
    assert(row_id@ =~= id_base@ + ":tabs-scroll"@);
    let menu = match selected_profile(model) {
        Some(profile) => Some((profile.name.clone(), profile_options(profile))),
        None => None,
    };
    ProfileScopeContent {
        row_id: string_of(&row_id),
        default_tab: default_tab(id_base, model),
        tabs: profile_tabs(id_base, model),
        menu,
    }
}

} // verus!
