//! What the window lists and names, said of what it lists it from.

use vstd::prelude::*;
use crate::desktop::assets::{
    corrected_name, ends_with, entry_fits, first_fit, first_found, joined, lookup_rules,
    model_words, product_rules, sort_word, variant_word, EntryModel, Rule, RuleModel,
};
use crate::desktop::events::{concerns_panel, emissions, Emission, Event, EventModel};
use crate::desktop::profiles::{
    by_key, by_name, first_visible, friendly_name, last_part, last_run,
    law_profiles_are_listed_by_name, listed_before, listed_profiles, offered_recent, placed,
    reported_name, shown_name, stored_apps, summary_spec, tab_of, without_exe, without_trailing,
    ChoiceModel, Confirmation, KeyedModel, ProfileCommand, ProfileQuestion, ProfileSummary,
    ProfileTab, Separator,
};
use crate::desktop::requests::{
    answered, pairing_report, refusal, AgentLink, GuiUpdate, PairingCommandError, PairingFailure,
    SmartShiftStatus, SmartShiftWriteStatus, Unavailable,
};
use crate::device::pointer_speed::WriteError;
use crate::order::text_before;
use crate::text::{hex_byte, hex_word, white_space};

verus! {

proof fn lemma_last_run(front: Seq<char>, name: Seq<char>, separator: Separator)
    requires
        forall|i: int| 0 <= i < name.len() ==> !separator.matches_spec(#[trigger] name[i]),
        front.len() > 0 ==> separator.matches_spec(front.last()),
    ensures
        last_run(front + name, separator) == name,
    decreases name.len(),
{
    let all = front + name;
    if name.len() == 0 {
        assert(all =~= front);
        assert(name =~= Seq::empty());
    } else {
        let rest = name.drop_last();
        assert forall|i: int| 0 <= i < rest.len() implies !separator.matches_spec(
            #[trigger] rest[i],
        ) by {
            assert(rest[i] == name[i]);
        }
        lemma_last_run(front, rest, separator);
        assert(all.drop_last() =~= front + rest);
        assert(all.last() == name[name.len() - 1]);
        assert(rest.push(name.last()) =~= name);
    }
}

proof fn lemma_without_trailing(s: Seq<char>, tail: Seq<char>, separator: Separator)
    requires
        forall|i: int| 0 <= i < tail.len() ==> separator.matches_spec(#[trigger] tail[i]),
        s.len() > 0,
        !separator.matches_spec(s.last()),
    ensures
        without_trailing(s + tail, separator) == s,
    decreases tail.len(),
{
    let all = s + tail;
    if tail.len() == 0 {
        assert(all =~= s);
    } else {
        let rest = tail.drop_last();
        assert forall|i: int| 0 <= i < rest.len() implies separator.matches_spec(
            #[trigger] rest[i],
        ) by {
            assert(rest[i] == tail[i]);
        }
        lemma_without_trailing(s, rest, separator);
        assert(all.drop_last() =~= s + rest);
        assert(all.last() == tail[tail.len() - 1]);
    }
}

/// The last part of a path or of a dotted name is what stands behind its last
/// separator, whatever stands before and however many separators stand behind.
pub proof fn law_the_last_part_is_taken(
    front: Seq<char>,
    name: Seq<char>,
    tail: Seq<char>,
    separator: Separator,
)
    requires
        name.len() > 0,
        forall|i: int| 0 <= i < name.len() ==> !separator.matches_spec(#[trigger] name[i]),
        front.len() > 0 ==> separator.matches_spec(front.last()),
        forall|i: int| 0 <= i < tail.len() ==> separator.matches_spec(#[trigger] tail[i]),
    ensures
        last_part(front + name + tail, separator) == name,
        Separator::Dot.matches_spec('.') && !Separator::Dot.matches_spec('/'),
        Separator::Slash.matches_spec('/') && Separator::Slash.matches_spec('\\')
            && !Separator::Slash.matches_spec('.'),
{
    let s = front + name;
    assert(s.last() == name[name.len() - 1]);
    lemma_without_trailing(s, tail, separator);
    lemma_last_run(front, name, separator);
}

/// An application that is only known by its executable is shown by the name of the
/// file without its directory and without its ending.
pub proof fn law_an_executable_is_shown_by_its_name(directory: Seq<char>, name: Seq<char>)
    requires
        name.len() > 0,
        forall|i: int| 0 <= i < name.len() ==> #[trigger] name[i] != '/' && name[i] != '\\',
        directory.len() > 0 ==> directory.last() == '/' || directory.last() == '\\',
        !(name.len() >= 4 && name[name.len() - 4] == '.' && name[name.len() - 3] == 'e'
            && name[name.len() - 2] == 'x' && name[name.len() - 1] == 'e'),
    ensures
        friendly_name(seq!['e', 'x', 'e', ':'] + (directory + (name + seq!['.', 'e', 'x', 'e'])))
            == name,
{
    let ending = seq!['.', 'e', 'x', 'e'];
    let file = name + ending;
    let path = directory + file;
    let identifier = seq!['e', 'x', 'e', ':'] + path;
    assert(identifier.skip(4) =~= path);
    assert forall|i: int| 0 <= i < file.len() implies !Separator::Slash.matches_spec(
        #[trigger] file[i],
    ) by {
        if i < name.len() {
            assert(file[i] == name[i]);
        } else {
            assert(file[i] == ending[i - name.len()]);
        }
    }
    law_the_last_part_is_taken(directory, file, Seq::empty(), Separator::Slash);
    assert(path + Seq::<char>::empty() =~= path);
    assert(file.take(file.len() - 4) =~= name);
    assert(without_exe(file) == without_exe(name));
}

/// An application that is only known by a dotted identifier is shown by its last part.
pub proof fn law_an_identifier_is_shown_by_its_last_part(front: Seq<char>, name: Seq<char>)
    requires
        name.len() > 0,
        forall|i: int| 0 <= i < name.len() ==> #[trigger] name[i] != '.',
        front.len() > 0 ==> front.last() == '.',
        !((front + name).len() >= 4 && (front + name)[0] == 'e' && (front + name)[1] == 'x' && (
        front + name)[2] == 'e' && (front + name)[3] == ':'),
    ensures
        friendly_name(front + name) == name,
{
    law_the_last_part_is_taken(front, name, Seq::empty(), Separator::Dot);
    assert(front + name + Seq::<char>::empty() =~= front + name);
}

/// An application is shown by the name it reported first, or else by what its
/// identifier says.
pub proof fn law_a_reported_name_is_shown(
    seen: Seq<(Seq<char>, Seq<char>)>,
    app: Seq<char>,
    i: int,
)
    ensures
        0 <= i < seen.len() && seen[i].0 == app && (forall|k: int|
            0 <= k < i ==> (#[trigger] seen[k]).0 != app) ==> shown_name(seen, app) == seen[i].1,
        (forall|k: int| 0 <= k < seen.len() ==> (#[trigger] seen[k]).0 != app) ==> shown_name(
            seen,
            app,
        ) == friendly_name(app),
{
    lemma_reported(seen, app, i);
}

proof fn lemma_reported(seen: Seq<(Seq<char>, Seq<char>)>, app: Seq<char>, i: int)
    ensures
        0 <= i < seen.len() && seen[i].0 == app && (forall|k: int|
            0 <= k < i ==> (#[trigger] seen[k]).0 != app) ==> reported_name(seen, app) == Some(
            seen[i].1,
        ),
        (forall|k: int| 0 <= k < seen.len() ==> (#[trigger] seen[k]).0 != app) ==> reported_name(
            seen,
            app,
        ) is None,
    decreases seen.len(),
{
    if seen.len() > 0 {
        let rest = seen.skip(1);
        lemma_reported(rest, app, i - 1);
        if forall|k: int| 0 <= k < seen.len() ==> (#[trigger] seen[k]).0 != app {
            assert(seen[0].0 != app);
            assert forall|k: int| 0 <= k < rest.len() implies (#[trigger] rest[k]).0 != app by {
                assert(rest[k] == seen[k + 1]);
            }
        }
        if 0 < i < seen.len() && seen[i].0 == app && (forall|k: int|
            0 <= k < i ==> (#[trigger] seen[k]).0 != app) {
            assert(seen[0].0 != app);
            assert(rest[i - 1] == seen[i]);
            assert forall|k: int| 0 <= k < i - 1 implies (#[trigger] rest[k]).0 != app by {
                assert(rest[k] == seen[k + 1]);
            }
        }
    }
}

/// The profiles that are listed are the stored ones, and the one that is open, not as
/// a stored one, where it is not among them; each is there as often as it was.
pub proof fn law_the_open_profile_is_listed(
    editing: Option<Seq<char>>,
    profiles: Seq<ChoiceModel>,
    seen: Seq<(Seq<char>, Seq<char>)>,
)
    ensures
        ({
            let listed = listed_profiles(editing, profiles, seen);
            let missing = editing is Some && forall|i: int|
                0 <= i < profiles.len() ==> (#[trigger] profiles[i]).app != editing->0;
            &&& !missing ==> listed.to_multiset() == profiles.to_multiset()
            &&& missing ==> listed.to_multiset() == profiles.push(
                ChoiceModel {
                    app: editing->0,
                    name: shown_name(seen, editing->0),
                    persisted: false,
                },
            ).to_multiset()
        }),
{
    law_profiles_are_listed_by_name(profiles);
    if let Some(app) = editing {
        law_profiles_are_listed_by_name(
            profiles.push(
                ChoiceModel { app, name: shown_name(seen, app), persisted: false },
            ),
        );
    }
}

/// The recent applications that are offered are those that were seen, in their order
/// and under the names they reported, without those that have a stored profile and the
/// one that is open; none of them counts as stored.
pub proof fn law_recent_applications_are_offered(
    editing: Option<Seq<char>>,
    profiles: Seq<ChoiceModel>,
    seen: Seq<(Seq<char>, Seq<char>)>,
)
    ensures
        offered_recent(editing, profiles, seen) == seen.filter(
            |app: (Seq<char>, Seq<char>)|
                editing != Some(app.0) && !exists|i: int|
                    0 <= i < profiles.len() && (#[trigger] profiles[i]).app == app.0
                        && profiles[i].persisted,
        ).map_values(
            |app: (Seq<char>, Seq<char>)|
                ChoiceModel { app: app.0, name: app.1, persisted: false },
        ),
    decreases seen.len(),
{
    reveal(Seq::filter);
    let keep = |app: (Seq<char>, Seq<char>)|
        editing != Some(app.0) && !exists|i: int|
            0 <= i < profiles.len() && (#[trigger] profiles[i]).app == app.0
                && profiles[i].persisted;
    let shown = |app: (Seq<char>, Seq<char>)|
        ChoiceModel { app: app.0, name: app.1, persisted: false };
    if seen.len() > 0 {
        law_recent_applications_are_offered(editing, profiles, seen.drop_last());
        let before = seen.drop_last().filter(keep);
        assert(before.push(seen.last()).map_values(shown) =~= before.map_values(shown).push(
            shown(seen.last()),
        ));
        assert(offered_recent(editing, profiles, seen) =~= seen.filter(keep).map_values(shown));
    } else {
        assert(offered_recent(editing, profiles, seen) =~= seen.filter(keep).map_values(shown));
    }
}

/// The stored applications of a list are those of its stored profiles, in order.
pub proof fn law_stored_applications_are_those_of_stored_profiles(profiles: Seq<ChoiceModel>)
    ensures
        stored_apps(profiles) == profiles.filter(
            |choice: ChoiceModel| choice.persisted,
        ).map_values(|choice: ChoiceModel| choice.app),
    decreases profiles.len(),
{
    reveal(Seq::filter);
    let keep = |choice: ChoiceModel| choice.persisted;
    let app = |choice: ChoiceModel| choice.app;
    if profiles.len() > 0 {
        law_stored_applications_are_those_of_stored_profiles(profiles.drop_last());
        let before = profiles.drop_last().filter(keep);
        assert(before.push(profiles.last()).map_values(app) =~= before.map_values(app).push(
            profiles.last().app,
        ));
        assert(stored_apps(profiles) =~= profiles.filter(keep).map_values(app));
    } else {
        assert(stored_apps(profiles) =~= profiles.filter(keep).map_values(app));
    }
}

/// The first visible character of a name is the first that is no white space; a name
/// of white space has none.
pub proof fn law_the_first_visible_character(lead: Seq<char>, c: char, tail: Seq<char>)
    requires
        forall|i: int| 0 <= i < lead.len() ==> white_space(#[trigger] lead[i]),
        !white_space(c),
    ensures
        first_visible(lead.push(c) + tail) == Some(c),
        first_visible(lead) is None,
    decreases lead.len(),
{
    let all = lead.push(c) + tail;
    if lead.len() == 0 {
        assert(all[0] == c);
    } else {
        let rest = lead.skip(1);
        assert forall|i: int| 0 <= i < rest.len() implies white_space(#[trigger] rest[i]) by {
            assert(rest[i] == lead[i + 1]);
        }
        law_the_first_visible_character(rest, c, tail);
        assert(all[0] == lead[0]);
        assert(all.skip(1) =~= rest.push(c) + tail);
    }
}

/// Resetting asks one question, removing another, and removing everything a third.
pub proof fn law_every_command_asks_its_question(command: ProfileCommand)
    ensures
        (command.question_spec() == ProfileQuestion::RemoveAllProfiles) == (command
            == ProfileCommand::RemoveAll),
        (command.question_spec() == ProfileQuestion::ResetProfile) == (command
            == ProfileCommand::ResetButtons || command == ProfileCommand::ResetRing),
{
}

/// A command on what is stored asks first; one on a draft is applied at once, except
/// that removing everything always asks.
pub proof fn law_only_drafts_go_without_a_question(command: ProfileCommand, persisted: bool)
    ensures
        persisted ==> command.confirmation(persisted) == Confirmation::Ask(command.question_spec()),
        ProfileCommand::RemoveAll.confirmation(persisted) == Confirmation::Ask(
            ProfileQuestion::RemoveAllProfiles,
        ),
        !persisted && command != ProfileCommand::RemoveAll ==> command.confirmation(persisted)
            == Confirmation::ApplyAtOnce,
{
}

/// The summary of an open profile counts its overrides; without one it names the
/// default bindings.
pub proof fn law_the_summary_counts_the_overrides(count: nat)
    ensures
        summary_spec(false, count) == ProfileSummary::DefaultBindings,
        summary_spec(true, 0) == ProfileSummary::NoOverrides,
        summary_spec(true, 1) == ProfileSummary::SingleOverride,
        2 <= count <= usize::MAX ==> summary_spec(true, count) == ProfileSummary::OverrideCount(
            count as usize,
        ),
{
}

/// A tab opens its own profile under its own name, and of the tabs of two different
/// applications at most one is selected, which is that of the open profile.
pub proof fn law_a_tab_opens_its_own_profile(
    tab: ProfileTab,
    other: ProfileTab,
    id_base: Seq<char>,
    choice: ChoiceModel,
    beside: ChoiceModel,
    editing: Option<Seq<char>>,
)
    requires
        tab_of(tab, id_base, choice, editing),
        tab_of(other, id_base, beside, editing),
        choice.app != beside.app,
    ensures
        tab.app is Some && tab.app->0@ == choice.app,
        tab.label is Some && tab.label->0@ == choice.name,
        editing is None ==> !tab.selected && !other.selected,
        editing == Some(choice.app) ==> tab.selected && !other.selected,
        !(tab.selected && other.selected),
        tab.id@ != other.id@,
{
    let front = id_base + ":app:"@;
    assert(tab.id@.skip(front.len() as int) =~= choice.app);
    assert(other.id@.skip(front.len() as int) =~= beside.app);
}

/// Events are announced one by one in their order; a change of language is followed at
/// once by what makes the window speak it, and nothing else is.
pub proof fn law_events_are_announced_in_order(first: Seq<EventModel>, then: Seq<EventModel>)
    ensures
        emissions(first + then) == emissions(first) + emissions(then),
        then.len() == 1 && then[0] != EventModel::LanguageChanged ==> emissions(then) == seq![
            Emission::Announce(then[0]),
        ],
        then.len() == 1 && then[0] == EventModel::LanguageChanged ==> emissions(then) == seq![
            Emission::Announce(then[0]),
            Emission::Relocalize,
        ],
        then.len() == 0 ==> emissions(then).len() == 0,
    decreases then.len(),
{
    let all = first + then;
    if then.len() == 0 {
        assert(all =~= first);
        assert(emissions(first) + emissions(then) =~= emissions(first));
    } else {
        let rest = then.drop_last();
        law_events_are_announced_in_order(first, rest);
        assert(all.drop_last() =~= first + rest);
        assert(all.last() == then.last());
        assert(emissions(all) =~= emissions(first) + emissions(then));
        if then.len() == 1 {
            assert(rest =~= Seq::empty());
            assert(emissions(rest) =~= Seq::empty());
            if then[0] == EventModel::LanguageChanged {
                assert(emissions(then) =~= seq![
                    Emission::Announce(then[0]),
                    Emission::Relocalize,
                ]);
            } else {
                assert(emissions(then) =~= seq![Emission::Announce(then[0])]);
            }
        }
    }
}

/// A panel is concerned by every change of what is listed or selected, and otherwise
/// only by what it is about: by what is about no device, and by what is about its own.
pub proof fn law_a_panel_is_concerned_by_its_own_device(
    current: Option<Seq<char>>,
    key: Seq<char>,
    on_topic: bool,
)
    ensures
        concerns_panel(current, Event::InventoryChanged, on_topic),
        concerns_panel(current, Event::DeviceSelected(key), on_topic),
        concerns_panel(current, Event::BindingsChanged(key), on_topic) == (on_topic && current
            == Some(key)),
        concerns_panel(current, Event::DpiChanged(key), on_topic) == (on_topic && current == Some(
            key,
        )),
        concerns_panel(current, Event::SmartShiftChanged(key), on_topic) == (on_topic && current
            == Some(key)),
        concerns_panel(current, Event::PresenterChanged(key), on_topic) == (on_topic && current
            == Some(key)),
        concerns_panel(current, Event::LightingChanged(key), on_topic) == (on_topic && current
            == Some(key)),
        concerns_panel(current, Event::DeviceConfigChanged(key), on_topic) == (on_topic && current
            == Some(key)),
        concerns_panel(current, Event::SettingsChanged, on_topic) == on_topic,
        concerns_panel(current, Event::ForegroundChanged, on_topic) == on_topic,
        concerns_panel(current, Event::AgentChanged, on_topic) == on_topic,
{
}

/// The link to the agent is what the last word on it said; answers to commands say
/// nothing of it.
pub proof fn law_the_last_word_on_the_link_holds(link: AgentLink, update: GuiUpdate)
    ensures
        update matches GuiUpdate::Snapshot(snapshot) ==> link.superseded(update)
            == AgentLink::Ready(snapshot.status),
        update is Unreachable ==> link.superseded(update) is Unreachable,
        update is OutdatedGui ==> link.superseded(update) is OutdatedGui,
        update is LightCommandResult || update is ConfigReloadResult || update
            is PairingUndeliverable ==> link.superseded(update) == link,
{
}

/// A write is confirmed exactly when its own reply reads back what was written, and
/// failed when its own reply reads anything else or nothing; the replies of other
/// writes, and replies after the end, change nothing.
pub proof fn law_a_write_is_settled_by_its_own_reply(
    expected: SmartShiftStatus,
    write_id: u64,
    reply_to: u64,
    read: Option<SmartShiftStatus>,
)
    ensures
        ({
            let write = SmartShiftWriteStatus::Applying { expected, write_id };
            &&& reply_to != write_id ==> write.settled(reply_to, read) == write
            &&& reply_to == write_id && read == Some(expected) ==> write.settled(reply_to, read)
                is Confirmed
            &&& reply_to == write_id && read != Some(expected) ==> write.settled(reply_to, read)
                is Failed
            &&& SmartShiftWriteStatus::Confirmed.settled(reply_to, read) is Confirmed
            &&& SmartShiftWriteStatus::Failed.settled(reply_to, read) is Failed
        }),
{
}

/// An answer of the agent is passed on as it is, and a lost link is one of the errors;
/// only a refusal of the agent itself is reported as a refusal.
pub proof fn law_answers_are_passed_on(
    written: Result<(), WriteError>,
    paired: Result<(), PairingCommandError>,
)
    ensures
        answered::<()>(Ok(written)) == written,
        answered::<()>(Err(Unavailable)) == Err::<(), WriteError>(WriteError::AgentUnavailable),
        refusal(Ok(written)) == match written {
            Ok(_) => None,
            Err(error) => Some(error),
        },
        refusal(Err(Unavailable)) is None,
        pairing_report(Ok(Ok(()))) is None,
        paired matches Err(refused) ==> pairing_report(Ok(paired)) == Some(
            GuiUpdate::PairingUndeliverable(PairingFailure::Refused(refused)),
        ),
        pairing_report(Err(Unavailable)) == Some(
            GuiUpdate::PairingUndeliverable(PairingFailure::AgentRestarted),
        ),
{
}

/// An entry fits a rule by the name it shows, or by one of the models it lists: by the
/// whole model, or by the product number the model ends in.
pub proof fn law_an_entry_fits_by_one_of_its_models(
    entry: EntryModel,
    wanted: Seq<char>,
    front: Seq<char>,
    i: int,
)
    ensures
        entry_fits(Rule::Name(wanted), entry) == (entry.display_name == wanted),
        entry.model_id == wanted ==> entry_fits(Rule::Model(wanted), entry) && entry_fits(
            Rule::Product(wanted),
            entry,
        ),
        0 <= i < entry.model_ids.len() && entry.model_ids[i] == wanted ==> entry_fits(
            Rule::Model(wanted),
            entry,
        ),
        entry.model_id == front + wanted ==> entry_fits(Rule::Product(wanted), entry),
        0 <= i < entry.model_ids.len() && entry.model_ids[i] == front + wanted ==> entry_fits(
            Rule::Product(wanted),
            entry,
        ),
        entry_fits(Rule::Model(wanted), entry) ==> entry.model_id == wanted
            || entry.model_ids.contains(wanted),
        ends_with(front, wanted) ==> front.len() >= wanted.len() && forall|k: int|
            0 <= k < wanted.len() ==> front[front.len() - wanted.len() + k] == wanted[k],
{
    assert((front + wanted).skip((front + wanted).len() - wanted.len()) =~= wanted);
    assert(wanted.skip(wanted.len() - wanted.len()) =~= wanted);
    if ends_with(front, wanted) {
        let tail = front.skip(front.len() - wanted.len());
        assert forall|k: int| 0 <= k < wanted.len() implies front[front.len() - wanted.len() + k]
            == wanted[k] by {
            assert(tail[k] == wanted[k]);
        }
    }
    if entry_fits(Rule::Model(wanted), entry) && entry.model_id != wanted {
        let k = choose|k: int|
            0 <= k < entry.model_ids.len() && crate::desktop::assets::model_fits(
                Rule::Model(wanted),
                #[trigger] entry.model_ids[k],
            );
        assert(entry.model_ids[k] == wanted);
    }
}

/// A rule finds the first entry that fits it, and none where none does.
pub proof fn law_a_rule_finds_the_first_entry(
    depots: Seq<Seq<char>>,
    devices: Map<Seq<char>, EntryModel>,
    rule: RuleModel,
    i: int,
)
    ensures
        0 <= i < depots.len() && entry_fits(rule, devices[depots[i]]) && (forall|k: int|
            0 <= k < i ==> !entry_fits(rule, devices[#[trigger] depots[k]])) ==> first_fit(
            depots,
            devices,
            rule,
        ) == Some(depots[i]),
        (forall|k: int|
            0 <= k < depots.len() ==> !entry_fits(rule, devices[#[trigger] depots[k]]))
            ==> first_fit(depots, devices, rule) is None,
    decreases depots.len(),
{
    if depots.len() > 0 {
        let rest = depots.skip(1);
        law_a_rule_finds_the_first_entry(rest, devices, rule, i - 1);
        if forall|k: int|
            0 <= k < depots.len() ==> !entry_fits(rule, devices[#[trigger] depots[k]]) {
            assert(!entry_fits(rule, devices[depots[0]]));
            assert forall|k: int| 0 <= k < rest.len() implies !entry_fits(
                rule,
                devices[#[trigger] rest[k]],
            ) by {
                assert(rest[k] == depots[k + 1]);
            }
        }
        if 0 < i < depots.len() && entry_fits(rule, devices[depots[i]]) && (forall|k: int|
            0 <= k < i ==> !entry_fits(rule, devices[#[trigger] depots[k]])) {
            assert(!entry_fits(rule, devices[depots[0]]));
            assert(rest[i - 1] == depots[i]);
            assert forall|k: int| 0 <= k < i - 1 implies !entry_fits(
                rule,
                devices[#[trigger] rest[k]],
            ) by {
                assert(rest[k] == depots[k + 1]);
            }
        }
    }
}

/// Rules are tried in their order: the first that finds anything says what is found.
pub proof fn law_the_first_rule_that_finds_wins(
    depots: Seq<Seq<char>>,
    devices: Map<Seq<char>, EntryModel>,
    rules: Seq<RuleModel>,
    i: int,
)
    ensures
        0 <= i < rules.len() && first_fit(depots, devices, rules[i]) is Some && (forall|k: int|
            0 <= k < i ==> first_fit(depots, devices, #[trigger] rules[k]) is None) ==> first_found(
            depots,
            devices,
            rules,
        ) == first_fit(depots, devices, rules[i]),
        (forall|k: int|
            0 <= k < rules.len() ==> first_fit(depots, devices, #[trigger] rules[k]) is None)
            ==> first_found(depots, devices, rules) is None,
    decreases rules.len(),
{
    if rules.len() > 0 {
        let rest = rules.skip(1);
        law_the_first_rule_that_finds_wins(depots, devices, rest, i - 1);
        if forall|k: int|
            0 <= k < rules.len() ==> first_fit(depots, devices, #[trigger] rules[k]) is None {
            assert(first_fit(depots, devices, rules[0]) is None);
            assert forall|k: int| 0 <= k < rest.len() implies first_fit(
                depots,
                devices,
                #[trigger] rest[k],
            ) is None by {
                assert(rest[k] == rules[k + 1]);
            }
        }
        if 0 < i < rules.len() && first_fit(depots, devices, rules[i]) is Some && (forall|k: int|
            0 <= k < i ==> first_fit(depots, devices, #[trigger] rules[k]) is None) {
            assert(first_fit(depots, devices, rules[0]) is None);
            assert(rest[i - 1] == rules[i]);
            assert forall|k: int| 0 <= k < i - 1 implies first_fit(
                depots,
                devices,
                #[trigger] rest[k],
            ) is None by {
                assert(rest[k] == rules[k + 1]);
            }
        }
    }
}

proof fn lemma_product_rules(ids: Seq<u16>, variant: Option<u8>)
    ensures
        product_rules(ids, variant) == ids.filter(|id: u16| id != 0).map_values(
            |id: u16|
                match variant {
                    Some(variant) => Rule::Model(hex_byte(variant) + hex_word(id)),
                    None => Rule::Product(hex_word(id)),
                },
        ),
    decreases ids.len(),
{
    reveal(Seq::filter);
    let keep = |id: u16| id != 0;
    let rule = |id: u16|
        match variant {
            Some(variant) => Rule::Model(hex_byte(variant) + hex_word(id)),
            None => Rule::Product(hex_word(id)),
        };
    if ids.len() > 0 {
        lemma_product_rules(ids.drop_last(), variant);
        let before = ids.drop_last().filter(keep);
        assert(before.push(ids.last()).map_values(rule) =~= before.map_values(rule).push(
            rule(ids.last()),
        ));
    }
    assert(product_rules(ids, variant) =~= ids.filter(keep).map_values(rule));
}

/// A device is looked for by each of its product numbers with its variant in front,
/// then by each without it, and last by its name; a number of zero is none.
pub proof fn law_a_device_is_looked_for_most_exactly_first(
    ids: Seq<u16>,
    variant: u8,
    codename: Option<Seq<char>>,
)
    ensures
        ({
            let known = ids.filter(|id: u16| id != 0);
            let n = known.len() as int;
            let rules = lookup_rules(ids, variant, codename);
            &&& rules.len() == 2 * n + if codename is Some {
                1int
            } else {
                0
            }
            &&& forall|i: int|
                0 <= i < n ==> #[trigger] rules[i] == Rule::Model(
                    hex_byte(variant) + hex_word(known[i]),
                )
            &&& forall|i: int|
                0 <= i < n ==> rules[n + i] == Rule::Product(hex_word(#[trigger] known[i]))
            &&& codename matches Some(name) ==> rules[2 * n] == Rule::Name(name)
        }),
{
    lemma_product_rules(ids, Some(variant));
    lemma_product_rules(ids, None);
}

proof fn lemma_model_words(model: Seq<Seq<char>>, extra: Seq<Seq<char>>)
    requires
        forall|i: int| 0 <= i < model.len() ==> !sort_word(#[trigger] model[i]),
        forall|i: int| 0 <= i < extra.len() ==> sort_word(#[trigger] extra[i]),
    ensures
        model_words(model + extra) == model,
    decreases extra.len(), model.len(),
{
    let all = model + extra;
    if extra.len() > 0 {
        let rest = extra.drop_last();
        assert forall|i: int| 0 <= i < rest.len() implies sort_word(#[trigger] rest[i]) by {
            assert(rest[i] == extra[i]);
        }
        lemma_model_words(model, rest);
        assert(all.drop_last() =~= model + rest);
        assert(all.last() == extra[extra.len() - 1]);
    } else if model.len() > 0 {
        let rest = model.drop_last();
        assert forall|i: int| 0 <= i < rest.len() implies !sort_word(#[trigger] rest[i]) by {
            assert(rest[i] == model[i]);
        }
        lemma_model_words(rest, extra);
        assert(all.drop_last() =~= rest + extra);
        assert(all.last() == model[model.len() - 1]);
        assert(rest.push(model.last()) =~= model);
    } else {
        assert(model_words(all) =~= model);
    }
}

/// A catalog name that goes on behind the model with words for a variant only is cut to
/// the model that the firmware reports, whatever sort of device the firmware adds to it;
/// one that goes on with anything else, or names another model, is not.
pub proof fn law_a_variant_is_left_out_of_a_name(
    catalog: Seq<Seq<char>>,
    lower: Seq<Seq<char>>,
    model: Seq<Seq<char>>,
    sorts: Seq<Seq<char>>,
    i: int,
)
    requires
        catalog.len() == lower.len(),
        0 < model.len() < catalog.len(),
        forall|k: int| 0 <= k < model.len() ==> !sort_word(#[trigger] model[k]),
        forall|k: int| 0 <= k < sorts.len() ==> sort_word(#[trigger] sorts[k]),
    ensures
        lower.take(model.len() as int) == model && (forall|k: int|
            model.len() <= k < lower.len() ==> variant_word(#[trigger] lower[k])) ==> corrected_name(
            catalog,
            lower,
            model + sorts,
        ) == Some(joined(catalog.take(model.len() as int))),
        model.len() <= i < lower.len() && !variant_word(lower[i]) ==> corrected_name(
            catalog,
            lower,
            model + sorts,
        ) is None,
        lower.take(model.len() as int) != model ==> corrected_name(catalog, lower, model + sorts)
            is None,
        sort_word("mouse"@) && sort_word("keyboard"@) && sort_word("trackball"@),
        variant_word("l"@) && variant_word("left"@),
{
    lemma_model_words(model, sorts);
}

/// Words are joined by one blank.
pub proof fn law_words_are_joined_by_one_blank(words: Seq<Seq<char>>, word: Seq<char>)
    ensures
        joined(Seq::empty()) == Seq::<char>::empty(),
        joined(seq![word]) == word,
        words.len() > 0 ==> joined(words.push(word)) == joined(words) + " "@ + word,
{
    assert(words.push(word).drop_last() =~= words);
}

/// No text stands before itself, and of two different texts one stands before the other.
pub proof fn law_texts_are_ordered(a: Seq<char>, b: Seq<char>)
    ensures
        !text_before(a, a),
        text_before(a, b) ==> !text_before(b, a),
        a != b ==> text_before(a, b) || text_before(b, a),
    decreases a.len(),
{
    if a.len() > 0 {
        law_texts_are_ordered(a.skip(1), b.skip(1));
        if b.len() > 0 && a[0] == b[0] && a.skip(1) == b.skip(1) {
            assert(a =~= seq![a[0]] + a.skip(1));
            assert(b =~= seq![b[0]] + b.skip(1));
        }
    } else if b.len() == 0 {
        assert(a =~= b);
    }
}

/// A text stands before those it begins, and where two differ first the smaller
/// character decides.
pub proof fn law_the_first_difference_decides(
    front: Seq<char>,
    a: Seq<char>,
    b: Seq<char>,
)
    ensures
        a.len() > 0 && b.len() > 0 && (a[0] as int) < (b[0] as int) ==> text_before(
            front + a,
            front + b,
        ),
        b.len() > 0 ==> text_before(front, front + b),
    decreases front.len(),
{
    if front.len() > 0 {
        law_the_first_difference_decides(front.skip(1), a, b);
        assert((front + a).skip(1) =~= front.skip(1) + a);
        assert((front + b).skip(1) =~= front.skip(1) + b);
    } else {
        assert(front + a =~= a);
        assert(front + b =~= b);
    }
}

proof fn lemma_placed_behind_equals(sorted: Seq<KeyedModel>, item: KeyedModel, key: Seq<char>)
    ensures
        placed(sorted, item).filter(|i: KeyedModel| i.key == key) == if item.key == key {
            sorted.filter(|i: KeyedModel| i.key == key).push(item)
        } else {
            sorted.filter(|i: KeyedModel| i.key == key)
        },
    decreases sorted.len(),
{
    reveal(Seq::filter);
    let same = |i: KeyedModel| i.key == key;
    law_texts_are_ordered(item.key, item.key);
    if sorted.len() > 0 && listed_before(item, sorted.last()) {
        let rest = sorted.drop_last();
        lemma_placed_behind_equals(rest, item, key);
        assert(placed(sorted, item).drop_last() =~= placed(rest, item));
        assert(placed(sorted, item).last() == sorted.last());
    } else {
        assert(sorted.push(item).drop_last() =~= sorted);
        assert(sorted.push(item).last() == item);
    }
}

/// Profiles that sort alike stay in the order they came in.
pub proof fn law_sorting_keeps_the_order_of_equals(items: Seq<KeyedModel>, key: Seq<char>)
    ensures
        by_key(items).filter(|i: KeyedModel| i.key == key) == items.filter(
            |i: KeyedModel| i.key == key,
        ),
    decreases items.len(),
{
    reveal(Seq::filter);
    if items.len() > 0 {
        law_sorting_keeps_the_order_of_equals(items.drop_last(), key);
        lemma_placed_behind_equals(by_key(items.drop_last()), items.last(), key);
    } else {
        assert(by_key(items) =~= items);
    }
}

/// A list by name holds what it was made of.
pub proof fn law_a_list_by_name_holds_every_profile(profiles: Seq<ChoiceModel>, i: int)
    requires
        0 <= i < profiles.len(),
    ensures
        by_name(profiles).contains(profiles[i]),
{
    law_profiles_are_listed_by_name(profiles);
    broadcast use vstd::seq_lib::group_to_multiset_ensures;

    assert(profiles.to_multiset().count(profiles[i]) > 0);
    assert(by_name(profiles).to_multiset().count(profiles[i]) > 0);
}

} // verus!
