//! The catalog of pictures: which entry stands for a device, and under what name
//! the device is shown.

use vstd::prelude::*;
use crate::config::identity::DeviceModelInfo;
use crate::desktop::profiles::strings_view;
use crate::table::Table;
use crate::text::{
    chars_of, hex_byte, hex_word, push_hex_byte, push_hex_word, push_text, same_text, slice_chars,
    split_words, string_of, to_lowercase, unicode_lowercase, words,
};

verus! {

/// An entry of the catalog.
#[derive(Debug, PartialEq, Eq)]
pub struct DeviceEntry {
    /// The model it was made for.
    pub model_id: String,
    /// Every model it covers; none in catalogs that only name the first.
    pub model_ids: Vec<String>,
    /// The name of the device.
    pub display_name: String,
}

/// An entry of the catalog, its texts read as characters.
pub struct EntryModel {
    /// The model it was made for.
    pub model_id: Seq<char>,
    /// Every model it covers.
    pub model_ids: Seq<Seq<char>>,
    /// The name of the device.
    pub display_name: Seq<char>,
}

impl View for DeviceEntry {
    type V = EntryModel;

    open spec fn view(&self) -> EntryModel {
        EntryModel {
            model_id: self.model_id@,
            model_ids: strings_view(self.model_ids@),
            display_name: self.display_name@,
        }
    }
}

/// The catalog: its entries by the names of their depots.
#[derive(Debug, PartialEq, Eq)]
pub struct Index {
    /// The entries.
    pub devices: Table<String, DeviceEntry>,
}

/// What an entry is looked for by.
#[derive(Debug, PartialEq, Eq)]
pub enum Rule<T> {
    /// A model, in full.
    Model(T),
    /// The end of a model: what follows the variant in front.
    Product(T),
    /// The name of the device.
    Name(T),
}

/// A rule, its text read as characters.
pub type RuleModel = Rule<Seq<char>>;

impl View for Rule<String> {
    type V = RuleModel;

    open spec fn view(&self) -> RuleModel {
        match *self {
            Rule::Model(text) => Rule::Model(text@),
            Rule::Product(text) => Rule::Product(text@),
            Rule::Name(text) => Rule::Name(text@),
        }
    }
}

/// Whether `text` ends with `tail`.
pub open spec fn ends_with(text: Seq<char>, tail: Seq<char>) -> bool {
    tail.len() <= text.len() && text.skip(text.len() - tail.len()) == tail
}

/// Whether a model of the catalog is the one a rule looks for.
pub open spec fn model_fits(rule: RuleModel, model: Seq<char>) -> bool {
    match rule {
        Rule::Model(wanted) => model == wanted,
        Rule::Product(wanted) => ends_with(model, wanted),
        Rule::Name(_) => false,
    }
}

/// Whether an entry is what a rule looks for.
pub open spec fn entry_fits(rule: RuleModel, entry: EntryModel) -> bool {
    match rule {
        Rule::Name(wanted) => entry.display_name == wanted,
        _ => model_fits(rule, entry.model_id) || exists|i: int|
            0 <= i < entry.model_ids.len() && model_fits(rule, #[trigger] entry.model_ids[i]),
    }
}

/// The first of `depots` whose entry is what a rule looks for.
pub open spec fn first_fit(
    depots: Seq<Seq<char>>,
    devices: Map<Seq<char>, EntryModel>,
    rule: RuleModel,
) -> Option<Seq<char>>
    decreases depots.len(),
{
    if depots.len() == 0 {
        None
    } else if entry_fits(rule, devices[depots[0]]) {
        Some(depots[0])
    } else {
        first_fit(depots.skip(1), devices, rule)
    }
}

/// What the first rule that finds anything finds.
pub open spec fn first_found(
    depots: Seq<Seq<char>>,
    devices: Map<Seq<char>, EntryModel>,
    rules: Seq<RuleModel>,
) -> Option<Seq<char>>
    decreases rules.len(),
{
    if rules.len() == 0 {
        None
    } else {
        match first_fit(depots, devices, rules[0]) {
            Some(depot) => Some(depot),
            None => first_found(depots, devices, rules.skip(1)),
        }
    }
}

/// The rules that look for the products among `ids`, each in full with the
/// variant in front when there is one. Zero is no product.
pub open spec fn product_rules(ids: Seq<u16>, variant: Option<u8>) -> Seq<RuleModel>
    decreases ids.len(),
{
    if ids.len() == 0 {
        Seq::empty()
    } else {
        let rest = product_rules(ids.drop_last(), variant);
        let id = ids.last();
        if id == 0 {
            rest
        } else {
            rest.push(
                match variant {
                    Some(variant) => Rule::Model(hex_byte(variant) + hex_word(id)),
                    None => Rule::Product(hex_word(id)),
                },
            )
        }
    }
}

/// What a device is looked for by: its models in full, then whatever their
/// variant, then the name its firmware gives.
pub open spec fn lookup_rules(ids: Seq<u16>, variant: u8, codename: Option<Seq<char>>) -> Seq<
    RuleModel,
> {
    product_rules(ids, Some(variant)) + product_rules(ids, None) + match codename {
        Some(name) => seq![Rule::Name(name)],
        None => Seq::<RuleModel>::empty(),
    }
}

/// The views of a list of rules.
pub open spec fn rules_view(rules: Seq<Rule<String>>) -> Seq<RuleModel> {
    rules.map_values(|rule: Rule<String>| rule@)
}

/// Whether a text ends with another.
fn text_ends_with(text: &str, tail: &str) -> (ends: bool)
    ensures
        ends == ends_with(text@, tail@),
{
    let chars = chars_of(text);
    let wanted = chars_of(tail);
    if wanted.len() > chars.len() {
        return false;
    }
    let end = string_of(&slice_chars(&chars, chars.len() - wanted.len(), chars.len()));
    assert(chars@.subrange(chars@.len() - wanted@.len(), chars@.len() as int) =~= chars@.skip(
        chars@.len() - wanted@.len(),
    ));
    same_text(end.as_str(), tail)
}

/// Whether a model of the catalog is the one a rule looks for.
fn fits_model(rule: &Rule<String>, model: &str) -> (fits: bool)
    ensures
        fits == model_fits(rule@, model@),
{
    match rule {
        Rule::Model(wanted) => same_text(model, wanted.as_str()),
        Rule::Product(wanted) => text_ends_with(model, wanted.as_str()),
        Rule::Name(_) => false,
    }
}

/// Whether an entry is what a rule looks for.
fn fits(rule: &Rule<String>, entry: &DeviceEntry) -> (fits: bool)
    ensures
        fits == entry_fits(rule@, entry@),
{
    if let Rule::Name(wanted) = rule {
        return same_text(entry.display_name.as_str(), wanted.as_str());
    }
    if fits_model(rule, entry.model_id.as_str()) {
        return true;
    }
    let mut i: usize = 0;
    while i < entry.model_ids.len()
        invariant
            i <= entry.model_ids@.len(),
            forall|k: int| 0 <= k < i ==> !model_fits(rule@, #[trigger] entry@.model_ids[k]),
        decreases entry.model_ids@.len() - i,
    {
        if fits_model(rule, entry.model_ids[i].as_str()) {
            assert(entry@.model_ids[i as int] == entry.model_ids@[i as int]@);
            return true;
        }
        assert(entry@.model_ids[i as int] == entry.model_ids@[i as int]@);
        i = i + 1;
    }
    false
}

/// Adds the rules that look for the products among `ids`.
fn push_product_rules(rules: &mut Vec<Rule<String>>, ids: &[u16; 3], variant: Option<u8>)
    ensures
        rules_view(final(rules)@) == rules_view(old(rules)@) + product_rules(ids@, variant),
{
    let ghost before = rules_view(rules@);
    let mut i: usize = 0;
    assert(ids@.take(0) =~= Seq::<u16>::empty());
    assert(before + product_rules(ids@.take(0), variant) =~= before);
    while i < 3
        invariant
            i <= 3,
            rules_view(rules@) == before + product_rules(ids@.take(i as int), variant),
        decreases 3 - i,
    {
        let id: u16 = ids[i];
        proof {
            assert(ids@.take(i + 1).drop_last() =~= ids@.take(i as int));
            assert(ids@.take(i + 1).last() == id);
        }
        if id != 0 {
            let ghost listed = rules_view(rules@);
            let mut text: Vec<char> = Vec::new();
            let rule = match variant {
                Some(variant) => {
                    push_hex_byte(&mut text, variant);
                    push_hex_word(&mut text, id);
                    assert(text@ =~= hex_byte(variant) + hex_word(id));
                    Rule::Model(string_of(&text))
                },
                None => {
                    push_hex_word(&mut text, id);
                    assert(text@ =~= hex_word(id));
                    Rule::Product(string_of(&text))
                },
            };
            let ghost model = rule@;
            rules.push(rule);
            assert(rules_view(rules@) =~= listed.push(model));
            assert(rules_view(rules@) =~= before + product_rules(ids@.take(i + 1), variant));
        }
        i = i + 1;
    }
    assert(ids@.take(3) =~= ids@);
}

/// Where the first entry is that a rule looks for.
fn find_fit(index: &Index, rule: &Rule<String>) -> (found: Option<usize>)
    ensures
        match found {
            Some(i) => i < index.devices.keys().len() && first_fit(
                index.devices.keys(),
                index.devices@,
                rule@,
            ) == Some(index.devices.keys()[i as int]),
            None => first_fit(index.devices.keys(), index.devices@, rule@) is None,
        },
{
    let n: usize = index.devices.len();
    let ghost depots = index.devices.keys();
    let mut i: usize = 0;
    assert(depots.skip(0) =~= depots);
    while i < n
        invariant
            i <= n == depots.len(),
            depots == index.devices.keys(),
            first_fit(depots, index.devices@, rule@) == first_fit(
                depots.skip(i as int),
                index.devices@,
                rule@,
            ),
        decreases n - i,
    {
        let (_, entry) = index.devices.entry_at(i);
        assert(depots.skip(i as int)[0] == depots[i as int]);
        assert(depots.skip(i as int).skip(1) =~= depots.skip(i + 1));
        if fits(rule, entry) {
            return Some(i);
        }
        i = i + 1;
    }
    None
}

/// The entry of a device, with its depot: by its model in full, else whatever the
/// variant, else by the name its firmware gives. Of several entries that fit, the
/// one whose depot comes first.
pub fn resolve_in_index<'a>(
    index: &'a Index,
    model: &DeviceModelInfo,
    codename: Option<&str>,
) -> (found: Option<(&'a String, &'a DeviceEntry)>)
    ensures
        ({
            let owed = first_found(
                index.devices.keys(),
                index.devices@,
                lookup_rules(
                    model.model_ids@,
                    model.extended_model_id,
                    match codename {
                        Some(name) => Some(name@),
                        None => None,
                    },
                ),
            );
            match found {
                Some((depot, entry)) => owed == Some(depot@) && index.devices@.dom().contains(
                    depot@,
                ) && index.devices@[depot@] == entry@,
                None => owed is None,
            }
        }),
{
    let mut rules: Vec<Rule<String>> = Vec::new();
    assert(rules_view(rules@) =~= Seq::<RuleModel>::empty());
    push_product_rules(&mut rules, &model.model_ids, Some(model.extended_model_id));
    push_product_rules(&mut rules, &model.model_ids, None);
    let ghost listed = rules_view(rules@);
    if let Some(name) = codename {
        let rule = Rule::Name(name.to_owned());
        let ghost last = rule@;
        rules.push(rule);
        assert(rules_view(rules@) =~= listed.push(last));
    }
    let ghost all = rules_view(rules@);
    assert(all =~= lookup_rules(
        model.model_ids@,
        model.extended_model_id,
        match codename {
            Some(name) => Some(name@),
            None => None,
        },
    ));
    let mut i: usize = 0;
    assert(all.skip(0) =~= all);
    while i < rules.len()
        invariant
            i <= rules@.len(),
            all == rules_view(rules@),
            all == lookup_rules(
                model.model_ids@,
                model.extended_model_id,
                match codename {
                    Some(name) => Some(name@),
                    None => None,
                },
            ),
            first_found(index.devices.keys(), index.devices@, all) == first_found(
                index.devices.keys(),
                index.devices@,
                all.skip(i as int),
            ),
        decreases rules@.len() - i,
    {
        assert(all.skip(i as int)[0] == rules@[i as int]@);
        assert(all.skip(i as int).skip(1) =~= all.skip(i + 1));
        if let Some(at) = find_fit(index, &rules[i]) {
            return Some(index.devices.entry_at(at));
        }
        i = i + 1;
    }
    None
}

/// Whether a word says what sort of device it is, and not which.
pub open spec fn sort_word(word: Seq<char>) -> bool {
    word == "mouse"@ || word == "keyboard"@ || word == "trackball"@
}

/// Whether a word tells a size or a hand apart, and not a model.
pub open spec fn variant_word(word: Seq<char>) -> bool {
    word == "l"@ || word == "left"@
}

/// The words without those that only say what sort of device it is.
pub open spec fn model_words(words: Seq<Seq<char>>) -> Seq<Seq<char>>
    decreases words.len(),
{
    if words.len() == 0 {
        Seq::empty()
    } else if sort_word(words.last()) {
        model_words(words.drop_last())
    } else {
        model_words(words.drop_last()).push(words.last())
    }
}

/// Words with a space between them.
pub open spec fn joined(words: Seq<Seq<char>>) -> Seq<char>
    decreases words.len(),
{
    if words.len() == 0 {
        Seq::empty()
    } else if words.len() == 1 {
        words[0]
    } else {
        joined(words.drop_last()) + " "@ + words.last()
    }
}

/// The name of a device that the catalog lists under a variant it is not: the
/// catalog's words up to where the variant starts. There is one when the model
/// that the firmware names is what the catalog's name starts with, and only
/// variants follow. `lower` and `firmware` are in small letters.
pub open spec fn corrected_name(
    catalog: Seq<Seq<char>>,
    lower: Seq<Seq<char>>,
    firmware: Seq<Seq<char>>,
) -> Option<Seq<char>> {
    let model = model_words(firmware);
    if 0 < model.len() < catalog.len() && lower.take(model.len() as int) == model && (forall|i: int|
        model.len() <= i < lower.len() ==> variant_word(#[trigger] lower[i])) {
        Some(joined(catalog.take(model.len() as int)))
    } else {
        None
    }
}

/// Whether a word says what sort of device it is, and not which.
fn is_sort_word(word: &str) -> (is: bool)
    ensures
        is == sort_word(word@),
{
    same_text(word, "mouse") || same_text(word, "keyboard") || same_text(word, "trackball")
}

/// Whether a word tells a size or a hand apart, and not a model.
fn is_variant_word(word: &str) -> (is: bool)
    ensures
        is == variant_word(word@),
{
    same_text(word, "l") || same_text(word, "left")
}

/// The first `n` words with a space between them.
fn join_words(words: &Vec<String>, n: usize) -> (text: String)
    requires
        n <= words@.len(),
    ensures
        text@ == joined(strings_view(words@).take(n as int)),
{
    let ghost all = strings_view(words@);
    let mut out: Vec<char> = Vec::new();
    let mut i: usize = 0;
    assert(all.take(0) =~= Seq::<Seq<char>>::empty());
    while i < n
        invariant
            i <= n <= words@.len(),
            all == strings_view(words@),
            out@ == joined(all.take(i as int)),
        decreases n - i,
    {
        proof {
            assert(all.take(i + 1).drop_last() =~= all.take(i as int));
            assert(all.take(i + 1).last() == words@[i as int]@);
            assert(all.take(i + 1)[0] == all[0]);
        }
        if i > 0 {
            push_text(&mut out, " ");
        }
        push_text(&mut out, words[i].as_str());
        assert(out@ =~= joined(all.take(i + 1)));
        i = i + 1;
    }
    string_of(&out)
}

/// The name of a device that the catalog lists under a variant it is not, given
/// the catalog's words, the same in small letters, and the words of the firmware
/// in small letters.
pub fn correct_name(catalog: &Vec<String>, lower: &Vec<String>, firmware: &Vec<String>) -> (name:
    Option<String>)
    requires
        catalog@.len() == lower@.len(),
    ensures
        match name {
            Some(name) => corrected_name(
                strings_view(catalog@),
                strings_view(lower@),
                strings_view(firmware@),
            ) == Some(name@),
            None => corrected_name(
                strings_view(catalog@),
                strings_view(lower@),
                strings_view(firmware@),
            ) is None,
        },
{
    let ghost small = strings_view(lower@);
    let ghost given = strings_view(firmware@);
    let ghost model = model_words(given);
    let mut n: usize = 0;
    let mut matches = true;
    let mut i: usize = 0;
    assert(given.take(0) =~= Seq::<Seq<char>>::empty());
    assert(small.take(0) =~= Seq::<Seq<char>>::empty());
    while i < firmware.len()
        invariant
            i <= firmware@.len(),
            given == strings_view(firmware@),
            small == strings_view(lower@),
            n == model_words(given.take(i as int)).len(),
            n <= i,
            matches == (n <= small.len() && small.take(n as int) == model_words(
                given.take(i as int),
            )),
        decreases firmware@.len() - i,
    {
        let ghost before = model_words(given.take(i as int));
        proof {
            assert(given.take(i + 1).drop_last() =~= given.take(i as int));
            assert(given.take(i + 1).last() == firmware@[i as int]@);
        }
        if !is_sort_word(firmware[i].as_str()) {
            let ghost after = before.push(firmware@[i as int]@);
            let fits = n < lower.len() && same_text(lower[n].as_str(), firmware[i].as_str());
            proof {
                assert(model_words(given.take(i + 1)) == after);
                if n < small.len() {
                    assert(small.take(n + 1) =~= small.take(n as int).push(small[n as int]));
                    if small.take(n + 1) == after {
                        assert(small.take(n + 1).drop_last() =~= small.take(n as int));
                        assert(after.drop_last() =~= before);
                        assert(small.take(n + 1).last() == after.last());
                    }
                }
            }
            matches = matches && fits;
            n = n + 1;
        }
        i = i + 1;
    }
    assert(given.take(i as int) =~= given);
    if n == 0 || n >= catalog.len() || !matches {
        return None;
    }
    let mut j: usize = n;
    while j < lower.len()
        invariant
            n <= j <= lower@.len(),
            small == strings_view(lower@),
            n == model_words(strings_view(firmware@)).len(),
            forall|k: int| n <= k < j ==> variant_word(#[trigger] small[k]),
        decreases lower@.len() - j,
    {
        assert(small[j as int] == lower@[j as int]@);
        if !is_variant_word(lower[j].as_str()) {
            return None;
        }
        j = j + 1;
    }
    Some(join_words(catalog, n))
}

/// Words in small letters.
pub open spec fn lowercase_words(words: Seq<Seq<char>>) -> Seq<Seq<char>> {
    words.map_values(|word: Seq<char>| unicode_lowercase(word))
}

/// Words in small letters.
fn lower_words(words: &Vec<String>) -> (lower: Vec<String>)
    ensures
        strings_view(lower@) == lowercase_words(strings_view(words@)),
{
    let mut lower: Vec<String> = Vec::new();
    let mut i: usize = 0;
    while i < words.len()
        invariant
            i <= words@.len(),
            lower@.len() == i,
            forall|k: int|
                0 <= k < i ==> (#[trigger] lower@[k])@ == unicode_lowercase(words@[k]@),
        decreases words@.len() - i,
    {
        lower.push(to_lowercase(words[i].as_str()));
        i = i + 1;
    }
    assert(strings_view(lower@) =~= lowercase_words(strings_view(words@)));
    lower
}

/// The name to show in place of the catalog's, for a device that the catalog
/// lists under a variant it is not; none where the catalog's name stands.
pub fn variant_display_name_override(catalog: &str, codename: Option<&str>) -> (name: Option<
    String,
>)
    ensures
        ({
            let owed = match codename {
                Some(codename) => corrected_name(
                    words(catalog@),
                    lowercase_words(words(catalog@)),
                    lowercase_words(words(codename@)),
                ),
                None => None,
            };
            match name {
                Some(name) => owed == Some(name@),
                None => owed is None,
            }
        }),
{
    match codename {
        None => None,
        Some(codename) => {
            let listed = split_words(catalog);
            let given = split_words(codename);
            assert(strings_view(listed@) =~= words(catalog@));
            assert(strings_view(given@) =~= words(codename@));
            let lower = lower_words(&listed);
            let firmware = lower_words(&given);
            assert(lower@.len() == strings_view(lower@).len());
            correct_name(&listed, &lower, &firmware)
        },
    }
}

/// A corrected name is the start of the catalog's name, in the catalog's own
/// spelling, and shorter than it: a name is only ever corrected by leaving a
/// variant out.
pub proof fn law_a_correction_only_leaves_a_variant_out(
    catalog: Seq<Seq<char>>,
    lower: Seq<Seq<char>>,
    firmware: Seq<Seq<char>>,
)
    requires
        catalog.len() == lower.len(),
        corrected_name(catalog, lower, firmware) is Some,
    ensures
        exists|n: int|
            0 < n < catalog.len() && corrected_name(catalog, lower, firmware) == Some(
                joined(#[trigger] catalog.take(n)),
            ) && variant_word(lower[n]),
{
    let n = model_words(firmware).len() as int;
    assert(variant_word(lower[n]));
    assert(corrected_name(catalog, lower, firmware) == Some(joined(catalog.take(n))));
}

} // verus!
