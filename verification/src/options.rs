//! Slash-command options: the map from option names to resolved values, and
//! the typed accessors over it.

use vstd::prelude::*;
use crate::error::{AngyError, AngyResult};

verus! {

/// The resolved value of a slash-command option.
///
/// Discord entities (users, channels, roles, attachments) are carried by
/// their snowflake id; a `Number` is carried by the bit pattern of its
/// `f64` value (`f64::to_bits`).
#[derive(Debug, PartialEq, Eq)]
pub enum OptionValue {
    String(String),
    Integer(i64),
    Boolean(bool),
    User(u64),
    Channel(u64),
    Role(u64),
    Number(u64),
    Attachment(u64),
}

/// One option of a received slash command: its name and, when Discord
/// resolved one, its value.
#[derive(Debug)]
pub struct CommandOption {
    pub name: String,
    pub resolved: Option<OptionValue>,
}

/// The message of the error returned when a required option is absent.
pub open spec fn missing_option_message() -> &'static str {
    "A required option is missing."
}

/// The map that `options_hashmap` builds: the options are inserted in order,
/// those without a resolved value are skipped, and a later option replaces
/// an earlier one of the same name.
pub open spec fn options_spec(options: Seq<CommandOption>) -> Map<Seq<char>, OptionValue>
    decreases options.len(),
{
    if options.len() == 0 {
        Map::empty()
    } else {
        let before = options_spec(options.drop_last());
        match options.last().resolved {
            Some(v) => before.insert(options.last().name@, v),
            None => before,
        }
    }
}

/// The map denoted by a list of entries: inserted in order, later entries
/// replacing earlier ones of the same name.
pub open spec fn entries_map(entries: Seq<(String, OptionValue)>) -> Map<Seq<char>, OptionValue>
    decreases entries.len(),
{
    if entries.len() == 0 {
        Map::empty()
    } else {
        entries_map(entries.drop_last()).insert(entries.last().0@, entries.last().1)
    }
}

/// No two entries have the same name.
pub open spec fn names_distinct(entries: Seq<(String, OptionValue)>) -> bool {
    forall|i: int, j: int|
        0 <= i < entries.len() && 0 <= j < entries.len() && i != j ==> #[trigger] entries[i].0@
            != #[trigger] entries[j].0@
}

/// A map from option names to resolved option values.
///
/// The map keeps its entries in a `Vec`, one entry per name, rather than in
/// std's `HashMap`: vstd gives `HashMap` contracts only for key types it
/// knows to obey its key model (integers, `bool` and boxes of them), and
/// `String` is not one of them, so a `HashMap` keyed by option names could
/// carry none of the contracts below.
pub struct OptionsHashMap {
    entries: Vec<(String, OptionValue)>,
}

impl OptionsHashMap {
    /// Each name occurs in one entry at most.
    #[verifier::type_invariant]
    spec fn names_are_distinct(self) -> bool {
        names_distinct(self.entries@)
    }
}

impl View for OptionsHashMap {
    type V = Map<Seq<char>, OptionValue>;

    closed spec fn view(&self) -> Map<Seq<char>, OptionValue> {
        entries_map(self.entries@)
    }
}

/// The map of distinct entries holds a name exactly when an entry has it,
/// with that entry's value.
proof fn lemma_entries_lookup(entries: Seq<(String, OptionValue)>, key: Seq<char>)
    requires
        names_distinct(entries),
    ensures
        entries_map(entries).contains_key(key) <==> exists|i: int|
            0 <= i < entries.len() && #[trigger] entries[i].0@ == key,
        forall|i: int|
            0 <= i < entries.len() && #[trigger] entries[i].0@ == key ==> entries_map(entries)[key]
                == entries[i].1,
    decreases entries.len(),
{
    if entries.len() > 0 {
        let shorter = entries.drop_last();
        assert forall|i: int, j: int|
            0 <= i < shorter.len() && 0 <= j < shorter.len() && i != j implies #[trigger] shorter[i].0@
            != #[trigger] shorter[j].0@ by {
            assert(shorter[i] == entries[i] && shorter[j] == entries[j]);
        }
        lemma_entries_lookup(shorter, key);
        if exists|i: int| 0 <= i < entries.len() && #[trigger] entries[i].0@ == key {
            let i = choose|i: int| 0 <= i < entries.len() && #[trigger] entries[i].0@ == key;
            if i < entries.len() - 1 {
                assert(shorter[i] == entries[i]);
            }
        }
        if entries_map(entries).contains_key(key) && entries.last().0@ != key {
            let i = choose|i: int| 0 <= i < shorter.len() && #[trigger] shorter[i].0@ == key;
            assert(entries[i] == shorter[i]);
        }
        assert forall|i: int| 0 <= i < entries.len() && #[trigger] entries[i].0@ == key implies entries_map(
            entries,
        )[key] == entries[i].1 by {
            if i < entries.len() - 1 {
                assert(entries[i] == shorter[i]);
                assert(entries[entries.len() - 1].0@ != entries[i].0@);
            }
        }
    }
}

/// Overwriting the entry of a name in distinct entries overwrites the value
/// the map holds for that name.
proof fn lemma_entries_update(
    entries: Seq<(String, OptionValue)>,
    j: int,
    entry: (String, OptionValue),
)
    requires
        names_distinct(entries),
        0 <= j < entries.len(),
        entry.0@ == entries[j].0@,
    ensures
        entries_map(entries.update(j, entry)) == entries_map(entries).insert(entry.0@, entry.1),
    decreases entries.len(),
{
    let updated = entries.update(j, entry);
    let shorter = entries.drop_last();
    if j == entries.len() - 1 {
        assert(updated.drop_last() =~= shorter);
        assert(entries_map(updated) =~= entries_map(entries).insert(entry.0@, entry.1));
    } else {
        assert forall|a: int, b: int|
            0 <= a < shorter.len() && 0 <= b < shorter.len() && a != b implies #[trigger] shorter[a].0@
            != #[trigger] shorter[b].0@ by {
            assert(shorter[a] == entries[a] && shorter[b] == entries[b]);
        }
        lemma_entries_update(shorter, j, entry);
        assert(updated.drop_last() =~= shorter.update(j, entry));
        assert(entries.last().0@ != entry.0@);
        assert(entries_map(updated) =~= entries_map(entries).insert(entry.0@, entry.1));
    }
}

/// The index of the entry called `name`, if there is one.
fn position(entries: &Vec<(String, OptionValue)>, name: &String) -> (r: Option<usize>)
    ensures
        r matches Some(j) ==> j < entries@.len() && entries@[j as int].0@ == name@,
        r is None ==> forall|j: int| 0 <= j < entries@.len() ==> #[trigger] entries@[j].0@ != name@,
{
    let n = entries.len();
    for j in 0..n
        invariant
            n == entries@.len(),
            forall|k: int| 0 <= k < j ==> #[trigger] entries@[k].0@ != name@,
    {
        if entries[j].0 == *name {
            return Some(j);
        }
    }
    None
}

impl OptionsHashMap {
    /// The value of the option called `name`, if the map holds one.
    pub fn get<'a>(&'a self, name: &str) -> (r: Option<&'a OptionValue>)
        ensures
            r is Some == self@.contains_key(name@),
            r matches Some(v) ==> *v == self@[name@],
    {
        proof {
            use_type_invariant(self);
            lemma_entries_lookup(self.entries@, name@);
        }
        let key = name.to_owned();
        match position(&self.entries, &key) {
            Some(j) => Some(&self.entries[j].1),
            None => None,
        }
    }
}

impl OptionValue {
    /// A copy of this value.
    pub fn duplicate(&self) -> (r: OptionValue)
        ensures
            r == *self,
    {
        match self {
            OptionValue::String(s) => OptionValue::String(s.clone()),
            OptionValue::Integer(x) => OptionValue::Integer(*x),
            OptionValue::Boolean(b) => OptionValue::Boolean(*b),
            OptionValue::User(id) => OptionValue::User(*id),
            OptionValue::Channel(id) => OptionValue::Channel(*id),
            OptionValue::Role(id) => OptionValue::Role(*id),
            OptionValue::Number(bits) => OptionValue::Number(*bits),
            OptionValue::Attachment(id) => OptionValue::Attachment(*id),
        }
    }
}

/// Turns the options of a received command into a map from option names to
/// resolved values. Options without a resolved value are left out; of two
/// options with the same name, the later one is kept.
pub fn options_hashmap(options: Vec<CommandOption>) -> (map: OptionsHashMap)
    ensures
        map@ == options_spec(options@),
{
    let mut entries: Vec<(String, OptionValue)> = Vec::new();
    let n = options.len();
    for i in 0..n
        invariant
            n == options@.len(),
            entries_map(entries@) == options_spec(options@.take(i as int)),
            names_distinct(entries@),
    {
        let o = &options[i];
        let ghost before = entries@;
        match &o.resolved {
            Some(v) => {
                let entry = (o.name.clone(), v.duplicate());
                match position(&entries, &o.name) {
                    Some(j) => {
                        proof {
                            lemma_entries_update(entries@, j as int, entry);
                        }
                        entries.set(j, entry);
                    },
                    None => {
                        entries.push(entry);
                        assert(entries@.drop_last() =~= before);
                    },
                }
            },
            None => {},
        }
        proof {
            assert(options@.take(i + 1).drop_last() =~= options@.take(i as int));
            assert(options@.take(i + 1).last() == options@[i as int]);
        }
    }
    proof {
        assert(options@.take(n as int) =~= options@);
    }
    OptionsHashMap { entries }
}

/// The value of the option called `name`; an error for the user when the
/// command carries no such option.
pub fn option_required<'a>(map: &'a OptionsHashMap, name: &str) -> (r: AngyResult<&'a OptionValue>)
    ensures
        r is Ok == map@.contains_key(name@),
        r matches Ok(v) ==> *v == map@[name@],
        r matches Err(e) ==> e == AngyError::User(missing_option_message()),
{
    match map.get(name) {
        Some(v) => Ok(v),
        None => Err(AngyError::User("A required option is missing.")),
    }
}

/// The value of the option called `name`, if the command carries one.
pub fn option_optional<'a>(map: &'a OptionsHashMap, name: &str) -> (r: Option<&'a OptionValue>)
    ensures
        r is Some == map@.contains_key(name@),
        r matches Some(v) ==> *v == map@[name@],
{
    map.get(name)
}

/// The string held by the option called `name`; an error for the user when
/// the command carries no such option. The option, when present, holds a
/// value of that kind.
pub fn option_required_string<'a>(map: &'a OptionsHashMap, name: &str) -> (r: AngyResult<&'a String>)
    requires
        map@.contains_key(name@) ==> map@[name@] is String,
    ensures
        r is Ok == map@.contains_key(name@),
        r matches Ok(x) ==> map@[name@] == OptionValue::String(*x),
        r matches Err(e) ==> e == AngyError::User(missing_option_message()),
{
    match option_required(map, name)? {
        OptionValue::String(x) => Ok(x),
        _ => unreached(),
    }
}

/// The string held by the option called `name`, if the command carries
/// one. The option, when present, holds a value of that kind.
pub fn option_optional_string<'a>(map: &'a OptionsHashMap, name: &str) -> (r: Option<&'a String>)
    requires
        map@.contains_key(name@) ==> map@[name@] is String,
    ensures
        r is Some == map@.contains_key(name@),
        r matches Some(x) ==> map@[name@] == OptionValue::String(*x),
{
    match option_optional(map, name) {
        Some(OptionValue::String(x)) => Some(x),
        Some(_) => unreached(),
        None => None,
    }
}

/// The integer held by the option called `name`; an error for the user when
/// the command carries no such option. The option, when present, holds a
/// value of that kind.
pub fn option_required_integer<'a>(map: &'a OptionsHashMap, name: &str) -> (r: AngyResult<&'a i64>)
    requires
        map@.contains_key(name@) ==> map@[name@] is Integer,
    ensures
        r is Ok == map@.contains_key(name@),
        r matches Ok(x) ==> map@[name@] == OptionValue::Integer(*x),
        r matches Err(e) ==> e == AngyError::User(missing_option_message()),
{
    match option_required(map, name)? {
        OptionValue::Integer(x) => Ok(x),
        _ => unreached(),
    }
}

/// The integer held by the option called `name`, if the command carries
/// one. The option, when present, holds a value of that kind.
pub fn option_optional_integer<'a>(map: &'a OptionsHashMap, name: &str) -> (r: Option<&'a i64>)
    requires
        map@.contains_key(name@) ==> map@[name@] is Integer,
    ensures
        r is Some == map@.contains_key(name@),
        r matches Some(x) ==> map@[name@] == OptionValue::Integer(*x),
{
    match option_optional(map, name) {
        Some(OptionValue::Integer(x)) => Some(x),
        Some(_) => unreached(),
        None => None,
    }
}

/// The boolean held by the option called `name`; an error for the user when
/// the command carries no such option. The option, when present, holds a
/// value of that kind.
pub fn option_required_boolean<'a>(map: &'a OptionsHashMap, name: &str) -> (r: AngyResult<&'a bool>)
    requires
        map@.contains_key(name@) ==> map@[name@] is Boolean,
    ensures
        r is Ok == map@.contains_key(name@),
        r matches Ok(x) ==> map@[name@] == OptionValue::Boolean(*x),
        r matches Err(e) ==> e == AngyError::User(missing_option_message()),
{
    match option_required(map, name)? {
        OptionValue::Boolean(x) => Ok(x),
        _ => unreached(),
    }
}

/// The boolean held by the option called `name`, if the command carries
/// one. The option, when present, holds a value of that kind.
pub fn option_optional_boolean<'a>(map: &'a OptionsHashMap, name: &str) -> (r: Option<&'a bool>)
    requires
        map@.contains_key(name@) ==> map@[name@] is Boolean,
    ensures
        r is Some == map@.contains_key(name@),
        r matches Some(x) ==> map@[name@] == OptionValue::Boolean(*x),
{
    match option_optional(map, name) {
        Some(OptionValue::Boolean(x)) => Some(x),
        Some(_) => unreached(),
        None => None,
    }
}

/// The user id held by the option called `name`; an error for the user when
/// the command carries no such option. The option, when present, holds a
/// value of that kind.
pub fn option_required_user<'a>(map: &'a OptionsHashMap, name: &str) -> (r: AngyResult<&'a u64>)
    requires
        map@.contains_key(name@) ==> map@[name@] is User,
    ensures
        r is Ok == map@.contains_key(name@),
        r matches Ok(x) ==> map@[name@] == OptionValue::User(*x),
        r matches Err(e) ==> e == AngyError::User(missing_option_message()),
{
    match option_required(map, name)? {
        OptionValue::User(x) => Ok(x),
        _ => unreached(),
    }
}

/// The user id held by the option called `name`, if the command carries
/// one. The option, when present, holds a value of that kind.
pub fn option_optional_user<'a>(map: &'a OptionsHashMap, name: &str) -> (r: Option<&'a u64>)
    requires
        map@.contains_key(name@) ==> map@[name@] is User,
    ensures
        r is Some == map@.contains_key(name@),
        r matches Some(x) ==> map@[name@] == OptionValue::User(*x),
{
    match option_optional(map, name) {
        Some(OptionValue::User(x)) => Some(x),
        Some(_) => unreached(),
        None => None,
    }
}

/// The channel id held by the option called `name`; an error for the user when
/// the command carries no such option. The option, when present, holds a
/// value of that kind.
pub fn option_required_channel<'a>(map: &'a OptionsHashMap, name: &str) -> (r: AngyResult<&'a u64>)
    requires
        map@.contains_key(name@) ==> map@[name@] is Channel,
    ensures
        r is Ok == map@.contains_key(name@),
        r matches Ok(x) ==> map@[name@] == OptionValue::Channel(*x),
        r matches Err(e) ==> e == AngyError::User(missing_option_message()),
{
    match option_required(map, name)? {
        OptionValue::Channel(x) => Ok(x),
        _ => unreached(),
    }
}

/// The channel id held by the option called `name`, if the command carries
/// one. The option, when present, holds a value of that kind.
pub fn option_optional_channel<'a>(map: &'a OptionsHashMap, name: &str) -> (r: Option<&'a u64>)
    requires
        map@.contains_key(name@) ==> map@[name@] is Channel,
    ensures
        r is Some == map@.contains_key(name@),
        r matches Some(x) ==> map@[name@] == OptionValue::Channel(*x),
{
    match option_optional(map, name) {
        Some(OptionValue::Channel(x)) => Some(x),
        Some(_) => unreached(),
        None => None,
    }
}

/// The role id held by the option called `name`; an error for the user when
/// the command carries no such option. The option, when present, holds a
/// value of that kind.
pub fn option_required_role<'a>(map: &'a OptionsHashMap, name: &str) -> (r: AngyResult<&'a u64>)
    requires
        map@.contains_key(name@) ==> map@[name@] is Role,
    ensures
        r is Ok == map@.contains_key(name@),
        r matches Ok(x) ==> map@[name@] == OptionValue::Role(*x),
        r matches Err(e) ==> e == AngyError::User(missing_option_message()),
{
    match option_required(map, name)? {
        OptionValue::Role(x) => Ok(x),
        _ => unreached(),
    }
}

/// The role id held by the option called `name`, if the command carries
/// one. The option, when present, holds a value of that kind.
pub fn option_optional_role<'a>(map: &'a OptionsHashMap, name: &str) -> (r: Option<&'a u64>)
    requires
        map@.contains_key(name@) ==> map@[name@] is Role,
    ensures
        r is Some == map@.contains_key(name@),
        r matches Some(x) ==> map@[name@] == OptionValue::Role(*x),
{
    match option_optional(map, name) {
        Some(OptionValue::Role(x)) => Some(x),
        Some(_) => unreached(),
        None => None,
    }
}

/// The attachment id held by the option called `name`; an error for the user when
/// the command carries no such option. The option, when present, holds a
/// value of that kind.
pub fn option_required_attachment<'a>(map: &'a OptionsHashMap, name: &str) -> (r: AngyResult<&'a u64>)
    requires
        map@.contains_key(name@) ==> map@[name@] is Attachment,
    ensures
        r is Ok == map@.contains_key(name@),
        r matches Ok(x) ==> map@[name@] == OptionValue::Attachment(*x),
        r matches Err(e) ==> e == AngyError::User(missing_option_message()),
{
    match option_required(map, name)? {
        OptionValue::Attachment(x) => Ok(x),
        _ => unreached(),
    }
}

/// The attachment id held by the option called `name`, if the command carries
/// one. The option, when present, holds a value of that kind.
pub fn option_optional_attachment<'a>(map: &'a OptionsHashMap, name: &str) -> (r: Option<&'a u64>)
    requires
        map@.contains_key(name@) ==> map@[name@] is Attachment,
    ensures
        r is Some == map@.contains_key(name@),
        r matches Some(x) ==> map@[name@] == OptionValue::Attachment(*x),
{
    match option_optional(map, name) {
        Some(OptionValue::Attachment(x)) => Some(x),
        Some(_) => unreached(),
        None => None,
    }
}

/// An option without a resolved value adds nothing to the map: the map
/// holds a name exactly when some option of that name has a resolved value.
pub proof fn law_map_holds_resolved_names(options: Seq<CommandOption>, name: Seq<char>)
    ensures
        options_spec(options).contains_key(name) <==> exists|i: int|
            0 <= i < options.len() && #[trigger] options[i].name@ == name
                && options[i].resolved is Some,
    decreases options.len(),
{
    if options.len() > 0 {
        let shorter = options.drop_last();
        law_map_holds_resolved_names(shorter, name);
        let last = options.len() - 1;
        if options_spec(options).contains_key(name) {
            if !(options[last].name@ == name && options[last].resolved is Some) {
                let i = choose|i: int|
                    0 <= i < shorter.len() && #[trigger] shorter[i].name@ == name
                        && shorter[i].resolved is Some;
                assert(options[i] == shorter[i]);
            }
        } else {
            assert forall|i: int| 0 <= i < options.len() && #[trigger] options[i].name@ == name
                implies options[i].resolved is None by {
                if i < last {
                    assert(options[i] == shorter[i]);
                }
            }
        }
    }
}

/// Of the options that share a name and have a resolved value, the map
/// holds the value of the last one.
pub proof fn law_last_resolved_option_wins(options: Seq<CommandOption>, i: int)
    requires
        0 <= i < options.len(),
        options[i].resolved is Some,
        forall|j: int|
            i < j < options.len() && #[trigger] options[j].name@ == options[i].name@
                ==> options[j].resolved is None,
    ensures
        options_spec(options).contains_key(options[i].name@),
        options_spec(options)[options[i].name@] == options[i].resolved->Some_0,
    decreases options.len(),
{
    let last = options.len() - 1;
    if i < last {
        let shorter = options.drop_last();
        assert forall|j: int|
            i < j < shorter.len() && #[trigger] shorter[j].name@ == shorter[i].name@
                implies shorter[j].resolved is None by {
            assert(shorter[j] == options[j]);
        }
        assert(shorter[i] == options[i]);
        law_last_resolved_option_wins(shorter, i);
    }
}

/// No two options with a resolved value have the same name.
pub open spec fn resolved_names_distinct(options: Seq<CommandOption>) -> bool {
    forall|i: int, j: int|
        0 <= i < options.len() && 0 <= j < options.len() && i != j
            && options[i].resolved is Some && options[j].resolved is Some
            ==> #[trigger] options[i].name@ != #[trigger] options[j].name@
}

/// The number of options with a resolved value.
pub open spec fn resolved_count(options: Seq<CommandOption>) -> nat
    decreases options.len(),
{
    if options.len() == 0 {
        0
    } else {
        resolved_count(options.drop_last()) + if options.last().resolved is Some {
            1nat
        } else {
            0nat
        }
    }
}

/// When the resolved options have distinct names, the map has one entry
/// per resolved option.
pub proof fn law_map_size(options: Seq<CommandOption>)
    requires
        resolved_names_distinct(options),
    ensures
        options_spec(options).dom().finite(),
        options_spec(options).dom().len() == resolved_count(options),
    decreases options.len(),
{
    if options.len() > 0 {
        let shorter = options.drop_last();
        assert forall|i: int, j: int|
            0 <= i < shorter.len() && 0 <= j < shorter.len() && i != j
                && shorter[i].resolved is Some && shorter[j].resolved is Some
                implies #[trigger] shorter[i].name@ != #[trigger] shorter[j].name@ by {
            assert(shorter[i] == options[i] && shorter[j] == options[j]);
        }
        law_map_size(shorter);
        let last = options.last();
        if last.resolved is Some {
            law_map_holds_resolved_names(shorter, last.name@);
            if options_spec(shorter).contains_key(last.name@) {
                let i = choose|i: int|
                    0 <= i < shorter.len() && #[trigger] shorter[i].name@ == last.name@
                        && shorter[i].resolved is Some;
                assert(options[i] == shorter[i]);
                assert(options[options.len() - 1] == last);
            }
        }
    }
}

/// When the resolved options have distinct names, the order of the options
/// does not matter: `reordered` holds the options of `options`, the option
/// at `i` being that of `options` at `to(i)`, and `back` undoes `to`.
pub proof fn law_map_ignores_order(
    options: Seq<CommandOption>,
    reordered: Seq<CommandOption>,
    to: spec_fn(int) -> int,
    back: spec_fn(int) -> int,
)
    requires
        resolved_names_distinct(options),
        reordered.len() == options.len(),
        forall|i: int|
            0 <= i < reordered.len() ==> 0 <= #[trigger] to(i) < options.len() && reordered[i]
                == options[to(i)] && back(to(i)) == i,
        forall|j: int|
            0 <= j < options.len() ==> 0 <= #[trigger] back(j) < reordered.len() && to(back(j))
                == j,
    ensures
        options_spec(reordered) == options_spec(options),
{
    assert forall|i: int, j: int|
        0 <= i < reordered.len() && 0 <= j < reordered.len() && i != j
            && reordered[i].resolved is Some && reordered[j].resolved is Some
            implies #[trigger] reordered[i].name@ != #[trigger] reordered[j].name@ by {
        assert(to(i) != to(j));
        assert(reordered[i] == options[to(i)] && reordered[j] == options[to(j)]);
    }
    assert forall|k: Seq<char>| #[trigger] options_spec(reordered).contains_key(k)
        == options_spec(options).contains_key(k) by {
        law_map_holds_resolved_names(reordered, k);
        law_map_holds_resolved_names(options, k);
        if exists|i: int| 0 <= i < options.len() && #[trigger] options[i].name@ == k
            && options[i].resolved is Some {
            let i = choose|i: int| 0 <= i < options.len() && #[trigger] options[i].name@ == k
                && options[i].resolved is Some;
            assert(reordered[back(i)] == options[i]);
        }
        if exists|i: int| 0 <= i < reordered.len() && #[trigger] reordered[i].name@ == k
            && reordered[i].resolved is Some {
            let i = choose|i: int| 0 <= i < reordered.len() && #[trigger] reordered[i].name@ == k
                && reordered[i].resolved is Some;
            assert(options[to(i)] == reordered[i]);
        }
    }
    assert forall|k: Seq<char>| #[trigger] options_spec(options).contains_key(k)
        implies options_spec(reordered)[k] == options_spec(options)[k] by {
        law_map_holds_resolved_names(options, k);
        let i = choose|i: int| 0 <= i < options.len() && #[trigger] options[i].name@ == k
            && options[i].resolved is Some;
        let j = back(i);
        assert(reordered[j] == options[i]);
        assert forall|m: int|
            i < m < options.len() && #[trigger] options[m].name@ == options[i].name@
                implies options[m].resolved is None by {}
        law_last_resolved_option_wins(options, i);
        assert forall|m: int|
            j < m < reordered.len() && #[trigger] reordered[m].name@ == reordered[j].name@
                implies reordered[m].resolved is None by {}
        law_last_resolved_option_wins(reordered, j);
    }
    assert(options_spec(reordered) =~= options_spec(options));
}

} // verus!
