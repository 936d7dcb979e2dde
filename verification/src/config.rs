//! The sectioned configuration: named sections of keys, each key with an
//! optional value.

use vstd::prelude::*;
use vstd::string::StringExecFns;

verus! {

/// One key of a section with its value, if it has one.
#[derive(Debug)]
pub struct ConfigEntry {
    pub key: String,
    pub value: Option<String>,
}

/// One named section with its keys.
#[derive(Debug)]
pub struct ConfigSection {
    pub name: String,
    pub entries: Vec<ConfigEntry>,
}

/// The keys of one section, as a map from key to optional value.
pub type SectionView = Map<Seq<char>, Option<Seq<char>>>;

/// The text of an optional value.
pub open spec fn value_view(value: Option<String>) -> Option<Seq<char>> {
    match value {
        Some(text) => Some(text@),
        None => None,
    }
}

/// Whether no key occurs twice among `entries`.
pub open spec fn distinct_keys(entries: Seq<ConfigEntry>) -> bool {
    forall|i: int, j: int|
        0 <= i < j < entries.len() ==> (#[trigger] entries[i]).key@ != (#[trigger] entries[j]).key@
}

/// Whether `entries` holds `key` at index `i`.
pub open spec fn key_at(entries: Seq<ConfigEntry>, key: Seq<char>, i: int) -> bool {
    0 <= i < entries.len() && entries[i].key@ == key
}

/// The map that `entries` stands for.
pub open spec fn entries_view(entries: Seq<ConfigEntry>) -> SectionView {
    Map::new(
        |key: Seq<char>| exists|i: int| key_at(entries, key, i),
        |key: Seq<char>| value_view(entries[choose|i: int| key_at(entries, key, i)].value),
    )
}

/// Whether no name occurs twice among `sections`, and no key twice in any
/// of them.
pub open spec fn distinct_sections(sections: Seq<ConfigSection>) -> bool {
    &&& forall|i: int, j: int|
        0 <= i < j < sections.len() ==> (#[trigger] sections[i]).name@ != (
        #[trigger] sections[j]).name@
    &&& forall|i: int| 0 <= i < sections.len() ==> distinct_keys((#[trigger] sections[i]).entries@)
}

/// Whether `sections` holds the section `name` at index `i`.
pub open spec fn section_at(sections: Seq<ConfigSection>, name: Seq<char>, i: int) -> bool {
    0 <= i < sections.len() && sections[i].name@ == name
}

/// The map that `sections` stands for.
pub open spec fn sections_view(sections: Seq<ConfigSection>) -> Map<Seq<char>, SectionView> {
    Map::new(
        |name: Seq<char>| exists|i: int| section_at(sections, name, i),
        |name: Seq<char>|
            entries_view(sections[choose|i: int| section_at(sections, name, i)].entries@),
    )
}

/// What a lookup of `key` in `section` yields: the value, where the section
/// exists, holds the key, and the key has a value.
pub open spec fn configured(
    conf: Map<Seq<char>, SectionView>,
    section: Seq<char>,
    key: Seq<char>,
) -> Option<Seq<char>> {
    if conf.contains_key(section) && conf[section].contains_key(key) {
        conf[section][key]
    } else {
        None
    }
}

/// Position of `key` among `entries`.
pub fn find_key(entries: &Vec<ConfigEntry>, key: &str) -> (r: Option<usize>)
    ensures
        match r {
            Some(i) => key_at(entries@, key@, i as int),
            None => forall|i: int| !key_at(entries@, key@, i),
        },
{
    let wanted = String::from_str(key);
    let mut i: usize = 0;
    while i < entries.len()
        invariant
            i <= entries.len(),
            wanted@ == key@,
            forall|j: int| 0 <= j < i ==> !key_at(entries@, key@, j),
        decreases entries.len() - i,
    {
        if entries[i].key == wanted {
            return Some(i);
        }
        i = i + 1;
    }
    None
}

/// Position of the section `name` among `sections`.
pub fn find_section(sections: &Vec<ConfigSection>, name: &str) -> (r: Option<usize>)
    ensures
        match r {
            Some(i) => section_at(sections@, name@, i as int),
            None => forall|i: int| !section_at(sections@, name@, i),
        },
{
    let wanted = String::from_str(name);
    let mut i: usize = 0;
    while i < sections.len()
        invariant
            i <= sections.len(),
            wanted@ == name@,
            forall|j: int| 0 <= j < i ==> !section_at(sections@, name@, j),
        decreases sections.len() - i,
    {
        if sections[i].name == wanted {
            return Some(i);
        }
        i = i + 1;
    }
    None
}

/// With distinct keys, the entry found at any index is the one that the map
/// holds for its key.
pub proof fn lemma_entry_found(entries: Seq<ConfigEntry>, key: Seq<char>, i: int)
    requires
        distinct_keys(entries),
        key_at(entries, key, i),
    ensures
        entries_view(entries).contains_key(key),
        entries_view(entries)[key] == value_view(entries[i].value),
{
    let j = choose|j: int| key_at(entries, key, j);
    assert(key_at(entries, key, j));
    if i < j {
        assert(entries[i].key@ != entries[j].key@);
    } else if j < i {
        assert(entries[j].key@ != entries[i].key@);
    }
}

/// With distinct names, the section found at any index is the one that the
/// map holds for its name.
pub proof fn lemma_section_found(sections: Seq<ConfigSection>, name: Seq<char>, i: int)
    requires
        distinct_sections(sections),
        section_at(sections, name, i),
    ensures
        sections_view(sections).contains_key(name),
        sections_view(sections)[name] == entries_view(sections[i].entries@),
{
    let j = choose|j: int| section_at(sections, name, j);
    assert(section_at(sections, name, j));
    if i < j {
        assert(sections[i].name@ != sections[j].name@);
    } else if j < i {
        assert(sections[j].name@ != sections[i].name@);
    }
}

/// Replacing the entry at index `i` by one with the same key changes the
/// map at that key only.
pub proof fn lemma_entry_replaced(entries: Seq<ConfigEntry>, i: int, entry: ConfigEntry)
    requires
        distinct_keys(entries),
        key_at(entries, entry.key@, i),
    ensures
        distinct_keys(entries.update(i, entry)),
        entries_view(entries.update(i, entry)) == entries_view(entries).insert(
            entry.key@,
            value_view(entry.value),
        ),
{
    let after = entries.update(i, entry);
    assert(distinct_keys(after)) by {
        assert forall|a: int, b: int| 0 <= a < b < after.len() implies (#[trigger] after[a]).key@ != (
        #[trigger] after[b]).key@ by {
            assert(after[a].key@ == entries[a].key@);
            assert(after[b].key@ == entries[b].key@);
        }
    }
    let expected = entries_view(entries).insert(entry.key@, value_view(entry.value));
    assert forall|key: Seq<char>| entries_view(after).contains_key(key) <==> expected.contains_key(
        key,
    ) by {
        if entries_view(after).contains_key(key) {
            let j = choose|j: int| key_at(after, key, j);
            assert(key_at(entries, key, j));
        }
        if expected.contains_key(key) && key != entry.key@ {
            let j = choose|j: int| key_at(entries, key, j);
            assert(key_at(after, key, j));
        }
        if key == entry.key@ {
            assert(key_at(after, key, i));
        }
    }
    assert forall|key: Seq<char>| entries_view(after).contains_key(key) implies entries_view(
        after,
    )[key] == expected[key] by {
        let j = choose|j: int| key_at(after, key, j);
        lemma_entry_found(after, key, j);
        if key != entry.key@ {
            assert(key_at(entries, key, j));
            lemma_entry_found(entries, key, j);
        } else {
            lemma_entry_found(after, key, i);
        }
    }
    assert(entries_view(after) =~= expected);
}

/// Appending an entry whose key is new adds that key to the map.
pub proof fn lemma_entry_appended(entries: Seq<ConfigEntry>, entry: ConfigEntry)
    requires
        distinct_keys(entries),
        forall|i: int| !key_at(entries, entry.key@, i),
    ensures
        distinct_keys(entries.push(entry)),
        entries_view(entries.push(entry)) == entries_view(entries).insert(
            entry.key@,
            value_view(entry.value),
        ),
{
    let after = entries.push(entry);
    assert(distinct_keys(after)) by {
        assert forall|a: int, b: int| 0 <= a < b < after.len() implies (#[trigger] after[a]).key@ != (
        #[trigger] after[b]).key@ by {
            assert(after[a] == entries[a]);
            if b < entries.len() {
                assert(after[b] == entries[b]);
            } else {
                assert(!key_at(entries, entry.key@, a));
            }
        }
    }
    let expected = entries_view(entries).insert(entry.key@, value_view(entry.value));
    let last = entries.len() as int;
    assert forall|key: Seq<char>| entries_view(after).contains_key(key) <==> expected.contains_key(
        key,
    ) by {
        if entries_view(after).contains_key(key) {
            let j = choose|j: int| key_at(after, key, j);
            if j < last {
                assert(key_at(entries, key, j));
            }
        }
        if expected.contains_key(key) && key != entry.key@ {
            let j = choose|j: int| key_at(entries, key, j);
            assert(key_at(after, key, j));
        }
        if key == entry.key@ {
            assert(key_at(after, key, last));
        }
    }
    assert forall|key: Seq<char>| entries_view(after).contains_key(key) implies entries_view(
        after,
    )[key] == expected[key] by {
        let j = choose|j: int| key_at(after, key, j);
        lemma_entry_found(after, key, j);
        if key != entry.key@ {
            assert(key_at(entries, key, j));
            lemma_entry_found(entries, key, j);
        } else {
            lemma_entry_found(after, key, last);
        }
    }
    assert(entries_view(after) =~= expected);
}

/// Replacing the section at index `i` by one with the same name changes the
/// map at that name only.
pub proof fn lemma_section_replaced(sections: Seq<ConfigSection>, i: int, section: ConfigSection)
    requires
        distinct_sections(sections),
        section_at(sections, section.name@, i),
        distinct_keys(section.entries@),
    ensures
        distinct_sections(sections.update(i, section)),
        sections_view(sections.update(i, section)) == sections_view(sections).insert(
            section.name@,
            entries_view(section.entries@),
        ),
{
    let after = sections.update(i, section);
    assert(distinct_sections(after)) by {
        assert forall|a: int, b: int| 0 <= a < b < after.len() implies (#[trigger] after[a]).name@
            != (#[trigger] after[b]).name@ by {
            assert(after[a].name@ == sections[a].name@);
            assert(after[b].name@ == sections[b].name@);
        }
        assert forall|a: int| 0 <= a < after.len() implies distinct_keys(
            (#[trigger] after[a]).entries@,
        ) by {
            if a != i {
                assert(after[a] == sections[a]);
            }
        }
    }
    let expected = sections_view(sections).insert(section.name@, entries_view(section.entries@));
    assert forall|name: Seq<char>| sections_view(after).contains_key(name)
        <==> expected.contains_key(name) by {
        if sections_view(after).contains_key(name) {
            let j = choose|j: int| section_at(after, name, j);
            assert(section_at(sections, name, j));
        }
        if expected.contains_key(name) && name != section.name@ {
            let j = choose|j: int| section_at(sections, name, j);
            assert(section_at(after, name, j));
        }
        if name == section.name@ {
            assert(section_at(after, name, i));
        }
    }
    assert forall|name: Seq<char>| sections_view(after).contains_key(name) implies sections_view(
        after,
    )[name] == expected[name] by {
        let j = choose|j: int| section_at(after, name, j);
        lemma_section_found(after, name, j);
        if name != section.name@ {
            assert(section_at(sections, name, j));
            lemma_section_found(sections, name, j);
        } else {
            lemma_section_found(after, name, i);
        }
    }
    assert(sections_view(after) =~= expected);
}

/// Appending a section whose name is new adds that name to the map.
pub proof fn lemma_section_appended(sections: Seq<ConfigSection>, section: ConfigSection)
    requires
        distinct_sections(sections),
        forall|i: int| !section_at(sections, section.name@, i),
        distinct_keys(section.entries@),
    ensures
        distinct_sections(sections.push(section)),
        sections_view(sections.push(section)) == sections_view(sections).insert(
            section.name@,
            entries_view(section.entries@),
        ),
{
    let after = sections.push(section);
    let last = sections.len() as int;
    assert(distinct_sections(after)) by {
        assert forall|a: int, b: int| 0 <= a < b < after.len() implies (#[trigger] after[a]).name@
            != (#[trigger] after[b]).name@ by {
            assert(after[a] == sections[a]);
            if b < last {
                assert(after[b] == sections[b]);
            } else {
                assert(!section_at(sections, section.name@, a));
            }
        }
        assert forall|a: int| 0 <= a < after.len() implies distinct_keys(
            (#[trigger] after[a]).entries@,
        ) by {
            if a < last {
                assert(after[a] == sections[a]);
            }
        }
    }
    let expected = sections_view(sections).insert(section.name@, entries_view(section.entries@));
    assert forall|name: Seq<char>| sections_view(after).contains_key(name)
        <==> expected.contains_key(name) by {
        if sections_view(after).contains_key(name) {
            let j = choose|j: int| section_at(after, name, j);
            if j < last {
                assert(section_at(sections, name, j));
            }
        }
        if expected.contains_key(name) && name != section.name@ {
            let j = choose|j: int| section_at(sections, name, j);
            assert(section_at(after, name, j));
        }
        if name == section.name@ {
            assert(section_at(after, name, last));
        }
    }
    assert forall|name: Seq<char>| sections_view(after).contains_key(name) implies sections_view(
        after,
    )[name] == expected[name] by {
        let j = choose|j: int| section_at(after, name, j);
        lemma_section_found(after, name, j);
        if name != section.name@ {
            assert(section_at(sections, name, j));
            lemma_section_found(sections, name, j);
        } else {
            lemma_section_found(after, name, last);
        }
    }
    assert(sections_view(after) =~= expected);
}

/// The configuration of the program.
#[derive(Debug)]
pub struct SectionedConfigMap {
    sections: Vec<ConfigSection>,
}

impl View for SectionedConfigMap {
    type V = Map<Seq<char>, SectionView>;

    closed spec fn view(&self) -> Map<Seq<char>, SectionView> {
        sections_view(self.sections@)
    }
}

impl SectionedConfigMap {
    /// No section and no key of a section occurs twice.
    #[verifier::type_invariant]
    spec fn distinct(self) -> bool {
        distinct_sections(self.sections@)
    }

    /// A configuration without sections.
    pub fn new() -> (r: SectionedConfigMap)
        ensures
            r@ == Map::<Seq<char>, SectionView>::empty(),
    {
        let r = SectionedConfigMap { sections: Vec::new() };
        assert(r@ =~= Map::<Seq<char>, SectionView>::empty());
        r
    }

    /// Looks up the value of `key` in `section`.
    pub fn get(&self, section: &str, key: &str) -> (r: Option<&String>)
        ensures
            match r {
                Some(text) => configured(self@, section@, key@) == Some(text@),
                None => configured(self@, section@, key@) is None,
            },
    {
        proof {
            use_type_invariant(self);
        }
        match find_section(&self.sections, section) {
            Some(i) => {
                proof {
                    lemma_section_found(self.sections@, section@, i as int);
                }
                let entries = &self.sections[i].entries;
                match find_key(entries, key) {
                    Some(j) => {
                        proof {
                            lemma_entry_found(entries@, key@, j as int);
                        }
                        entries[j].value.as_ref()
                    },
                    None => {
                        assert(!entries_view(entries@).contains_key(key@));
                        None
                    },
                }
            },
            None => {
                assert(!self@.contains_key(section@));
                None
            },
        }
    }

    /// The keys of `section`, or none where the section does not exist.
    pub open spec fn section_or_empty(
        conf: Map<Seq<char>, SectionView>,
        section: Seq<char>,
    ) -> SectionView {
        if conf.contains_key(section) {
            conf[section]
        } else {
            Map::empty()
        }
    }

    /// Gives `key` in `section` the value `value`, creating the section and
    /// the key where they do not exist yet.
    pub fn set(&mut self, section: &str, key: &str, value: Option<String>)
        ensures
            final(self)@ == old(self)@.insert(
                section@,
                Self::section_or_empty(old(self)@, section@).insert(key@, value_view(value)),
            ),
    {
        proof {
            use_type_invariant(&*self);
        }
        let entry = ConfigEntry { key: String::from_str(key), value };
        let ghost before = self.sections@;
        let mut sections: Vec<ConfigSection> = Vec::new();
        std::mem::swap(&mut sections, &mut self.sections);
        match find_section(&sections, section) {
            Some(i) => {
                proof {
                    lemma_section_found(before, section@, i as int);
                }
                let mut found = sections.remove(i);
                let ghost entries = found.entries@;
                match find_key(&found.entries, key) {
                    Some(j) => {
                        proof {
                            lemma_entry_replaced(entries, j as int, entry);
                        }
                        found.entries.set(j, entry);
                    },
                    None => {
                        proof {
                            lemma_entry_appended(entries, entry);
                        }
                        found.entries.push(entry);
                    },
                }
                proof {
                    lemma_section_replaced(before, i as int, found);
                }
                sections.insert(i, found);
                assert(sections@ =~= before.update(i as int, found));
            },
            None => {
                let mut entries: Vec<ConfigEntry> = Vec::new();
                proof {
                    lemma_entry_appended(entries@, entry);
                    assert(entries_view(entries@) =~= Map::<Seq<char>, Option<Seq<char>>>::empty());
                    assert(!old(self)@.contains_key(section@));
                }
                entries.push(entry);
                let added = ConfigSection { name: String::from_str(section), entries };
                proof {
                    lemma_section_appended(before, added);
                }
                sections.push(added);
            },
        }
        self.sections = sections;
    }
}

} // verus!
