use vstd::prelude::*;

use crate::settings::{SettingKey, SettingValue, SettingValueModel};

verus! {

/// One user override: a setting and the value written for it.
#[derive(Debug)]
pub struct StoreEntry {
    pub key: SettingKey,
    pub value: SettingValue,
}

/// The value an override list gives to `k`: the last entry for `k` wins.
pub open spec fn lookup(s: Seq<StoreEntry>, k: SettingKey) -> Option<SettingValueModel>
    decreases s.len(),
{
    if s.len() == 0 {
        None
    } else if s.last().key == k {
        Some(s.last().value@)
    } else {
        lookup(s.drop_last(), k)
    }
}

/// The override list with every entry for `k` taken out.
pub open spec fn without(s: Seq<StoreEntry>, k: SettingKey) -> Seq<StoreEntry>
    decreases s.len(),
{
    if s.len() == 0 {
        s
    } else if s.last().key == k {
        without(s.drop_last(), k)
    } else {
        without(s.drop_last(), k).push(s.last())
    }
}

/// The value that `k` takes under the overrides `s`: its override, or its default.
pub open spec fn effective(s: Seq<StoreEntry>, k: SettingKey) -> SettingValueModel {
    match lookup(s, k) {
        Some(v) => v,
        None => k.spec_default(),
    }
}

/// Every entry names a user-settable setting and holds a legal value for it.
pub open spec fn entries_valid(s: Seq<StoreEntry>) -> bool {
    forall|i: int|
        0 <= i < s.len() ==> (#[trigger] s[i]).key.spec_writable() && s[i].key.spec_accepts(
            s[i].value@,
        )
}

pub proof fn lemma_without_lookup(s: Seq<StoreEntry>, k: SettingKey, j: SettingKey)
    ensures
        lookup(without(s, k), j) == if j == k {
            None
        } else {
            lookup(s, j)
        },
    decreases s.len(),
{
    if s.len() > 0 {
        lemma_without_lookup(s.drop_last(), k, j);
        if s.last().key != k {
            let w = without(s.drop_last(), k);
            assert(w.push(s.last()).drop_last() =~= w);
        }
    }
}

pub proof fn lemma_without_valid(s: Seq<StoreEntry>, k: SettingKey)
    requires
        entries_valid(s),
    ensures
        entries_valid(without(s, k)),
    decreases s.len(),
{
    if s.len() > 0 {
        assert(entries_valid(s.drop_last())) by {
            assert forall|i: int| 0 <= i < s.drop_last().len() implies (#[trigger] s.drop_last()[i]).key.spec_writable()
                && s.drop_last()[i].key.spec_accepts(s.drop_last()[i].value@) by {
                assert(s.drop_last()[i] == s[i]);
            }
        }
        lemma_without_valid(s.drop_last(), k);
        if s.last().key != k {
            let w = without(s.drop_last(), k);
            assert forall|i: int| 0 <= i < w.push(s.last()).len() implies (#[trigger] w.push(
                s.last(),
            )[i]).key.spec_writable() && w.push(s.last())[i].key.spec_accepts(
                w.push(s.last())[i].value@,
            ) by {
                if i < w.len() {
                    assert(w.push(s.last())[i] == w[i]);
                } else {
                    assert(s.last() == s[s.len() - 1]);
                }
            }
        }
    }
}

/// The user overrides of the settings, as the persisted store holds them.
///
/// A store read back from disk may hold entries that the schema refuses;
/// such a store cannot become a snapshot (see `entries_valid`).
#[derive(Debug)]
pub struct SettingsStore {
    pub entries: Vec<StoreEntry>,
}

impl SettingsStore {
    pub open spec fn spec_entries(&self) -> Seq<StoreEntry> {
        self.entries@
    }

    /// A store without overrides.
    pub fn new() -> (r: SettingsStore)
        ensures
            r.entries@.len() == 0,
    {
        SettingsStore { entries: Vec::new() }
    }

    /// A store holding `entries` as they were read, legal or not.
    pub fn from_entries(entries: Vec<StoreEntry>) -> (r: SettingsStore)
        ensures
            r.entries@ == entries@,
    {
        SettingsStore { entries }
    }

    /// The override for `k`, if there is one.
    pub fn lookup(&self, k: SettingKey) -> (r: Option<SettingValue>)
        ensures
            match r {
                Some(v) => lookup(self.entries@, k) == Some(v@),
                None => lookup(self.entries@, k) is None,
            },
    {
        let mut found: Option<SettingValue> = None;
        let mut i: usize = 0;
        while i < self.entries.len()
            invariant
                i <= self.entries@.len(),
                match found {
                    Some(v) => lookup(self.entries@.subrange(0, i as int), k) == Some(v@),
                    None => lookup(self.entries@.subrange(0, i as int), k) is None,
                },
            decreases self.entries@.len() - i,
        {
            assert(self.entries@.subrange(0, i as int + 1).drop_last() =~= self.entries@.subrange(
                0,
                i as int,
            ));
            if self.entries[i].key == k {
                found = Some(self.entries[i].value.duplicate());
            }
            i = i + 1;
        }
        assert(self.entries@.subrange(0, i as int) =~= self.entries@);
        found
    }

    /// The value `k` takes: its override, or its default.
    pub fn effective_value(&self, k: SettingKey) -> (r: SettingValue)
        ensures
            r@ == effective(self.entries@, k),
    {
        match self.lookup(k) {
            Some(v) => v,
            None => k.default_value(),
        }
    }

    /// Whether every entry is one that the schema accepts.
    pub fn is_valid(&self) -> (r: bool)
        ensures
            r == entries_valid(self.entries@),
    {
        let mut i: usize = 0;
        while i < self.entries.len()
            invariant
                i <= self.entries@.len(),
                entries_valid(self.entries@.subrange(0, i as int)),
            decreases self.entries@.len() - i,
        {
            let e = &self.entries[i];
            if !(e.key.writable() && e.key.accepts(&e.value)) {
                assert(!entries_valid(self.entries@));
                return false;
            }
            assert forall|j: int| 0 <= j < i + 1 implies (#[trigger] self.entries@.subrange(
                0,
                i as int + 1,
            )[j]).key.spec_writable() && self.entries@.subrange(0, i as int + 1)[j].key.spec_accepts(
                self.entries@.subrange(0, i as int + 1)[j].value@,
            ) by {
                if j < i {
                    assert(self.entries@.subrange(0, i as int + 1)[j] == self.entries@.subrange(
                        0,
                        i as int,
                    )[j]);
                }
            }
            i = i + 1;
        }
        assert(self.entries@.subrange(0, i as int) =~= self.entries@);
        true
    }

    /// Takes out every override of `k`.
    pub fn remove(&mut self, k: SettingKey)
        ensures
            final(self).entries@ == without(old(self).entries@, k),
    {
        let mut kept: Vec<StoreEntry> = Vec::new();
        let mut i: usize = 0;
        while i < self.entries.len()
            invariant
                i <= self.entries@.len(),
                kept@ == without(self.entries@.subrange(0, i as int), k),
            decreases self.entries@.len() - i,
        {
            assert(self.entries@.subrange(0, i as int + 1).drop_last() =~= self.entries@.subrange(
                0,
                i as int,
            ));
            if self.entries[i].key != k {
                let e = StoreEntry { key: self.entries[i].key, value: self.entries[i].value.duplicate() };
                kept.push(e);
                assert(kept@ =~= without(self.entries@.subrange(0, i as int + 1), k));
            }
            i = i + 1;
        }
        assert(self.entries@.subrange(0, i as int) =~= self.entries@);
        self.entries = kept;
    }

    /// Records `v` as the override of `k`, replacing any earlier one.
    pub fn write(&mut self, k: SettingKey, v: SettingValue)
        ensures
            final(self).entries@ == without(old(self).entries@, k).push(StoreEntry { key: k, value: v }),
    {
        self.remove(k);
        self.entries.push(StoreEntry { key: k, value: v });
    }
}

} // verus!
