//! The operator's configuration: the credential and the names to manage.

use vstd::prelude::*;
use vstd::string::*;

verus! {

/// The texts of a list of names.
pub open spec fn texts(names: Seq<String>) -> Seq<Seq<char>> {
    Seq::new(names.len(), |i: int| names[i]@)
}

/// What a [`ZoneConfig`] holds, as plain sequences.
pub struct ZoneConfigView {
    pub zone_id: Seq<char>,
    pub records: Seq<Seq<char>>,
}

/// One zone to manage: the provider's identifier of the zone and the
/// fully-qualified names in it that follow the public address.
#[derive(Debug, PartialEq, Eq)]
pub struct ZoneConfig {
    pub zone_id: String,
    pub records: Vec<String>,
}

impl View for ZoneConfig {
    type V = ZoneConfigView;

    open spec fn view(&self) -> ZoneConfigView {
        ZoneConfigView { zone_id: self.zone_id@, records: texts(self.records@) }
    }
}

impl Clone for ZoneConfig {
    fn clone(&self) -> (copy: ZoneConfig)
        ensures
            copy@ == self@,
    {
        let mut records: Vec<String> = Vec::new();
        let mut i: usize = 0;
        while i < self.records.len()
            invariant
                i <= self.records.len(),
                records@.len() == i,
                forall|k: int| 0 <= k < i ==> records@[k]@ == self.records@[k]@,
            decreases self.records.len() - i,
        {
            records.push(self.records[i].clone());
            i += 1;
        }
        assert(texts(records@) =~= texts(self.records@));
        ZoneConfig { zone_id: self.zone_id.clone(), records }
    }
}

impl ZoneConfig {
    /// Whether `name` is one of the names this zone manages.
    pub fn manages(&self, name: &String) -> (found: bool)
        ensures
            found == self@.records.contains(name@),
    {
        let mut i: usize = 0;
        while i < self.records.len()
            invariant
                i <= self.records.len(),
                forall|k: int| 0 <= k < i ==> self@.records[k] != name@,
            decreases self.records.len() - i,
        {
            let candidate: &String = &self.records[i];
            assert(self@.records[i as int] == candidate@);
            if *candidate == *name {
                return true;
            }
            i += 1;
        }
        false
    }
}

/// Whether no label stands twice among the entries.
pub open spec fn labels_distinct(entries: Seq<(Seq<char>, ZoneConfigView)>) -> bool {
    forall|i: int, j: int| 0 <= i < j < entries.len() ==> entries[i].0 != entries[j].0
}

/// The zones to manage, each under an operator-facing label. A label stands
/// at most once; the zones keep the order in which their labels first came.
#[derive(Debug)]
pub struct ZoneTable {
    entries: Vec<(String, ZoneConfig)>,
}

impl View for ZoneTable {
    type V = Seq<(Seq<char>, ZoneConfigView)>;

    closed spec fn view(&self) -> Seq<(Seq<char>, ZoneConfigView)> {
        pairs(self.entries@)
    }
}

/// Each entry by the text of its label and the view of its zone.
spec fn pairs(entries: Seq<(String, ZoneConfig)>) -> Seq<(Seq<char>, ZoneConfigView)> {
    Seq::new(entries.len(), |i: int| (entries[i].0@, entries[i].1@))
}

impl Clone for ZoneTable {
    fn clone(&self) -> (copy: ZoneTable)
        ensures
            copy@ == self@,
    {
        proof {
            use_type_invariant(self);
        }
        let mut entries: Vec<(String, ZoneConfig)> = Vec::new();
        let mut i: usize = 0;
        while i < self.entries.len()
            invariant
                i <= self.entries.len(),
                entries@.len() == i,
                forall|k: int|
                    0 <= k < i ==> entries@[k].0@ == self.entries@[k].0@ && entries@[k].1@
                        == self.entries@[k].1@,
            decreases self.entries.len() - i,
        {
            let entry = &self.entries[i];
            entries.push((entry.0.clone(), entry.1.clone()));
            i += 1;
        }
        assert(pairs(entries@) =~= pairs(self.entries@));
        ZoneTable { entries }
    }
}

impl ZoneTable {
    #[verifier::type_invariant]
    spec fn labels_stand_once(self) -> bool {
        labels_distinct(self@)
    }

    /// A table without zones.
    pub fn new() -> (table: ZoneTable)
        ensures
            table@ == Seq::<(Seq<char>, ZoneConfigView)>::empty(),
    {
        let entries: Vec<(String, ZoneConfig)> = Vec::new();
        ZoneTable { entries }
    }

    /// A table holds no more zones than can be counted.
    pub proof fn lemma_count_fits(&self)
        ensures
            self@.len() <= usize::MAX,
    {
        assert(self.entries@.len() == self.entries.len());
    }

    /// The number of zones.
    pub fn len(&self) -> (n: usize)
        ensures
            n == self@.len(),
    {
        self.entries.len()
    }

    /// The label of the zone at `index`.
    pub fn label_at(&self, index: usize) -> (label: &String)
        requires
            index < self@.len(),
        ensures
            label@ == self@[index as int].0,
    {
        &self.entries[index].0
    }

    /// The zone at `index`.
    pub fn zone_at(&self, index: usize) -> (zone: &ZoneConfig)
        requires
            index < self@.len(),
        ensures
            zone@ == self@[index as int].1,
    {
        &self.entries[index].1
    }

    /// Where `label` stands, if it does.
    pub fn position(&self, label: &String) -> (found: Option<usize>)
        ensures
            labels_distinct(self@),
            match found {
                Some(i) => i < self@.len() && self@[i as int].0 == label@,
                None => forall|k: int| 0 <= k < self@.len() ==> self@[k].0 != label@,
            },
    {
        proof {
            use_type_invariant(self);
        }
        let mut i: usize = 0;
        while i < self.entries.len()
            invariant
                i <= self.entries.len(),
                labels_distinct(self@),
                forall|k: int| 0 <= k < i ==> self@[k].0 != label@,
            decreases self.entries.len() - i,
        {
            let candidate: &String = &self.entries[i].0;
            if *candidate == *label {
                return Some(i);
            }
            i += 1;
        }
        None
    }

    /// Puts `zone` under `label`. A zone that stood under that label leaves
    /// its place to the new one and is handed back; otherwise the new zone
    /// comes last.
    pub fn insert(&mut self, label: String, zone: ZoneConfig) -> (displaced: Option<ZoneConfig>)
        ensures
            match displaced {
                Some(previous) => exists|i: int|
                    0 <= i < old(self)@.len() && old(self)@[i].0 == label@
                        && previous@ == old(self)@[i].1
                        && final(self)@ == old(self)@.update(i, (label@, zone@)),
                None => (forall|k: int| 0 <= k < old(self)@.len() ==> old(self)@[k].0 != label@)
                    && final(self)@ == old(self)@.push((label@, zone@)),
            },
    {
        let found = self.position(&label);
        let ghost before = self@;
        let mut entries: Vec<(String, ZoneConfig)> = Vec::new();
        core::mem::swap(&mut self.entries, &mut entries);
        match found {
            Some(i) => {
                let previous = entries.remove(i);
                entries.insert(i, (label, zone));
                assert(pairs(entries@) =~= before.update(i as int, (label@, zone@)));
                self.entries = entries;
                Some(previous.1)
            },
            None => {
                entries.push((label, zone));
                assert(pairs(entries@) =~= before.push((label@, zone@)));
                self.entries = entries;
                None
            },
        }
    }
}

/// What a [`Config`] holds, as plain sequences.
pub struct ConfigView {
    pub cf_api_key: Seq<char>,
    pub records_to_update: Seq<(Seq<char>, ZoneConfigView)>,
}

/// The configuration of one run.
#[derive(Debug)]
pub struct Config {
    pub cf_api_key: String,
    pub records_to_update: ZoneTable,
}

impl View for Config {
    type V = ConfigView;

    open spec fn view(&self) -> ConfigView {
        ConfigView { cf_api_key: self.cf_api_key@, records_to_update: self.records_to_update@ }
    }
}

impl Clone for Config {
    fn clone(&self) -> (copy: Config)
        ensures
            copy@ == self@,
    {
        Config {
            cf_api_key: self.cf_api_key.clone(),
            records_to_update: self.records_to_update.clone(),
        }
    }
}

} // verus!
