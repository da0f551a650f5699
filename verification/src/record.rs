//! DNS records as the provider lists them.

use vstd::prelude::*;
use vstd::string::*;
use crate::config::{Config, ConfigView, ZoneConfigView};

verus! {

/// What a [`Record`] holds, as plain sequences of characters.
pub struct RecordView {
    pub id: Seq<char>,
    pub zone_id: Seq<char>,
    pub name: Seq<char>,
    pub kind: Seq<char>,
    pub content: Seq<char>,
}

/// One DNS entry of a zone, field for field as the provider reports it.
#[derive(Debug, PartialEq, Eq)]
pub struct Record {
    pub id: String,
    pub zone_id: String,
    pub name: String,
    pub kind: String,
    pub content: String,
}

impl View for Record {
    type V = RecordView;

    open spec fn view(&self) -> RecordView {
        RecordView {
            id: self.id@,
            zone_id: self.zone_id@,
            name: self.name@,
            kind: self.kind@,
            content: self.content@,
        }
    }
}

impl Clone for Record {
    fn clone(&self) -> (copy: Record)
        ensures
            copy@ == self@,
    {
        Record {
            id: self.id.clone(),
            zone_id: self.zone_id.clone(),
            name: self.name.clone(),
            kind: self.kind.clone(),
            content: self.content.clone(),
        }
    }
}

/// The record with `content` in place of its content and every other field
/// as it was.
pub open spec fn rewritten(record: RecordView, content: Seq<char>) -> RecordView {
    RecordView { content, ..record }
}

impl Record {
    /// The record as it is sent back to the provider: its content replaced
    /// by `ip`, its identifier, zone, name and kind untouched.
    pub fn with_content(self, ip: &str) -> (patch: Record)
        ensures
            patch@ == rewritten(self@, ip@),
            patch@.id == self@.id,
            patch@.zone_id == self@.zone_id,
            patch@.name == self@.name,
            patch@.kind == self@.kind,
            patch@.content == ip@,
    {
        let mut patch = self;
        patch.content = String::from_str(ip);
        patch
    }

    /// Builds a record from its five fields.
    pub fn new(id: &str, zone_id: &str, name: &str, kind: &str, content: &str) -> (record: Record)
        ensures
            record@.id == id@,
            record@.zone_id == zone_id@,
            record@.name == name@,
            record@.kind == kind@,
            record@.content == content@,
    {
        Record {
            id: String::from_str(id),
            zone_id: String::from_str(zone_id),
            name: String::from_str(name),
            kind: String::from_str(kind),
            content: String::from_str(content),
        }
    }
}

/// The texts of a list of records.
pub open spec fn record_views(records: Seq<Record>) -> Seq<RecordView> {
    Seq::new(records.len(), |i: int| records[i]@)
}

/// What a [`CfResponse`] holds, as plain sequences.
pub struct CfResponseView {
    pub success: bool,
    pub errors: Seq<Seq<char>>,
    pub result: Seq<RecordView>,
}

/// The envelope in which the provider answers a listing.
#[derive(Debug, PartialEq, Eq)]
pub struct CfResponse {
    pub success: bool,
    pub errors: Vec<String>,
    pub result: Vec<Record>,
}

impl View for CfResponse {
    type V = CfResponseView;

    open spec fn view(&self) -> CfResponseView {
        CfResponseView {
            success: self.success,
            errors: crate::config::texts(self.errors@),
            result: record_views(self.result@),
        }
    }
}

impl CfResponse {
    /// The records of the envelope, whatever its `success` and `errors` say.
    pub fn into_records(self) -> (records: Vec<Record>)
        ensures
            record_views(records@) == self@.result,
    {
        self.result
    }
}

/// What the selector makes of one record.
#[derive(Debug, Clone, Copy, PartialEq, Eq, Structural)]
pub enum Decision {
    /// The record is none of the managed address records.
    Skip,
    /// The record is managed and already carries the desired address.
    UpToDate,
    /// The record is managed and must be rewritten.
    Update,
}

/// Whether the zone at `index` has the record's zone identifier and lists
/// the record's name.
pub open spec fn zone_lists(zones: Seq<(Seq<char>, ZoneConfigView)>, index: int, record: RecordView) -> bool {
    zones[index].1.zone_id == record.zone_id && zones[index].1.records.contains(record.name)
}

/// Whether some configured zone has the record's zone identifier.
pub open spec fn zone_configured(config: ConfigView, record: RecordView) -> bool {
    exists|i: int|
        0 <= i < config.records_to_update.len() && (#[trigger] config.records_to_update[i]).1.zone_id
            == record.zone_id
}

/// Whether some configured zone has the record's zone identifier and lists
/// the record's name.
pub open spec fn name_listed(config: ConfigView, record: RecordView) -> bool {
    exists|i: int|
        0 <= i < config.records_to_update.len() && #[trigger] zone_lists(config.records_to_update, i, record)
}

/// Whether the record is one that the configuration manages: an address
/// record whose name a configured zone of its zone identifier lists.
pub open spec fn managed(config: ConfigView, record: RecordView) -> bool {
    record.kind == "A"@ && name_listed(config, record)
}

/// The selector's decision on one record.
pub open spec fn decision(config: ConfigView, record: RecordView, desired_ip: Seq<char>) -> Decision {
    if !managed(config, record) {
        Decision::Skip
    } else if record.content == desired_ip {
        Decision::UpToDate
    } else {
        Decision::Update
    }
}

/// Whether the record must be rewritten to carry `desired_ip`.
pub open spec fn should_update(config: ConfigView, record: RecordView, desired_ip: Seq<char>) -> bool {
    decision(config, record, desired_ip) == Decision::Update
}

/// The records of a listing that must be rewritten, in the listing's order.
pub open spec fn survivors(config: ConfigView, records: Seq<RecordView>, desired_ip: Seq<char>) -> Seq<RecordView> {
    records.filter(|record: RecordView| should_update(config, record, desired_ip))
}

/// The records of a listing that already carry the desired address, in the
/// listing's order.
pub open spec fn settled(config: ConfigView, records: Seq<RecordView>, desired_ip: Seq<char>) -> Seq<RecordView> {
    records.filter(|record: RecordView| decision(config, record, desired_ip) == Decision::UpToDate)
}

/// A listing parted by the selector.
#[derive(Debug, PartialEq, Eq)]
pub struct Selection {
    /// The records to rewrite.
    pub rewrite: Vec<Record>,
    /// The managed records that need no rewrite.
    pub current: Vec<Record>,
}

/// Whether some configured zone has the record's zone identifier and lists
/// its name.
fn listed_in_config(config: &Config, record: &Record) -> (found: bool)
    ensures
        found == name_listed(config@, record@),
{
    let zones = &config.records_to_update;
    let mut i: usize = 0;
    while i < zones.len()
        invariant
            i <= zones@.len(),
            zones@ == config@.records_to_update,
            forall|k: int| 0 <= k < i ==> !zone_lists(zones@, k, record@),
        decreases zones@.len() - i,
    {
        let zone = zones.zone_at(i);
        if zone.zone_id == record.zone_id && zone.manages(&record.name) {
            assert(zone_lists(zones@, i as int, record@));
            return true;
        }
        i += 1;
    }
    false
}

/// Decides what is to be done with one record.
pub fn classify(config: &Config, record: &Record, new_ip: &String) -> (verdict: Decision)
    ensures
        verdict == decision(config@, record@, new_ip@),
{
    let address_kind = String::from_str("A");
    if record.kind != address_kind {
        return Decision::Skip;
    }
    if !listed_in_config(config, record) {
        return Decision::Skip;
    }
    if record.content == *new_ip {
        return Decision::UpToDate;
    }
    Decision::Update
}

/// Tells whether a record must be rewritten: it is an address record, some
/// configured zone of its zone identifier lists its name, and its content is
/// not yet the new address.
pub fn record_filter(config: &Config, record: &Record, new_ip: &String) -> (rewrite: bool)
    ensures
        rewrite == should_update(config@, record@, new_ip@),
        record@.kind != "A"@ ==> !rewrite,
        !zone_configured(config@, record@) ==> !rewrite,
        !name_listed(config@, record@) ==> !rewrite,
        record@.content == new_ip@ ==> !rewrite,
        record@.kind == "A"@ && name_listed(config@, record@) && record@.content != new_ip@ ==> rewrite,
{
    match classify(config, record, new_ip) {
        Decision::Update => true,
        _ => false,
    }
}

/// Parts a listing: the records to rewrite and the managed records that
/// already carry the new address, each in the listing's order. The other
/// records are dropped.
pub fn select(config: &Config, records: Vec<Record>, new_ip: &String) -> (parts: Selection)
    ensures
        record_views(parts.rewrite@) == survivors(config@, record_views(records@), new_ip@),
        record_views(parts.current@) == settled(config@, record_views(records@), new_ip@),
{
    let ghost listing = record_views(records@);
    let ghost wanted = |record: RecordView| should_update(config@, record, new_ip@);
    let ghost kept = |record: RecordView| decision(config@, record, new_ip@) == Decision::UpToDate;
    let mut rewrite: Vec<Record> = Vec::new();
    let mut current: Vec<Record> = Vec::new();
    let mut i: usize = 0;
    while i < records.len()
        invariant
            i <= records.len(),
            listing == record_views(records@),
            wanted == |record: RecordView| should_update(config@, record, new_ip@),
            kept == |record: RecordView| decision(config@, record, new_ip@) == Decision::UpToDate,
            record_views(rewrite@) == listing.take(i as int).filter(wanted),
            record_views(current@) == listing.take(i as int).filter(kept),
        decreases records.len() - i,
    {
        let record = records[i].clone();
        let ghost done = listing.take(i as int);
        proof {
            assert(listing.take(i + 1) =~= done.push(listing[i as int]));
            done.lemma_filter_push(listing[i as int], wanted);
            done.lemma_filter_push(listing[i as int], kept);
        }
        match classify(config, &record, new_ip) {
            Decision::Update => {
                rewrite.push(record);
            },
            Decision::UpToDate => {
                current.push(record);
            },
            Decision::Skip => {},
        }
        i += 1;
    }
    assert(listing.take(records.len() as int) =~= listing);
    Selection { rewrite, current }
}

/// The records of a listing that must be rewritten, in the listing's order.
pub fn filter_records(config: &Config, records: Vec<Record>, new_ip: &String) -> (filtered: Vec<Record>)
    ensures
        record_views(filtered@) == survivors(config@, record_views(records@), new_ip@),
{
    select(config, records, new_ip).rewrite
}

/// A zone that lists the record's name under its zone identifier is a
/// configured zone of that identifier.
pub proof fn lemma_listed_zone_is_configured(config: ConfigView, record: RecordView)
    ensures
        name_listed(config, record) ==> zone_configured(config, record),
{
}

/// A record that is no address record is skipped.
pub proof fn lemma_other_kind_is_skipped(config: ConfigView, record: RecordView, desired_ip: Seq<char>)
    requires
        record.kind != "A"@,
    ensures
        decision(config, record, desired_ip) == Decision::Skip,
        !should_update(config, record, desired_ip),
{
}

/// A record of a zone that is not configured is skipped.
pub proof fn lemma_unknown_zone_is_skipped(config: ConfigView, record: RecordView, desired_ip: Seq<char>)
    requires
        !zone_configured(config, record),
    ensures
        decision(config, record, desired_ip) == Decision::Skip,
        !should_update(config, record, desired_ip),
{
}

/// A record whose zone is configured at `index` without its name is skipped,
/// where no other configured zone of the same identifier lists the name.
pub proof fn lemma_unlisted_name_is_skipped(
    config: ConfigView,
    record: RecordView,
    desired_ip: Seq<char>,
    index: int,
)
    requires
        0 <= index < config.records_to_update.len(),
        config.records_to_update[index].1.zone_id == record.zone_id,
        !config.records_to_update[index].1.records.contains(record.name),
        forall|other: int|
            0 <= other < config.records_to_update.len() && other != index ==> !#[trigger] zone_lists(
                config.records_to_update,
                other,
                record,
            ),
    ensures
        zone_configured(config, record),
        decision(config, record, desired_ip) == Decision::Skip,
        !should_update(config, record, desired_ip),
{
}

/// A managed record that carries the desired address is left as it is, and
/// is the one record that a listing of it alone reports as current.
pub proof fn lemma_current_record_is_kept(config: ConfigView, record: RecordView, desired_ip: Seq<char>)
    requires
        managed(config, record),
        record.content == desired_ip,
    ensures
        decision(config, record, desired_ip) == Decision::UpToDate,
        !should_update(config, record, desired_ip),
        settled(config, seq![record], desired_ip) == seq![record],
        survivors(config, seq![record], desired_ip) == Seq::<RecordView>::empty(),
{
    let none = Seq::<RecordView>::empty();
    none.lemma_filter_push(record, |r: RecordView| decision(config, r, desired_ip) == Decision::UpToDate);
    none.lemma_filter_push(record, |r: RecordView| should_update(config, r, desired_ip));
}

/// A managed record that carries another address is rewritten.
pub proof fn lemma_stale_record_is_rewritten(config: ConfigView, record: RecordView, desired_ip: Seq<char>)
    requires
        managed(config, record),
        record.content != desired_ip,
    ensures
        decision(config, record, desired_ip) == Decision::Update,
        should_update(config, record, desired_ip),
{
}

/// Whether a record is managed does not depend on its content.
pub proof fn lemma_rewrite_keeps_managed(config: ConfigView, record: RecordView, content: Seq<char>)
    ensures
        managed(config, rewritten(record, content)) == managed(config, record),
{
    let zones = config.records_to_update;
    let patch = rewritten(record, content);
    if name_listed(config, record) {
        let i = choose|i: int| 0 <= i < zones.len() && #[trigger] zone_lists(zones, i, record);
        assert(zone_lists(zones, i, patch));
    }
    if name_listed(config, patch) {
        let i = choose|i: int| 0 <= i < zones.len() && #[trigger] zone_lists(zones, i, patch);
        assert(zone_lists(zones, i, record));
    }
}

/// Once a managed record has been rewritten to the desired address, the
/// selector finds it up to date.
pub proof fn lemma_rewritten_record_is_current(config: ConfigView, record: RecordView, desired_ip: Seq<char>)
    requires
        managed(config, record),
    ensures
        decision(config, rewritten(record, desired_ip), desired_ip) == Decision::UpToDate,
        !should_update(config, rewritten(record, desired_ip), desired_ip),
{
    lemma_rewrite_keeps_managed(config, record, desired_ip);
}

/// A listing as the provider holds it once every record that had to be
/// rewritten has been: those records carry the desired address, the others
/// are as they were.
pub open spec fn after_rewrites(config: ConfigView, records: Seq<RecordView>, desired_ip: Seq<char>) -> Seq<
    RecordView,
> {
    Seq::new(
        records.len(),
        |i: int|
            if should_update(config, records[i], desired_ip) {
                rewritten(records[i], desired_ip)
            } else {
                records[i]
            },
    )
}

/// A filter that no record passes leaves nothing.
proof fn lemma_filter_none(records: Seq<RecordView>, pred: spec_fn(RecordView) -> bool)
    requires
        forall|i: int| 0 <= i < records.len() ==> !pred(#[trigger] records[i]),
    ensures
        records.filter(pred) == Seq::<RecordView>::empty(),
    decreases records.len(),
{
    reveal(Seq::filter);
    if records.len() > 0 {
        lemma_filter_none(records.drop_last(), pred);
    }
}

/// A second run right after a run whose rewrites all went through finds
/// nothing left to rewrite, and finds up to date what the first run
/// rewrote or found so.
pub proof fn lemma_second_run_rewrites_nothing(
    config: ConfigView,
    records: Seq<RecordView>,
    desired_ip: Seq<char>,
)
    ensures
        survivors(config, after_rewrites(config, records, desired_ip), desired_ip) == Seq::<
            RecordView,
        >::empty(),
        forall|i: int|
            0 <= i < records.len() && managed(config, records[i]) ==> decision(
                config,
                #[trigger] after_rewrites(config, records, desired_ip)[i],
                desired_ip,
            ) == Decision::UpToDate,
{
    let later = after_rewrites(config, records, desired_ip);
    assert forall|i: int| 0 <= i < records.len() && managed(config, records[i]) implies decision(
        config,
        #[trigger] later[i],
        desired_ip,
    ) == Decision::UpToDate by {
        if should_update(config, records[i], desired_ip) {
            lemma_rewritten_record_is_current(config, records[i], desired_ip);
        }
    }
    let wanted = |record: RecordView| should_update(config, record, desired_ip);
    lemma_filter_none(later, wanted);
}

} // verus!
