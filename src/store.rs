//! Guild policies held in memory, one record per guild: what a bulk load of
//! the settings store gives, and where later writes are kept.

use vstd::prelude::*;
use crate::policy::{ServerSettings, SettingsView, default_view, resolved_view};

verus! {

/// The record for `guild_id` among `rows`, if one has that id.
pub open spec fn lookup(rows: Seq<ServerSettings>, guild_id: Seq<char>) -> Option<SettingsView> {
    if exists|i: int| 0 <= i < rows.len() && (#[trigger] rows[i]).guild_id@ == guild_id {
        Some(rows[choose|i: int| 0 <= i < rows.len() && (#[trigger] rows[i]).guild_id@ == guild_id]@)
    } else {
        None
    }
}

/// No two records of `rows` share a guild id.
pub open spec fn ids_unique(rows: Seq<ServerSettings>) -> bool {
    forall|i: int, j: int|
        0 <= i < rows.len() && 0 <= j < rows.len() && #[trigger] rows[i].guild_id@
            == #[trigger] rows[j].guild_id@ ==> i == j
}

/// Policies keyed by guild id.
pub struct SettingsTable {
    rows: Vec<ServerSettings>,
}

proof fn lemma_lookup_at(rows: Seq<ServerSettings>, i: int)
    requires
        ids_unique(rows),
        0 <= i < rows.len(),
    ensures
        lookup(rows, rows[i].guild_id@) == Some(rows[i]@),
{
    let g = rows[i].guild_id@;
    assert(exists|k: int| 0 <= k < rows.len() && (#[trigger] rows[k]).guild_id@ == g);
}

/// Rows that differ from `old_rows` only in records of guild `g0`, kept or
/// added, give the same lookup for every other guild.
proof fn lemma_other_lookups_kept(old_rows: Seq<ServerSettings>, new_rows: Seq<ServerSettings>, g0: Seq<char>)
    requires
        ids_unique(old_rows),
        ids_unique(new_rows),
        old_rows.len() <= new_rows.len(),
        forall|k: int|
            0 <= k < old_rows.len() && (#[trigger] old_rows[k]).guild_id@ != g0 ==> new_rows[k]
                == old_rows[k],
        forall|k: int|
            0 <= k < old_rows.len() && (#[trigger] old_rows[k]).guild_id@ == g0 ==> new_rows[k].guild_id@
                == g0,
        forall|k: int| old_rows.len() <= k < new_rows.len() ==> (#[trigger] new_rows[k]).guild_id@ == g0,
    ensures
        forall|g: Seq<char>| g != g0 ==> #[trigger] lookup(new_rows, g) == lookup(old_rows, g),
{
    assert forall|g: Seq<char>| g != g0 implies #[trigger] lookup(new_rows, g) == lookup(old_rows, g) by {
        if exists|k: int| 0 <= k < old_rows.len() && (#[trigger] old_rows[k]).guild_id@ == g {
            let k = choose|k: int| 0 <= k < old_rows.len() && (#[trigger] old_rows[k]).guild_id@ == g;
            lemma_lookup_at(old_rows, k);
            lemma_lookup_at(new_rows, k);
        } else {
            assert forall|k: int| 0 <= k < new_rows.len() implies (#[trigger] new_rows[k]).guild_id@ != g by {
                if k < old_rows.len() {
                    if old_rows[k].guild_id@ != g0 {
                        assert(new_rows[k] == old_rows[k]);
                    }
                }
            }
        }
    }
}

impl SettingsTable {
    pub closed spec fn rows(&self) -> Seq<ServerSettings> {
        self.rows@
    }

    pub open spec fn wf(&self) -> bool {
        ids_unique(self.rows())
    }

    /// The record stored for `guild_id`, if any.
    pub open spec fn entry(&self, guild_id: Seq<char>) -> Option<SettingsView> {
        lookup(self.rows(), guild_id)
    }

    /// The table as a map from guild id to record.
    pub open spec fn entries(&self) -> Map<Seq<char>, SettingsView> {
        Map::new(|g: Seq<char>| self.entry(g) is Some, |g: Seq<char>| self.entry(g).unwrap())
    }

    /// A table with no records.
    pub fn new() -> (r: SettingsTable)
        ensures
            r.wf(),
            forall|g: Seq<char>| r.entry(g) is None,
    {
        SettingsTable { rows: Vec::new() }
    }

    /// The number of guilds with a record.
    pub fn len(&self) -> (r: usize)
        ensures
            r == self.rows().len(),
    {
        self.rows.len()
    }

    fn position(&self, guild_id: &String) -> (r: Option<usize>)
        requires
            self.wf(),
        ensures
            r matches Some(i) ==> i < self.rows().len() && self.rows()[i as int].guild_id@
                == guild_id@,
            r is None ==> forall|i: int|
                0 <= i < self.rows().len() ==> (#[trigger] self.rows()[i]).guild_id@ != guild_id@,
    {
        let mut i: usize = 0;
        while i < self.rows.len()
            invariant
                0 <= i <= self.rows@.len(),
                forall|k: int| 0 <= k < i ==> (#[trigger] self.rows@[k]).guild_id@ != guild_id@,
            decreases self.rows@.len() - i,
        {
            if self.rows[i].guild_id == *guild_id {
                return Some(i);
            }
            i = i + 1;
        }
        None
    }

    /// The record stored for `guild_id`; a missing record is a normal outcome.
    pub fn get(&self, guild_id: &String) -> (r: Option<&ServerSettings>)
        requires
            self.wf(),
        ensures
            self.entry(guild_id@) == (match r {
                Some(s) => Some(s@),
                None => None,
            }),
            r is Some <==> self.entries().contains_key(guild_id@),
            r matches Some(s) ==> self.entries()[guild_id@] == s@,
    {
        match self.position(guild_id) {
            Some(i) => {
                proof {
                    lemma_lookup_at(self.rows(), i as int);
                }
                Some(&self.rows[i])
            },
            None => None,
        }
    }

    /// Stores `settings` as the record of its guild, replacing any earlier one.
    pub fn upsert(&mut self, settings: ServerSettings)
        requires
            old(self).wf(),
        ensures
            final(self).wf(),
            final(self).entry(settings.guild_id@) == Some(settings@),
            forall|g: Seq<char>|
                g != settings.guild_id@ ==> #[trigger] final(self).entry(g) == old(self).entry(g),
            final(self).entries() == old(self).entries().insert(settings.guild_id@, settings@),
    {
        let ghost g0 = settings.guild_id@;
        let ghost old_rows = self.rows@;
        match self.position(&settings.guild_id) {
            Some(i) => {
                self.rows[i] = settings;
                proof {
                    lemma_other_lookups_kept(old_rows, self.rows@, g0);
                    lemma_lookup_at(self.rows@, i as int);
                }
            },
            None => {
                self.rows.push(settings);
                let ghost n = old_rows.len() as int;
                assert(self.rows@[n].guild_id@ == g0);
                proof {
                    lemma_other_lookups_kept(old_rows, self.rows@, g0);
                    lemma_lookup_at(self.rows@, n);
                }
            },
        }
        proof {
            SettingsTable::lemma_entries_insert(*old(self), *self, settings);
        }
    }

    proof fn lemma_entries_insert(before: SettingsTable, after: SettingsTable, p: ServerSettings)
        requires
            after.entry(p.guild_id@) == Some(p@),
            forall|g: Seq<char>| g != p.guild_id@ ==> #[trigger] after.entry(g) == before.entry(g),
        ensures
            after.entries() == before.entries().insert(p.guild_id@, p@),
    {
        assert(after.entries() =~= before.entries().insert(p.guild_id@, p@));
    }

    /// A table of `rows`, as a bulk load of the store returns them; where two
    /// rows share a guild id the later one is kept.
    pub fn from_rows(rows: Vec<ServerSettings>) -> (r: SettingsTable)
        ensures
            r.wf(),
            forall|g: Seq<char>| #[trigger] r.entry(g) == lookup_last(rows@, g),
    {
        let mut table = SettingsTable::new();
        let mut rest = rows;
        let ghost all = rest@;
        let total: usize = rest.len();
        let mut taken: usize = 0;
        while rest.len() > 0
            invariant
                table.wf(),
                taken + rest@.len() == all.len(),
                all.len() == total,
                rest@ == all.subrange(taken as int, all.len() as int),
                forall|g: Seq<char>| #[trigger] table.entry(g) == lookup_last(all.subrange(0, taken as int), g),
            decreases rest@.len(),
        {
            let s = rest.remove(0);
            assert(s == all[taken as int]);
            let ghost before = all.subrange(0, taken as int);
            let ghost after = all.subrange(0, taken + 1);
            assert(after.drop_last() =~= before);
            assert(after.last() == s);
            table.upsert(s);
            taken = taken + 1;
            assert(rest@ =~= all.subrange(taken as int, all.len() as int));
        }
        assert(all.subrange(0, all.len() as int) =~= all);
        table
    }
}

/// The last record of `rows` for `guild_id`, if any.
pub open spec fn lookup_last(rows: Seq<ServerSettings>, guild_id: Seq<char>) -> Option<SettingsView>
    decreases rows.len(),
{
    if rows.len() == 0 {
        None
    } else if rows.last().guild_id@ == guild_id {
        Some(rows.last()@)
    } else {
        lookup_last(rows.drop_last(), guild_id)
    }
}

/// After `upsert(p)` on a table, `get` of `p`'s guild returns a record equal
/// to `p` in every field, and every other guild's record is as it was.
pub proof fn law_upsert_then_get(before: SettingsTable, after: SettingsTable, p: ServerSettings)
    requires
        before.wf(),
        after.wf(),
        after.entries() == before.entries().insert(p.guild_id@, p@),
    ensures
        after.entry(p.guild_id@) == Some(p@),
        resolved_view(p.guild_id@, after.entry(p.guild_id@)) == p@,
        forall|g: Seq<char>| g != p.guild_id@ ==> #[trigger] after.entry(g) == before.entry(g),
{
    let g0 = p.guild_id@;
    assert(after.entries().contains_key(g0));
    assert(after.entry(g0) is Some);
    assert(after.entries()[g0] == after.entry(g0).unwrap());
    assert(after.entries()[g0] == p@);
    assert forall|g: Seq<char>| g != p.guild_id@ implies #[trigger] after.entry(g) == before.entry(g) by {
        assert(after.entries().contains_key(g) == before.entries().contains_key(g));
        if before.entries().contains_key(g) {
            assert(after.entries()[g] == before.entries()[g]);
        }
    }
}

/// A guild with no record resolves to the default policy.
pub proof fn law_missing_resolves_to_default(t: SettingsTable, guild_id: Seq<char>)
    requires
        t.wf(),
        !t.entries().contains_key(guild_id),
    ensures
        resolved_view(guild_id, t.entry(guild_id)) == default_view(guild_id),
        resolved_view(guild_id, t.entry(guild_id)).warnings == 3,
        resolved_view(guild_id, t.entry(guild_id)).mute_time == seq!['1', '0', 'm'],
        !resolved_view(guild_id, t.entry(guild_id)).use_warnings,
        resolved_view(guild_id, t.entry(guild_id)).sensitivity == 500_000,
        resolved_view(guild_id, t.entry(guild_id)).logs_channel_id is None,
        !resolved_view(guild_id, t.entry(guild_id)).mute_enabled,
{
}

} // verus!
