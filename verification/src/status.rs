//! The status table: the latest known install-status record per named
//! tooling provider, with last-write-wins replacement.

use vstd::prelude::*;

verus! {

/// Install lifecycle state of one tooling provider's binary.
pub enum InstallStatus {
    CheckingForUpdate,
    Downloading,
    Downloaded,
    Cached,
    Failed { error: String },
}

/// The latest known install status reported by one named provider.
pub struct StatusRecord {
    pub name: String,
    pub status: InstallStatus,
}

/// The records of `t` whose name differs from `name`, in table order.
pub open spec fn remove_name(t: Seq<StatusRecord>, name: Seq<char>) -> Seq<StatusRecord>
    decreases t.len(),
{
    if t.len() == 0 {
        Seq::empty()
    } else if t.last().name@ == name {
        remove_name(t.drop_last(), name)
    } else {
        remove_name(t.drop_last(), name).push(t.last())
    }
}

/// Last-write-wins keyed update: remove any record with the new record's
/// name, then append the new record at the end.
pub open spec fn spec_update(t: Seq<StatusRecord>, rec: StatusRecord) -> Seq<StatusRecord> {
    remove_name(t, rec.name@).push(rec)
}

/// The records of `t` that carry `name`, in table order.
pub open spec fn records_with(t: Seq<StatusRecord>, name: Seq<char>) -> Seq<StatusRecord>
    decreases t.len(),
{
    if t.len() == 0 {
        Seq::empty()
    } else if t.last().name@ == name {
        records_with(t.drop_last(), name).push(t.last())
    } else {
        records_with(t.drop_last(), name)
    }
}

proof fn lemma_remove_name_drops_all(t: Seq<StatusRecord>, name: Seq<char>)
    ensures
        records_with(remove_name(t, name), name) == Seq::<StatusRecord>::empty(),
    decreases t.len(),
{
    if t.len() > 0 {
        lemma_remove_name_drops_all(t.drop_last(), name);
        if t.last().name@ != name {
            assert(remove_name(t, name).drop_last() =~= remove_name(t.drop_last(), name));
        }
    }
}

proof fn lemma_remove_name_keeps_others(t: Seq<StatusRecord>, name: Seq<char>, other: Seq<char>)
    requires
        name != other,
    ensures
        records_with(remove_name(t, name), other) == records_with(t, other),
    decreases t.len(),
{
    if t.len() > 0 {
        lemma_remove_name_keeps_others(t.drop_last(), name, other);
        if t.last().name@ != name {
            assert(remove_name(t, name).drop_last() =~= remove_name(t.drop_last(), name));
        }
    }
}

/// The names of the records currently `Downloading`, in table order.
pub open spec fn downloading_names(t: Seq<StatusRecord>) -> Seq<Seq<char>>
    decreases t.len(),
{
    if t.len() == 0 {
        Seq::empty()
    } else if t.last().status is Downloading {
        downloading_names(t.drop_last()).push(t.last().name@)
    } else {
        downloading_names(t.drop_last())
    }
}

/// The names of the records currently `CheckingForUpdate`, in table order.
pub open spec fn checking_names(t: Seq<StatusRecord>) -> Seq<Seq<char>>
    decreases t.len(),
{
    if t.len() == 0 {
        Seq::empty()
    } else if t.last().status is CheckingForUpdate {
        checking_names(t.drop_last()).push(t.last().name@)
    } else {
        checking_names(t.drop_last())
    }
}

/// The names of the records currently `Failed`, in table order.
pub open spec fn failed_names(t: Seq<StatusRecord>) -> Seq<Seq<char>>
    decreases t.len(),
{
    if t.len() == 0 {
        Seq::empty()
    } else if t.last().status is Failed {
        failed_names(t.drop_last()).push(t.last().name@)
    } else {
        failed_names(t.drop_last())
    }
}

/// The table after draining: every record that is not `Failed`, in order.
pub open spec fn drained(t: Seq<StatusRecord>) -> Seq<StatusRecord>
    decreases t.len(),
{
    if t.len() == 0 {
        Seq::empty()
    } else if t.last().status is Failed {
        drained(t.drop_last())
    } else {
        drained(t.drop_last()).push(t.last())
    }
}

/// The `(name, error)` pairs of the `Failed` records, in table order.
pub open spec fn failed_pairs(t: Seq<StatusRecord>) -> Seq<(Seq<char>, Seq<char>)>
    decreases t.len(),
{
    if t.len() == 0 {
        Seq::empty()
    } else if t.last().status is Failed {
        failed_pairs(t.drop_last()).push((t.last().name@, t.last().status->error@))
    } else {
        failed_pairs(t.drop_last())
    }
}

proof fn lemma_remove_name_idempotent(t: Seq<StatusRecord>, name: Seq<char>)
    ensures
        remove_name(remove_name(t, name), name) == remove_name(t, name),
    decreases t.len(),
{
    if t.len() > 0 {
        lemma_remove_name_idempotent(t.drop_last(), name);
        if t.last().name@ != name {
            assert(remove_name(t, name).drop_last() =~= remove_name(t.drop_last(), name));
        }
    }
}

/// Replacement composes: of two updates for the same provider name, only the
/// later one leaves a trace in the table.
pub proof fn lemma_update_replaces(t: Seq<StatusRecord>, r1: StatusRecord, r2: StatusRecord)
    requires
        r1.name@ == r2.name@,
    ensures
        spec_update(spec_update(t, r1), r2) == spec_update(t, r2),
{
    lemma_remove_name_idempotent(t, r1.name@);
    assert(spec_update(t, r1).drop_last() =~= remove_name(t, r1.name@));
    assert(remove_name(spec_update(t, r1), r2.name@) =~= remove_name(
        remove_name(t, r1.name@),
        r2.name@,
    ));
}

/// For every sequence of updates for the same provider name, the table holds
/// exactly the last record for that name, and records under other names are
/// untouched.
pub proof fn lemma_update_last_write_wins(t: Seq<StatusRecord>, rec: StatusRecord)
    ensures
        records_with(spec_update(t, rec), rec.name@) == seq![rec],
        forall|other: Seq<char>|
            other != rec.name@ ==> records_with(
                spec_update(t, rec),
                other,
            ) == records_with(t, other),
{
    let u = spec_update(t, rec);
    lemma_remove_name_drops_all(t, rec.name@);
    assert(u.drop_last() =~= remove_name(t, rec.name@));
    assert(records_with(u, rec.name@) =~= seq![rec]);
    assert forall|other: Seq<char>| other != rec.name@ implies records_with(u, other)
        == records_with(t, other) by {
        lemma_remove_name_keeps_others(t, rec.name@, other);
    }
}

} // verus!
