//! The records of a name, as they are printed.
use vstd::prelude::*;

use crate::auto_renew::HomeScope;
use crate::text::{same, views};

verus! {

/// What is asked for on the command line.
#[derive(Debug)]
pub struct LookupOptions {
    pub name: String,
    pub schemes: Vec<String>,
    pub id: Option<String>,
    pub global: bool,
    pub anonymous: bool,
    pub streaming: bool,
}

impl LookupOptions {
    /// The home that identities are loaded from.
    pub fn home_scope(&self) -> (r: HomeScope)
        ensures
            r == (if self.global {
                HomeScope::Global
            } else {
                HomeScope::User
            }),
    {
        if self.global {
            HomeScope::Global
        } else {
            HomeScope::User
        }
    }
}

/// Why a name was not looked up.
#[derive(Debug, PartialEq, Eq)]
pub enum LookupError {
    LoadDhttpHome,
    BuildEndpoint,
    LookUp { name: String },
}

impl LookupError {
    pub open spec fn words(self) -> Seq<char> {
        match self {
            LookupError::LoadDhttpHome => "failed to load dhttp home"@,
            LookupError::BuildEndpoint => "failed to build dhttp endpoint"@,
            LookupError::LookUp { name } => "failed to lookup dns records of `"@ + name@ + "`"@,
        }
    }

    pub fn to_text(&self) -> (r: String)
        ensures
            r@ == self.words(),
    {
        match self {
            LookupError::LoadDhttpHome => "failed to load dhttp home".to_owned(),
            LookupError::BuildEndpoint => "failed to build dhttp endpoint".to_owned(),
            LookupError::LookUp { name } => {
                let mut r = "failed to lookup dns records of `".to_owned();
                r.append(name);
                r.append("`");
                r
            },
        }
    }
}

/// The line above the records.
pub fn name_line(name: &str) -> (r: String)
    ensures
        r@ == "Name: "@ + name@ + ":"@,
{
    let mut r = "Name: ".to_owned();
    r.append(name);
    r.append(":");
    r
}

/// A record: an address, and who knows it.
#[derive(Debug, PartialEq, Eq)]
pub struct DnsRecord {
    pub source: String,
    pub addr: String,
}

/// The source and the address of each record.
pub open spec fn pairs(records: Seq<DnsRecord>) -> Seq<(Seq<char>, Seq<char>)> {
    records.map_values(|record: DnsRecord| (record.source@, record.addr@))
}

/// The lines of records in the order in which they come: the source is told where it changes.
pub open spec fn streamed(records: Seq<(Seq<char>, Seq<char>)>) -> Seq<Seq<char>>
    decreases records.len(),
{
    if records.len() == 0 {
        Seq::empty()
    } else {
        let before = records.drop_last();
        let (source, addr) = records.last();
        if before.len() > 0 && before.last().0 == source {
            streamed(before).push(addr)
        } else {
            streamed(before).push(source + ":"@).push(addr)
        }
    }
}

/// Prints records as they come.
#[derive(Debug)]
pub struct RecordPrinter {
    /// The source of the record before.
    pub last_source: Option<String>,
}

impl RecordPrinter {
    /// The printer has printed these records.
    pub open spec fn has_printed(self, records: Seq<(Seq<char>, Seq<char>)>) -> bool {
        match self.last_source {
            None => records.len() == 0,
            Some(source) => records.len() > 0 && records.last().0 == source@,
        }
    }

    pub fn new() -> (r: Self)
        ensures
            r.last_source is None,
            r.has_printed(Seq::empty()),
    {
        RecordPrinter { last_source: None }
    }

    /// The lines of one more record.
    pub fn print(&mut self, record: DnsRecord) -> (r: Vec<String>)
        ensures
            final(self).last_source == Some(record.source),
            views(r@) == (if old(self).last_source matches Some(last) && last@ == record.source@ {
                seq![record.addr@]
            } else {
                seq![record.source@ + ":"@, record.addr@]
            }),
            forall|records: Seq<(Seq<char>, Seq<char>)>|
                old(self).has_printed(records) ==> #[trigger] final(self).has_printed(
                    records.push((record.source@, record.addr@)),
                ) && streamed(records.push((record.source@, record.addr@))) == streamed(records)
                    + views(r@),
    {
        let repeated = match &self.last_source {
            Some(last) => same(last, &record.source),
            None => false,
        };
        let mut lines: Vec<String> = Vec::new();
        if !repeated {
            let mut head = record.source.clone();
            head.append(":");
            lines.push(head);
        }
        lines.push(record.addr);
        proof {
            if repeated {
                assert(views(lines@) =~= seq![record.addr@]);
            } else {
                assert(views(lines@) =~= seq![record.source@ + ":"@, record.addr@]);
            }
            assert forall|records: Seq<(Seq<char>, Seq<char>)>|
                old(self).has_printed(records) implies #[trigger] streamed(
                records.push((record.source@, record.addr@)),
            ) == streamed(records) + views(lines@) by {
                let more = records.push((record.source@, record.addr@));
                assert(more.drop_last() =~= records);
                assert(streamed(more) =~= streamed(records) + views(lines@));
            }
        }
        self.last_source = Some(record.source);
        lines
    }
}

/// A source and what it knows.
#[derive(Debug)]
pub struct RecordGroup {
    pub source: String,
    pub addrs: Vec<String>,
}

/// Each source occurs once, and each address once under it.
pub open spec fn grouped(groups: Seq<RecordGroup>) -> bool {
    &&& forall|i: int, j: int|
        #![trigger groups[i], groups[j]]
        0 <= i < j < groups.len() ==> groups[i].source@ != groups[j].source@
    &&& forall|i: int| 0 <= i < groups.len() ==> (#[trigger] views(groups[i].addrs@)).no_duplicates()
}

/// A group says that the source knows the address.
pub open spec fn told(groups: Seq<RecordGroup>, source: Seq<char>, addr: Seq<char>) -> bool {
    exists|i: int|
        0 <= i < groups.len() && (#[trigger] groups[i]).source@ == source && views(
            groups[i].addrs@,
        ).contains(addr)
}

fn add_addr(addrs: &mut Vec<String>, addr: String)
    requires
        views(old(addrs)@).no_duplicates(),
    ensures
        views(final(addrs)@).no_duplicates(),
        views(final(addrs)@).len() >= 1,
        forall|other: Seq<char>|
            #[trigger] views(final(addrs)@).contains(other) <==> (views(old(addrs)@).contains(other)
                || other == addr@),
{
    let mut i: usize = 0;
    while i < addrs.len()
        invariant
            i <= addrs@.len(),
            addrs@ == old(addrs)@,
            views(addrs@).no_duplicates(),
            forall|k: int| 0 <= k < i ==> #[trigger] views(addrs@)[k] != addr@,
        decreases addrs@.len() - i,
    {
        if same(&addrs[i], &addr) {
            assert(views(addrs@)[i as int] == addr@);
            return;
        }
        i += 1;
    }
    let ghost before = views(addrs@);
    addrs.push(addr);
    proof {
        assert(views(addrs@) =~= before.push(addr@));
        assert forall|other: Seq<char>|
            #[trigger] views(addrs@).contains(other) <==> (before.contains(other) || other
                == addr@) by {
            if before.contains(other) {
                let k = choose|k: int| 0 <= k < before.len() && before[k] == other;
                assert(views(addrs@)[k] == other);
            }
            if other == addr@ {
                assert(views(addrs@)[before.len() as int] == other);
            }
        }
    }
}

fn add_record(groups: &mut Vec<RecordGroup>, record: DnsRecord)
    requires
        grouped(old(groups)@),
    ensures
        grouped(final(groups)@),
        forall|source: Seq<char>, addr: Seq<char>|
            #[trigger] told(final(groups)@, source, addr) <==> (told(old(groups)@, source, addr) || (
            source == record.source@ && addr == record.addr@)),
{
    let mut i: usize = 0;
    let ghost before = groups@;
    while i < groups.len()
        invariant
            i <= groups@.len(),
            groups@ == before,
            before == old(groups)@,
            grouped(before),
            forall|k: int| 0 <= k < i ==> (#[trigger] before[k]).source@ != record.source@,
        decreases groups@.len() - i,
    {
        if same(&groups[i].source, &record.source) {
            let mut group = groups.remove(i);
            let ghost held = group;
            assert(views(before[i as int].addrs@).no_duplicates());
            add_addr(&mut group.addrs, record.addr);
            groups.insert(i, group);
            proof {
                assert(groups@ =~= before.update(i as int, group));
                assert forall|a: int, b: int|
                    #![trigger groups@[a], groups@[b]]
                    0 <= a < b < groups@.len() implies groups@[a].source@ != groups@[b].source@ by {
                    assert(before[a].source@ != before[b].source@);
                }
                assert forall|k: int| 0 <= k < groups@.len() implies (#[trigger] views(
                    groups@[k].addrs@,
                )).no_duplicates() by {
                    assert(views(before[k].addrs@).no_duplicates());
                }
                assert forall|source: Seq<char>, addr: Seq<char>|
                    #[trigger] told(groups@, source, addr) <==> (told(before, source, addr) || (
                    source == record.source@ && addr == record.addr@)) by {
                    if told(groups@, source, addr) {
                        let k = choose|k: int|
                            0 <= k < groups@.len() && (#[trigger] groups@[k]).source@ == source
                                && views(groups@[k].addrs@).contains(addr);
                        assert(before[k].source@ == source);
                        if k == i {
                            assert(views(group.addrs@).contains(addr));
                        }
                    }
                    if told(before, source, addr) {
                        let k = choose|k: int|
                            0 <= k < before.len() && (#[trigger] before[k]).source@ == source
                                && views(before[k].addrs@).contains(addr);
                        assert(groups@[k].source@ == source);
                        if k == i {
                            assert(views(group.addrs@).contains(addr));
                        }
                        assert(views(groups@[k].addrs@).contains(addr));
                    }
                    if source == record.source@ && addr == record.addr@ {
                        assert(groups@[i as int].source@ == source);
                        assert(views(group.addrs@).contains(addr));
                    }
                }
            }
            return;
        }
        i += 1;
    }
    let mut addrs: Vec<String> = Vec::new();
    assert(views(addrs@) =~= Seq::empty());
    add_addr(&mut addrs, record.addr);
    let group = RecordGroup { source: record.source, addrs };
    groups.push(group);
    proof {
        assert(groups@ =~= before.push(group));
        assert forall|k: int| 0 <= k < groups@.len() implies (#[trigger] views(
            groups@[k].addrs@,
        )).no_duplicates() by {
            if k < before.len() {
                assert(views(before[k].addrs@).no_duplicates());
            }
        }
        assert forall|source: Seq<char>, addr: Seq<char>|
            #[trigger] told(groups@, source, addr) <==> (told(before, source, addr) || (source
                == record.source@ && addr == record.addr@)) by {
            if told(groups@, source, addr) {
                let k = choose|k: int|
                    0 <= k < groups@.len() && (#[trigger] groups@[k]).source@ == source && views(
                        groups@[k].addrs@,
                    ).contains(addr);
                if k < before.len() {
                    assert(before[k].source@ == source);
                } else {
                    assert(views(group.addrs@).contains(addr));
                    assert(!Seq::<Seq<char>>::empty().contains(addr));
                }
            }
            if told(before, source, addr) {
                let k = choose|k: int|
                    0 <= k < before.len() && (#[trigger] before[k]).source@ == source && views(
                        before[k].addrs@,
                    ).contains(addr);
                assert(groups@[k].source@ == source);
            }
            if source == record.source@ && addr == record.addr@ {
                assert(groups@[before.len() as int].source@ == source);
                assert(views(group.addrs@).contains(addr));
            }
        }
    }
}

/// Gathers the records by their sources: each source and each of its addresses is there once.
pub fn group_records(records: Vec<DnsRecord>) -> (r: Vec<RecordGroup>)
    ensures
        grouped(r@),
        forall|source: Seq<char>, addr: Seq<char>|
            #[trigger] told(r@, source, addr) <==> pairs(records@).contains((source, addr)),
{
    let mut groups: Vec<RecordGroup> = Vec::new();
    let ghost all = records@;
    let mut rest = records;
    assert(all.take(0) =~= Seq::empty());
    assert(all.skip(0) =~= all);
    while rest.len() > 0
        invariant
            rest@.len() <= all.len(),
            rest@ == all.skip(all.len() - rest@.len()),
            grouped(groups@),
            forall|source: Seq<char>, addr: Seq<char>|
                #[trigger] told(groups@, source, addr) <==> pairs(
                    all.take(all.len() - rest@.len()),
                ).contains((source, addr)),
        decreases rest@.len(),
    {
        let ghost n = all.len() - rest@.len();
        let ghost before = groups@;
        let record = rest.remove(0);
        add_record(&mut groups, record);
        proof {
            assert(rest@ =~= all.skip(n + 1));
            assert(all.take(n + 1) =~= all.take(n).push(record));
            assert forall|source: Seq<char>, addr: Seq<char>|
                #[trigger] told(groups@, source, addr) <==> pairs(all.take(n + 1)).contains(
                    (source, addr),
                ) by {
                let taken = pairs(all.take(n));
                let more = pairs(all.take(n + 1));
                assert(more =~= taken.push((record.source@, record.addr@)));
                assert(told(before, source, addr) <==> taken.contains((source, addr)));
                if taken.contains((source, addr)) {
                    let k = choose|k: int| 0 <= k < taken.len() && taken[k] == (source, addr);
                    assert(more[k] == (source, addr));
                }
                if source == record.source@ && addr == record.addr@ {
                    assert(more[taken.len() as int] == (source, addr));
                }
            }
        }
    }
    assert(all.take(all.len() as int) =~= all);
    groups
}

/// The lines of a group.
pub open spec fn group_lines(group: RecordGroup) -> Seq<Seq<char>> {
    seq![group.source@ + ":"@] + views(group.addrs@).map_values(
        |addr: Seq<char>| "Address: "@ + addr,
    )
}

/// The lines of all groups.
pub open spec fn groups_lines(groups: Seq<RecordGroup>) -> Seq<Seq<char>>
    decreases groups.len(),
{
    if groups.len() == 0 {
        Seq::empty()
    } else {
        groups_lines(groups.drop_last()) + group_lines(groups.last())
    }
}

fn print_group(lines: &mut Vec<String>, group: &RecordGroup)
    ensures
        views(final(lines)@) == views(old(lines)@) + group_lines(*group),
{
    let ghost before = views(lines@);
    let mut head = group.source.clone();
    head.append(":");
    lines.push(head);
    let mut i: usize = 0;
    let ghost told = views(group.addrs@).map_values(|addr: Seq<char>| "Address: "@ + addr);
    assert(views(lines@) =~= before + seq![group.source@ + ":"@] + told.take(0));
    while i < group.addrs.len()
        invariant
            i <= group.addrs@.len(),
            told == views(group.addrs@).map_values(|addr: Seq<char>| "Address: "@ + addr),
            views(lines@) == before + seq![group.source@ + ":"@] + told.take(i as int),
        decreases group.addrs@.len() - i,
    {
        let mut line = "Address: ".to_owned();
        line.append(&group.addrs[i]);
        let ghost held = lines@;
        lines.push(line);
        proof {
            assert(views(lines@) =~= views(held).push(line@));
            assert(told.take(i + 1) =~= told.take(i as int).push(told[i as int]));
            assert(views(lines@) =~= before + seq![group.source@ + ":"@] + told.take(i + 1));
        }
        i += 1;
    }
    assert(told.take(i as int) =~= told);
    assert(views(lines@) =~= before + group_lines(*group));
}

/// The lines of all groups.
pub fn print_groups(groups: &Vec<RecordGroup>) -> (r: Vec<String>)
    ensures
        views(r@) == groups_lines(groups@),
{
    let mut lines: Vec<String> = Vec::new();
    let mut i: usize = 0;
    assert(groups@.take(0) =~= Seq::empty());
    assert(views(lines@) =~= Seq::empty());
    while i < groups.len()
        invariant
            i <= groups@.len(),
            views(lines@) == groups_lines(groups@.take(i as int)),
        decreases groups@.len() - i,
    {
        print_group(&mut lines, &groups[i]);
        proof {
            let taken = groups@.take(i + 1);
            assert(taken.drop_last() =~= groups@.take(i as int));
            assert(taken.last() == groups@[i as int]);
        }
        i += 1;
    }
    assert(groups@.take(i as int) =~= groups@);
    lines
}

/// Every record is printed as it comes, under its source, which is printed where it changes.
pub proof fn sources_are_printed_where_they_change(
    records: Seq<(Seq<char>, Seq<char>)>,
    source: Seq<char>,
    addr: Seq<char>,
)
    ensures
        streamed(Seq::<(Seq<char>, Seq<char>)>::empty()) == Seq::<Seq<char>>::empty(),
        records.len() > 0 && records.last().0 == source ==> streamed(records.push((source, addr)))
            == streamed(records).push(addr),
        records.len() == 0 || records.last().0 != source ==> streamed(
            records.push((source, addr)),
        ) == streamed(records).push(source + ":"@).push(addr),
{
    assert(records.push((source, addr)).drop_last() =~= records);
}

/// Every group is printed with its source first and each of its addresses behind it, in order.
pub proof fn groups_are_printed_source_first(groups: Seq<RecordGroup>, group: RecordGroup, i: int)
    ensures
        ({
            let before = groups_lines(groups);
            let all = groups_lines(groups.push(group));
            &&& all.len() == before.len() + 1 + group.addrs@.len()
            &&& all.take(before.len() as int) == before
            &&& all[before.len() as int] == group.source@ + ":"@
            &&& (0 <= i < group.addrs@.len() ==> all[before.len() + 1 + i] == "Address: "@
                + group.addrs@[i]@)
        }),
        groups_lines(Seq::<RecordGroup>::empty()) == Seq::<Seq<char>>::empty(),
{
    assert(groups.push(group).drop_last() =~= groups);
    let all = groups_lines(groups.push(group));
    assert(all.take(groups_lines(groups).len() as int) =~= groups_lines(groups));
}

/// A printer remembers the last source that it printed, and a fresh one none.
pub proof fn printers_remember_the_last_source(
    printer: RecordPrinter,
    records: Seq<(Seq<char>, Seq<char>)>,
    source: Seq<char>,
    addr: Seq<char>,
)
    ensures
        printer.last_source is None ==> printer.has_printed(Seq::empty()) && !printer.has_printed(
            records.push((source, addr)),
        ),
        printer.last_source is Some ==> !printer.has_printed(Seq::empty()) && (printer.has_printed(
            records.push((source, addr)),
        ) <==> printer.last_source->0@ == source),
{
}

/// What was told of a source stays told when more is added to the groups.
pub proof fn records_stay_told(
    groups: Seq<RecordGroup>,
    group: RecordGroup,
    source: Seq<char>,
    addr: Seq<char>,
)
    ensures
        !told(Seq::<RecordGroup>::empty(), source, addr),
        told(groups.push(group), source, addr) <==> told(groups, source, addr) || (group.source@
            == source && exists|i: int|
            0 <= i < group.addrs@.len() && (#[trigger] group.addrs@[i])@ == addr),
{
    let all = groups.push(group);
    if told(groups, source, addr) {
        let i = choose|i: int|
            0 <= i < groups.len() && (#[trigger] groups[i]).source@ == source && views(
                groups[i].addrs@,
            ).contains(addr);
        assert(all[i] == groups[i]);
    }
    if group.source@ == source && exists|i: int|
        0 <= i < group.addrs@.len() && (#[trigger] group.addrs@[i])@ == addr {
        let i = choose|i: int|
            0 <= i < group.addrs@.len() && (#[trigger] group.addrs@[i])@ == addr;
        assert(views(group.addrs@)[i] == addr);
        assert(all[groups.len() as int] == group);
    }
    if told(all, source, addr) {
        let i = choose|i: int|
            0 <= i < all.len() && (#[trigger] all[i]).source@ == source && views(
                all[i].addrs@,
            ).contains(addr);
        if i < groups.len() {
            assert(groups[i] == all[i]);
        } else {
            let k = choose|k: int|
                0 <= k < views(group.addrs@).len() && views(group.addrs@)[k] == addr;
            assert(group.addrs@[k]@ == addr);
        }
    }
}

} // verus!
