//! What the commands show of saved identities.
use vstd::prelude::*;

use crate::calendar::{fits_calendar, format_natural_date, natural_date};
use crate::local::{
    all_wf, group_wf, inventory_wf, InteractiveInventoryChoice, LocalIdentityStatus,
    LocalIdentitySummary, LocalInventory, LocalInventoryGroup, LocalInventoryRoot,
};
use crate::target::{wf_name_len, IdentityLevel};
use crate::text::{first_index, join, join_with, split_once, views};

verus! {

#[derive(Debug, Clone, Copy, PartialEq, Eq, Structural)]
pub enum LineStyle {
    Plain,
    Bold,
    Dim,
}

/// What a command did to the default identity.
#[derive(Debug, PartialEq, Eq)]
pub enum DefaultIdentityBlock {
    Unset,
    NewlySet { name: String },
    Unchanged { name: String },
    Changed { old: String, new: String },
}

/// What a command did to an identity.
#[derive(Debug, Clone, Copy, PartialEq, Eq, Structural)]
pub enum SavedIdentityAction {
    Created,
    Applied,
}

impl SavedIdentityAction {
    pub open spec fn verb_text(self) -> Seq<char> {
        match self {
            SavedIdentityAction::Created => "Created"@,
            SavedIdentityAction::Applied => "Applied"@,
        }
    }

    pub fn verb(self) -> (r: &'static str)
        ensures
            r@ == self.verb_text(),
    {
        match self {
            SavedIdentityAction::Created => "Created",
            SavedIdentityAction::Applied => "Applied",
        }
    }
}

pub open spec fn status_style(status: LocalIdentityStatus) -> LineStyle {
    match status {
        LocalIdentityStatus::Invalid { .. } => LineStyle::Dim,
        LocalIdentityStatus::Incomplete { .. } => LineStyle::Dim,
        _ => LineStyle::Plain,
    }
}

pub fn status_line_style(status: &LocalIdentityStatus) -> (r: LineStyle)
    ensures
        r == status_style(*status),
{
    match status {
        LocalIdentityStatus::Invalid { .. } => LineStyle::Dim,
        LocalIdentityStatus::Incomplete { .. } => LineStyle::Dim,
        LocalIdentityStatus::Ready { .. } => LineStyle::Plain,
        LocalIdentityStatus::Expired { .. } => LineStyle::Plain,
    }
}

/// An identity that cannot be used is dim; otherwise the default identity is bold.
pub open spec fn summary_style(summary: LocalIdentitySummary) -> LineStyle {
    if status_style(summary.status) == LineStyle::Dim {
        LineStyle::Dim
    } else if summary.is_default {
        LineStyle::Bold
    } else {
        LineStyle::Plain
    }
}

pub fn summary_line_style(summary: &LocalIdentitySummary) -> (r: LineStyle)
    ensures
        r == summary_style(*summary),
{
    match status_line_style(&summary.status) {
        LineStyle::Dim => LineStyle::Dim,
        _ => if summary.is_default {
            LineStyle::Bold
        } else {
            LineStyle::Plain
        },
    }
}

pub open spec fn bold(text: Seq<char>) -> Seq<char> {
    "\u{1b}[1m"@ + text + "\u{1b}[0m"@
}

pub open spec fn dim(text: Seq<char>) -> Seq<char> {
    "\u{1b}[2m"@ + text + "\u{1b}[0m"@
}

/// Shows a text styled with `crossterm::style::Stylize::bold`: the escape sequence of the
/// attribute, the text, and the sequence that resets the style. This holds on Unix, for which
/// the tools are made; on a Windows console that takes no such sequences none are written.
#[verifier::external_body]
pub(crate) fn bold_text(text: String) -> (r: String)
    ensures
        r@ == bold(text@),
{
    crossterm::style::Stylize::bold(text).to_string()
}

/// Shows a text styled with `crossterm::style::Stylize::dim`: the escape sequence of the
/// attribute, the text, and the sequence that resets the style. This holds on Unix, for which
/// the tools are made; on a Windows console that takes no such sequences none are written.
#[verifier::external_body]
pub(crate) fn dim_text(text: String) -> (r: String)
    ensures
        r@ == dim(text@),
{
    crossterm::style::Stylize::dim(text).to_string()
}

/// A line as it is shown: without a terminal that takes styles it stays as it is.
pub open spec fn line(text: Seq<char>, style: LineStyle, ansi: bool) -> Seq<char> {
    match (ansi, style) {
        (true, LineStyle::Bold) => bold(text),
        (true, LineStyle::Dim) => dim(text),
        _ => text,
    }
}

pub fn render_line(text: String, style: LineStyle, ansi: bool) -> (r: String)
    ensures
        r@ == line(text@, style, ansi),
{
    if !ansi {
        return text;
    }
    match style {
        LineStyle::Plain => text,
        LineStyle::Bold => bold_text(text),
        LineStyle::Dim => dim_text(text),
    }
}

/// A name with the status, where it is not ready, and the mark of the default.
pub open spec fn label(name: Seq<char>, status: LocalIdentityStatus, is_default: bool) -> Seq<
    char,
> {
    let marked = if status is Ready {
        name
    } else {
        name + " ["@ + status.label_text() + "]"@
    };
    if is_default {
        marked + " (default)"@
    } else {
        marked
    }
}

pub fn compact_identity_label_parts(name: &str, status: &LocalIdentityStatus, is_default: bool) -> (r:
    String)
    ensures
        r@ == label(name@, *status, is_default),
{
    let mut r = name.to_owned();
    if !status.is_ready() {
        r.append(" [");
        r.append(status.label());
        r.append("]");
    }
    if is_default {
        r.append(" (default)");
    }
    r
}

pub open spec fn summary_label(summary: LocalIdentitySummary) -> Seq<char> {
    label(summary.target.short(), summary.status, summary.is_default)
}

pub fn compact_identity_label(summary: &LocalIdentitySummary) -> (r: String)
    requires
        summary.target.wf(),
    ensures
        r@ == summary_label(*summary),
{
    proof {
        wf_name_len(summary.target.name);
    }
    compact_identity_label_parts(summary.target.short_name(), &summary.status, summary.is_default)
}

/// The line of one identity in a list.
pub open spec fn summary_line(summary: LocalIdentitySummary, ansi: bool) -> Seq<char> {
    line(summary_label(summary), summary_style(summary), ansi)
}

fn render_summary(summary: &LocalIdentitySummary, ansi: bool) -> (r: String)
    requires
        summary.target.wf(),
    ensures
        r@ == summary_line(*summary, ansi),
{
    render_line(compact_identity_label(summary), summary_line_style(summary), ansi)
}

/// The saved identities of a group: the root where it is saved, then its sub-identities.
pub open spec fn saved_of(group: LocalInventoryGroup) -> Seq<LocalIdentitySummary> {
    match group.root {
        LocalInventoryRoot::Saved(summary) => seq![summary] + group.children@,
        LocalInventoryRoot::Organization { .. } => group.children@,
    }
}

/// The saved identities of all groups, in order.
pub open spec fn saved_in(groups: Seq<LocalInventoryGroup>) -> Seq<LocalIdentitySummary>
    decreases groups.len(),
{
    if groups.len() == 0 {
        Seq::empty()
    } else {
        saved_in(groups.drop_last()) + saved_of(groups.last())
    }
}

pub open spec fn summary_lines(summaries: Seq<LocalIdentitySummary>, ansi: bool) -> Seq<
    Seq<char>,
> {
    Seq::new(summaries.len(), |i: int| summary_line(summaries[i], ansi))
}

pub open spec fn info_blocks(summaries: Seq<LocalIdentitySummary>, ansi: bool) -> Seq<Seq<char>> {
    Seq::new(summaries.len(), |i: int| info(summaries[i], ansi))
}

fn saved_summaries(inventory: &LocalInventory) -> (r: Vec<LocalIdentitySummary>)
    requires
        inventory_wf(inventory.groups@),
    ensures
        r@ == saved_in(inventory.groups@),
        all_wf(r@),
{
    let groups = &inventory.groups;
    let mut all: Vec<LocalIdentitySummary> = Vec::new();
    let mut g: usize = 0;
    assert(groups@.take(0) == Seq::<LocalInventoryGroup>::empty());
    while g < groups.len()
        invariant
            g <= groups@.len(),
            inventory_wf(groups@),
            all@ == saved_in(groups@.take(g as int)),
            all_wf(all@),
        decreases groups.len() - g,
    {
        let group = &groups[g];
        assert(group_wf(groups@[g as int]));
        let ghost before = all@;
        match &group.root {
            LocalInventoryRoot::Saved(summary) => {
                all.push(summary.copy());
            },
            LocalInventoryRoot::Organization { .. } => {},
        }
        let ghost start = all@;
        let mut i: usize = 0;
        assert(group.children@.take(0) == Seq::<LocalIdentitySummary>::empty());
        assert(start == start + group.children@.take(0));
        while i < group.children.len()
            invariant
                i <= group.children@.len(),
                all_wf(group.children@),
                all_wf(all@),
                all@ == start + group.children@.take(i as int),
            decreases group.children.len() - i,
        {
            all.push(group.children[i].copy());
            assert(group.children@.take(i + 1) == group.children@.take(i as int).push(
                group.children@[i as int],
            ));
            assert(all@ == start + group.children@.take(i + 1));
            i += 1;
        }
        assert(group.children@.take(i as int) == group.children@);
        assert(groups@.take(g + 1).drop_last() == groups@.take(g as int));
        assert(groups@.take(g + 1).last() == groups@[g as int]);
        assert(all@ == before + saved_of(*group));
        g += 1;
    }
    assert(groups@.take(g as int) == groups@);
    all
}

/// One line for every saved identity.
pub fn render_inventory(inventory: &LocalInventory, ansi: bool) -> (r: String)
    requires
        inventory_wf(inventory.groups@),
    ensures
        r@ == join_with(summary_lines(saved_in(inventory.groups@), ansi), "\n"@),
{
    let summaries = saved_summaries(inventory);
    let mut lines: Vec<String> = Vec::new();
    let mut i: usize = 0;
    while i < summaries.len()
        invariant
            i <= summaries@.len(),
            all_wf(summaries@),
            lines@.len() == i,
            forall|k: int|
                0 <= k < i ==> (#[trigger] lines@[k])@ == summary_line(summaries@[k], ansi),
        decreases summaries.len() - i,
    {
        lines.push(render_summary(&summaries[i], ansi));
        i += 1;
    }
    assert(views(lines@) =~= summary_lines(summaries@, ansi));
    join(&lines, "\n")
}

/// The dates that are shown of an identity can be shown.
pub open spec fn dates_fit(summary: LocalIdentitySummary) -> bool {
    (summary.valid_from is Some && summary.status.expiry() is Some) ==> fits_calendar(
        summary.valid_from->0 as int,
    ) && fits_calendar(summary.status.expiry()->0 as int)
}

pub fn can_show_date(timestamp: i64) -> (r: bool)
    ensures
        r == fits_calendar(timestamp as int),
{
    -377705116800 <= timestamp && timestamp <= 253402300799
}

/// Whether the dates of an identity can be shown.
pub fn can_show_dates(summary: &LocalIdentitySummary) -> (r: bool)
    ensures
        r == dates_fit(*summary),
{
    match (summary.valid_from, summary.status.expires_at()) {
        (Some(from), Some(to)) => can_show_date(from) && can_show_date(to),
        _ => true,
    }
}

/// Whether the dates of every saved identity can be shown.
pub fn can_show_inventory_dates(inventory: &LocalInventory) -> (r: bool)
    requires
        inventory_wf(inventory.groups@),
    ensures
        r == inventory_dates_fit(saved_in(inventory.groups@)),
{
    let summaries = saved_summaries(inventory);
    let mut i: usize = 0;
    while i < summaries.len()
        invariant
            i <= summaries@.len(),
            forall|k: int| 0 <= k < i ==> dates_fit(#[trigger] summaries@[k]),
            summaries@ == saved_in(inventory.groups@),
        decreases summaries.len() - i,
    {
        if !can_show_dates(&summaries[i]) {
            assert(!dates_fit(summaries@[i as int]));
            return false;
        }
        i += 1;
    }
    true
}

/// The usage and the sequence of a certificate chain, where its name holds both.
pub open spec fn chain_lines(chain: Seq<char>) -> Seq<Seq<char>> {
    let colon = first_index(chain, ':');
    if colon < chain.len() {
        seq![
            "  usage: "@ + chain.take(colon),
            "  sequence: "@ + chain.skip(colon + 1),
            "  chain: "@ + chain,
        ]
    } else {
        seq!["  chain: "@ + chain]
    }
}

/// What is shown of an identity below its name.
pub open spec fn details(summary: LocalIdentitySummary) -> Seq<Seq<char>> {
    seq!["  status: "@ + summary.status.label_text()] + (match summary.certificate_chain {
        Some(chain) => chain_lines(chain@),
        None => Seq::empty(),
    }) + seq!["  dir: "@ + summary.dir@] + (match (summary.valid_from, summary.status.expiry()) {
        (Some(from), Some(to)) => seq![
            "  validity: "@ + natural_date(from as int) + " - "@ + natural_date(to as int),
        ],
        _ => Seq::empty(),
    }) + (match summary.issuer {
        Some(issuer) => seq!["  issuer: "@ + issuer@],
        None => Seq::empty(),
    }) + (match summary.status {
        LocalIdentityStatus::Incomplete { detail } => seq!["  reason: "@ + detail@],
        LocalIdentityStatus::Invalid { detail } => seq!["  reason: "@ + detail@],
        _ => Seq::empty(),
    })
}

fn prefixed(prefix: &str, text: &str) -> (r: String)
    ensures
        r@ == prefix@ + text@,
{
    let mut r = prefix.to_owned();
    r.append(text);
    r
}

fn put(lines: &mut Vec<String>, line: String)
    ensures
        views(final(lines)@) == views(old(lines)@).push(line@),
{
    let ghost before = lines@;
    lines.push(line);
    assert(views(lines@) =~= views(before).push(line@));
}

pub fn detail_lines(summary: &LocalIdentitySummary) -> (r: Vec<String>)
    requires
        dates_fit(*summary),
    ensures
        views(r@) == details(*summary),
{
    let mut lines: Vec<String> = Vec::new();
    assert(views(lines@) =~= Seq::<Seq<char>>::empty());
    put(&mut lines, prefixed("  status: ", summary.status.label()));
    let ghost a = views(lines@);
    assert(a =~= seq!["  status: "@ + summary.status.label_text()]);
    match &summary.certificate_chain {
        Some(chain) => {
            match split_once(chain, ':') {
                Some((usage, sequence)) => {
                    put(&mut lines, prefixed("  usage: ", usage));
                    put(&mut lines, prefixed("  sequence: ", sequence));
                },
                None => {},
            }
            put(&mut lines, prefixed("  chain: ", chain));
            assert(views(lines@) =~= a + chain_lines(chain@));
        },
        None => {
            assert(views(lines@) =~= a + Seq::<Seq<char>>::empty());
        },
    }
    let ghost b = views(lines@);
    put(&mut lines, prefixed("  dir: ", &summary.dir));
    let ghost c = views(lines@);
    assert(c =~= b + seq!["  dir: "@ + summary.dir@]);
    match (summary.valid_from, summary.status.expires_at()) {
        (Some(from), Some(to)) => {
            let mut validity = prefixed("  validity: ", &format_natural_date(from));
            validity.append(" - ");
            validity.append(&format_natural_date(to));
            let ghost text = validity@;
            put(&mut lines, validity);
            assert(views(lines@) =~= c + seq![text]);
        },
        _ => {
            assert(views(lines@) =~= c + Seq::<Seq<char>>::empty());
        },
    }
    let ghost d = views(lines@);
    match &summary.issuer {
        Some(issuer) => {
            put(&mut lines, prefixed("  issuer: ", issuer));
            assert(views(lines@) =~= d + seq!["  issuer: "@ + issuer@]);
        },
        None => {
            assert(views(lines@) =~= d + Seq::<Seq<char>>::empty());
        },
    }
    let ghost e = views(lines@);
    match &summary.status {
        LocalIdentityStatus::Incomplete { detail } => {
            put(&mut lines, prefixed("  reason: ", detail));
            assert(views(lines@) =~= e + seq!["  reason: "@ + detail@]);
        },
        LocalIdentityStatus::Invalid { detail } => {
            put(&mut lines, prefixed("  reason: ", detail));
            assert(views(lines@) =~= e + seq!["  reason: "@ + detail@]);
        },
        _ => {
            assert(views(lines@) =~= e + Seq::<Seq<char>>::empty());
        },
    }
    lines
}

fn headed(head: String, details: Vec<String>) -> (r: String)
    ensures
        r@ == join_with(seq![head@] + views(details@), "\n"@),
{
    let mut lines: Vec<String> = Vec::new();
    lines.push(head);
    let mut i: usize = 0;
    while i < details.len()
        invariant
            i <= details@.len(),
            lines@.len() == i + 1,
            lines@[0]@ == head@,
            forall|k: int| 0 <= k < i ==> (#[trigger] lines@[k + 1])@ == details@[k]@,
        decreases details.len() - i,
    {
        lines.push(details[i].clone());
        i += 1;
    }
    assert(views(lines@) =~= seq![head@] + views(details@)) by {
        assert forall|k: int| 0 <= k < lines@.len() implies views(lines@)[k] == (seq![head@]
            + views(details@))[k] by {
            if k > 0 {
                assert(lines@[(k - 1) + 1]@ == details@[k - 1]@);
            }
        }
    }
    join(&lines, "\n")
}

/// An identity with its details.
pub open spec fn info(summary: LocalIdentitySummary, ansi: bool) -> Seq<char> {
    join_with(seq![summary_line(summary, ansi)] + details(summary), "\n"@)
}

/// Shows an identity with its details.
pub fn format_info(summary: &LocalIdentitySummary, ansi: bool) -> (r: String)
    requires
        summary.target.wf(),
        dates_fit(*summary),
    ensures
        r@ == info(*summary, ansi),
{
    headed(render_summary(summary, ansi), detail_lines(summary))
}

/// Shows the default identity as any other.
pub fn format_default_summary(summary: &LocalIdentitySummary, ansi: bool) -> (r: String)
    requires
        summary.target.wf(),
        dates_fit(*summary),
    ensures
        r@ == info(*summary, ansi),
{
    format_info(summary, ansi)
}

pub open spec fn inventory_dates_fit(summaries: Seq<LocalIdentitySummary>) -> bool {
    forall|i: int| 0 <= i < summaries.len() ==> dates_fit(#[trigger] summaries[i])
}

/// Every saved identity with its details.
pub fn render_verbose_inventory(inventory: &LocalInventory, ansi: bool) -> (r: String)
    requires
        inventory_wf(inventory.groups@),
        inventory_dates_fit(saved_in(inventory.groups@)),
    ensures
        r@ == join_with(info_blocks(saved_in(inventory.groups@), ansi), "\n\n"@),
{
    let summaries = saved_summaries(inventory);
    let mut blocks: Vec<String> = Vec::new();
    let mut i: usize = 0;
    while i < summaries.len()
        invariant
            i <= summaries@.len(),
            all_wf(summaries@),
            inventory_dates_fit(summaries@),
            blocks@.len() == i,
            forall|k: int| 0 <= k < i ==> (#[trigger] blocks@[k])@ == info(summaries@[k], ansi),
        decreases summaries.len() - i,
    {
        blocks.push(format_info(&summaries[i], ansi));
        i += 1;
    }
    assert(views(blocks@) =~= info_blocks(summaries@, ansi));
    join(&blocks, "\n\n")
}

/// What a command did to an identity, with its details.
pub fn format_saved_identity_result(
    action: SavedIdentityAction,
    summary: &LocalIdentitySummary,
    ansi: bool,
) -> (r: String)
    requires
        summary.target.wf(),
        dates_fit(*summary),
    ensures
        r@ == join_with(
            seq![
                line(
                    action.verb_text() + " identity "@ + summary_label(*summary),
                    summary_style(*summary),
                    ansi,
                ),
            ] + details(*summary),
            "\n"@,
        ),
{
    let mut head = prefixed(action.verb(), " identity ");
    head.append(&compact_identity_label(summary));
    headed(render_line(head, summary_line_style(summary), ansi), detail_lines(summary))
}

/// The default identity as it stands beside a question.
pub fn format_current_default_suffix(name: &str, status: &LocalIdentityStatus, ansi: bool) -> (r:
    String)
    ensures
        r@ == line("(current: "@ + label(name@, *status, false) + ")"@, LineStyle::Dim, ansi),
{
    let mut text = prefixed("(current: ", &compact_identity_label_parts(name, status, false));
    text.append(")");
    render_line(text, LineStyle::Dim, ansi)
}

/// A choice as it is shown: sub-identities are indented below their root.
pub open spec fn choice_label(choice: InteractiveInventoryChoice, ansi: bool) -> Seq<char> {
    match choice {
        InteractiveInventoryChoice::Saved(summary) => line(
            (if summary.target.level == IdentityLevel::SubIdentity {
                "  "@
            } else {
                ""@
            }) + summary_label(summary),
            summary_style(summary),
            ansi,
        ),
        InteractiveInventoryChoice::Organization { target } => line(
            target.short() + " (not saved here)"@,
            LineStyle::Dim,
            ansi,
        ),
        InteractiveInventoryChoice::EnterAnotherIdentity => Seq::empty(),
    }
}

pub open spec fn choice_wf(choice: InteractiveInventoryChoice) -> bool {
    match choice {
        InteractiveInventoryChoice::Saved(summary) => summary.target.wf(),
        InteractiveInventoryChoice::Organization { target } => target.name.wf(),
        InteractiveInventoryChoice::EnterAnotherIdentity => false,
    }
}

/// Shows an identity that can be chosen.
pub fn render_choice_label(choice: &InteractiveInventoryChoice, ansi: bool) -> (r: String)
    requires
        choice_wf(*choice),
    ensures
        r@ == choice_label(*choice, ansi),
{
    match choice {
        InteractiveInventoryChoice::Saved(summary) => {
            let prefix = match summary.target.level() {
                IdentityLevel::SubIdentity => "  ",
                IdentityLevel::Identity => "",
            };
            render_line(
                prefixed(prefix, &compact_identity_label(summary)),
                summary_line_style(summary),
                ansi,
            )
        },
        InteractiveInventoryChoice::Organization { target } => {
            proof {
                wf_name_len(target.name);
            }
            render_line(prefixed(target.short_name(), " (not saved here)"), LineStyle::Dim, ansi)
        },
        InteractiveInventoryChoice::EnterAnotherIdentity => String::new(),
    }
}

pub open spec fn default_sentence(block: DefaultIdentityBlock) -> Seq<char> {
    match block {
        DefaultIdentityBlock::Unset => "No default identity is set here"@,
        DefaultIdentityBlock::NewlySet { name } => "Default identity set to "@ + name@,
        DefaultIdentityBlock::Unchanged { name } => "Default identity remains "@ + name@,
        DefaultIdentityBlock::Changed { old: before, new: after } => "Default identity changed from "@
            + before@ + " to "@ + after@,
    }
}

/// Says what a command did to the default identity.
pub fn format_default_identity_sentence(block: &DefaultIdentityBlock) -> (r: String)
    ensures
        r@ == default_sentence(*block),
{
    match block {
        DefaultIdentityBlock::Unset => "No default identity is set here".to_owned(),
        DefaultIdentityBlock::NewlySet { name } => prefixed("Default identity set to ", name),
        DefaultIdentityBlock::Unchanged { name } => prefixed("Default identity remains ", name),
        DefaultIdentityBlock::Changed { old: before, new: after } => {
            let mut r = prefixed("Default identity changed from ", before);
            r.append(" to ");
            r.append(after);
            r
        },
    }
}

pub fn format_safekeeping_reminder(ansi: bool) -> (r: String)
    ensures
        r@ == line("Keep this identity material safe"@, LineStyle::Bold, ansi),
{
    render_line("Keep this identity material safe".to_owned(), LineStyle::Bold, ansi)
}

/// The default identity by its name, with a warning where it has expired.
pub open spec fn default_query(summary: LocalIdentitySummary) -> Seq<char> {
    let name = summary.target.short();
    match summary.status {
        LocalIdentityStatus::Expired { expired_at } => name
            + "\n\nWARNING: This name expired on "@ + natural_date(expired_at as int)
            + ". Renew it soon, or the name may be released.\nRun `genmeta identity renew "@ + name
            + "` to renew it."@,
        _ => name,
    }
}

/// Shows the default identity by its name.
pub fn format_default_query(summary: &LocalIdentitySummary) -> (r: String)
    requires
        summary.target.wf(),
        summary.status matches LocalIdentityStatus::Expired { expired_at } ==> fits_calendar(
            expired_at as int,
        ),
    ensures
        r@ == default_query(*summary),
{
    proof {
        wf_name_len(summary.target.name);
    }
    let name = summary.target.short_name();
    match &summary.status {
        LocalIdentityStatus::Expired { expired_at } => {
            let mut r = prefixed(name, "\n\nWARNING: This name expired on ");
            r.append(&format_natural_date(*expired_at));
            r.append(
                ". Renew it soon, or the name may be released.\nRun `genmeta identity renew ",
            );
            r.append(name);
            r.append("` to renew it.");
            r
        },
        _ => name.to_owned(),
    }
}

/// Without styles the list shows the labels alone.
pub proof fn plain_lists_are_labels(summaries: Seq<LocalIdentitySummary>, i: int)
    requires
        0 <= i < summaries.len(),
    ensures
        summary_lines(summaries, false)[i] == summary_label(summaries[i]),
{
}

/// An identity that cannot be used is never shown in bold, not even as the default.
pub proof fn unusable_identities_are_dim(summary: LocalIdentitySummary)
    requires
        summary.status is Invalid || summary.status is Incomplete,
    ensures
        summary_style(summary) == LineStyle::Dim,
{
}

/// Every status but ready is told, in brackets, and the default identity is marked behind it.
pub proof fn labels_tell_status_and_default(name: Seq<char>, status: LocalIdentityStatus)
    ensures
        status is Ready ==> label(name, status, false) == name,
        status is Ready ==> label(name, status, true) == name + " (default)"@,
        status is Expired ==> label(name, status, false) == name + " ["@ + "expired"@ + "]"@,
        status is Incomplete ==> label(name, status, false) == name + " ["@ + "incomplete"@ + "]"@,
        status is Invalid ==> label(name, status, false) == name + " ["@ + "invalid"@ + "]"@,
        label(name, status, true) == label(name, status, false) + " (default)"@,
{
}

/// Lines are marked only for a terminal: the default identity is bold, what cannot be used is
/// dim.
pub proof fn lines_are_marked_by_status(summary: LocalIdentitySummary)
    ensures
        ({
            let text = summary_label(summary);
            let unusable = summary.status is Invalid || summary.status is Incomplete;
            &&& summary_line(summary, false) == text
            &&& (unusable ==> summary_line(summary, true) == "\u{1b}[2m"@ + text + "\u{1b}[0m"@)
            &&& (!unusable && summary.is_default ==> summary_line(summary, true) == "\u{1b}[1m"@
                + text + "\u{1b}[0m"@)
            &&& (!unusable && !summary.is_default ==> summary_line(summary, true) == text)
        }),
{
}

/// What is saved is listed group by group, each saved root before its sub-identities.
pub proof fn groups_are_listed_root_first(
    groups: Seq<LocalInventoryGroup>,
    group: LocalInventoryGroup,
)
    ensures
        saved_in(Seq::<LocalInventoryGroup>::empty()) == Seq::<LocalIdentitySummary>::empty(),
        group.root matches LocalInventoryRoot::Saved(summary) ==> saved_in(groups.push(group))
            == saved_in(groups).push(summary) + group.children@,
        group.root is Organization ==> saved_in(groups.push(group)) == saved_in(groups)
            + group.children@,
{
    assert(groups.push(group).drop_last() =~= groups);
    if let LocalInventoryRoot::Saved(summary) = group.root {
        assert(saved_in(groups) + (seq![summary] + group.children@) =~= saved_in(groups).push(
            summary,
        ) + group.children@);
    }
}

/// Every listed identity has a line and a block of its own, in order.
pub proof fn every_identity_is_listed(summaries: Seq<LocalIdentitySummary>, ansi: bool, i: int)
    requires
        0 <= i < summaries.len(),
    ensures
        summary_lines(summaries, ansi).len() == summaries.len(),
        summary_lines(summaries, ansi)[i] == summary_line(summaries[i], ansi),
        info_blocks(summaries, ansi).len() == summaries.len(),
        info_blocks(summaries, ansi)[i] == info(summaries[i], ansi),
{
}

/// The details of an identity: its status first, then its chain, its directory, how long it is
/// valid, who issued it, and what is wrong with it, each where it is known.
pub proof fn details_come_in_order(summary: LocalIdentitySummary)
    ensures
        ({
            let lines = details(summary);
            let chain = match summary.certificate_chain {
                Some(chain) => if chain@.contains(':') {
                    3int
                } else {
                    1int
                },
                None => 0int,
            };
            let dated = summary.valid_from is Some && (summary.status is Ready || summary.status
                is Expired);
            let reason = match summary.status {
                LocalIdentityStatus::Incomplete { detail } => Some(detail@),
                LocalIdentityStatus::Invalid { detail } => Some(detail@),
                _ => None,
            };
            let at = 2 + chain + (if dated {
                1int
            } else {
                0
            });
            &&& lines[0] == "  status: "@ + (match summary.status {
                LocalIdentityStatus::Ready { .. } => "ready"@,
                LocalIdentityStatus::Expired { .. } => "expired"@,
                LocalIdentityStatus::Incomplete { .. } => "incomplete"@,
                LocalIdentityStatus::Invalid { .. } => "invalid"@,
            })
            &&& (summary.certificate_chain matches Some(text) ==> lines[chain] == "  chain: "@
                + text@)
            &&& lines[1 + chain] == "  dir: "@ + summary.dir@
            &&& (dated ==> lines[2 + chain] == "  validity: "@ + natural_date(
                summary.valid_from->0 as int,
            ) + " - "@ + natural_date(
                match summary.status {
                    LocalIdentityStatus::Ready { expires_at } => expires_at as int,
                    LocalIdentityStatus::Expired { expired_at } => expired_at as int,
                    _ => 0,
                },
            ))
            &&& (summary.issuer matches Some(issuer) ==> lines[at] == "  issuer: "@ + issuer@)
            &&& (reason matches Some(text) ==> lines.last() == "  reason: "@ + text)
            &&& lines.len() == at + (if summary.issuer is Some {
                1int
            } else {
                0
            }) + (if reason is Some {
                1int
            } else {
                0
            })
        }),
{
    if let Some(chain) = summary.certificate_chain {
        crate::route::first_index_fits(chain@, ':');
        if first_index(chain@, ':') < chain@.len() {
            assert(chain@[first_index(chain@, ':')] == ':');
        }
    }
}

/// A chain is the usage and the sequence with a colon between them.
pub proof fn chains_are_parted_at_the_colon(usage: Seq<char>, sequence: Seq<char>)
    requires
        !usage.contains(':'),
    ensures
        chain_lines(usage + seq![':'] + sequence) == seq![
            "  usage: "@ + usage,
            "  sequence: "@ + sequence,
            "  chain: "@ + (usage + seq![':'] + sequence),
        ],
{
    let chain = usage + seq![':'] + sequence;
    crate::route::first_index_fits(chain, ':');
    let n = usage.len() as int;
    assert(chain[n] == ':');
    if first_index(chain, ':') < n {
        assert(usage[first_index(chain, ':')] == ':');
    }
    assert(first_index(chain, ':') == n);
    assert(chain.take(n) =~= usage);
    assert(chain.skip(n + 1) =~= sequence);
}

/// What is offered: a sub-identity is indented, an organization that is not saved is dim and
/// says so.
pub proof fn choices_are_indented_by_level(summary: LocalIdentitySummary, ansi: bool)
    ensures
        summary.target.level == IdentityLevel::Identity && !ansi ==> choice_label(
            InteractiveInventoryChoice::Saved(summary),
            ansi,
        ) == summary_label(summary),
        summary.target.level == IdentityLevel::SubIdentity && !ansi ==> choice_label(
            InteractiveInventoryChoice::Saved(summary),
            ansi,
        ) == "  "@ + summary_label(summary),
        !ansi ==> choice_label(
            InteractiveInventoryChoice::Organization { target: summary.target },
            ansi,
        ) == summary.target.short() + " (not saved here)"@,
        ansi ==> choice_label(
            InteractiveInventoryChoice::Organization { target: summary.target },
            ansi,
        ) == "\u{1b}[2m"@ + (summary.target.short() + " (not saved here)"@) + "\u{1b}[0m"@,
{
    reveal_strlit("");
    assert(""@ + summary_label(summary) =~= summary_label(summary));
}

/// Only an expired default identity is warned about, by the day on which it expired.
pub proof fn expired_defaults_are_warned_about(summary: LocalIdentitySummary)
    ensures
        !(summary.status is Expired) ==> default_query(summary) == summary.target.short(),
        summary.status matches LocalIdentityStatus::Expired { expired_at }
            ==> crate::text::starts_with(
            default_query(summary),
            summary.target.short() + "\n\nWARNING: This name expired on "@ + natural_date(
                expired_at as int,
            ),
        ),
{
    if let LocalIdentityStatus::Expired { expired_at } = summary.status {
        let front = summary.target.short() + "\n\nWARNING: This name expired on "@ + natural_date(
            expired_at as int,
        );
        let text = default_query(summary);
        assert(text.take(front.len() as int) =~= front);
    }
}

/// The warning about an expired name tells how to renew it.
pub proof fn warnings_tell_how_to_renew(summary: LocalIdentitySummary, expired_at: i64)
    requires
        summary.status == (LocalIdentityStatus::Expired { expired_at }),
    ensures
        default_query(summary) == summary.target.short() + "\n\nWARNING: This name expired on "@
            + natural_date(expired_at as int)
            + ". Renew it soon, or the name may be released.\nRun `genmeta identity renew "@
            + summary.target.short() + "` to renew it."@,
{
}

} // verus!
