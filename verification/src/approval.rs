//! The ways in which a new sub-identity can be approved: with its parent on this device, with
//! email, or with the parent after it was brought to this device.
use vstd::prelude::*;

use crate::text::{copy_opt, opt_view};

verus! {

/// What brings the parent to this device.
#[derive(Debug, Clone, Copy, PartialEq, Eq, Structural)]
pub enum ApprovalHelperAction {
    Apply,
    Reapply,
    Renew,
}

#[derive(Debug, PartialEq, Eq)]
pub struct ApprovalDirectLocal {
    pub short_name: String,
    pub auth_domain: String,
}

impl ApprovalDirectLocal {
    pub fn new(short_name: String, auth_domain: String) -> (r: ApprovalDirectLocal)
        ensures
            r == (ApprovalDirectLocal { short_name, auth_domain }),
    {
        ApprovalDirectLocal { short_name, auth_domain }
    }
}

/// How the parent stands on this device.
#[derive(Debug, PartialEq, Eq)]
pub enum LocalApprovalCandidate {
    Ready { short_name: String, auth_domain: String },
    Expired { short_name: String, auth_domain: String, can_renew: bool, can_reapply: bool },
    Incomplete { short_name: String, auth_domain: String, detail: String },
    Invalid { short_name: String, auth_domain: String, detail: String },
    Missing { short_name: String, auth_domain: String },
}

impl LocalApprovalCandidate {
    pub fn ready(short_name: String, auth_domain: String) -> (r: Self)
        ensures
            r == (LocalApprovalCandidate::Ready { short_name, auth_domain }),
    {
        LocalApprovalCandidate::Ready { short_name, auth_domain }
    }

    pub fn expired(
        short_name: String,
        auth_domain: String,
        can_renew: bool,
        can_reapply: bool,
    ) -> (r: Self)
        ensures
            r == (LocalApprovalCandidate::Expired {
                short_name,
                auth_domain,
                can_renew,
                can_reapply,
            }),
    {
        LocalApprovalCandidate::Expired { short_name, auth_domain, can_renew, can_reapply }
    }

    pub fn incomplete(short_name: String, auth_domain: String, detail: String) -> (r: Self)
        ensures
            r == (LocalApprovalCandidate::Incomplete { short_name, auth_domain, detail }),
    {
        LocalApprovalCandidate::Incomplete { short_name, auth_domain, detail }
    }

    pub fn invalid(short_name: String, auth_domain: String, detail: String) -> (r: Self)
        ensures
            r == (LocalApprovalCandidate::Invalid { short_name, auth_domain, detail }),
    {
        LocalApprovalCandidate::Invalid { short_name, auth_domain, detail }
    }

    pub fn missing(short_name: String, auth_domain: String) -> (r: Self)
        ensures
            r == (LocalApprovalCandidate::Missing { short_name, auth_domain }),
    {
        LocalApprovalCandidate::Missing { short_name, auth_domain }
    }

    pub fn copy(&self) -> (r: Self)
        ensures
            r == *self,
    {
        match self {
            LocalApprovalCandidate::Ready { short_name, auth_domain } => {
                LocalApprovalCandidate::Ready {
                    short_name: short_name.clone(),
                    auth_domain: auth_domain.clone(),
                }
            },
            LocalApprovalCandidate::Expired { short_name, auth_domain, can_renew, can_reapply } => {
                LocalApprovalCandidate::Expired {
                    short_name: short_name.clone(),
                    auth_domain: auth_domain.clone(),
                    can_renew: *can_renew,
                    can_reapply: *can_reapply,
                }
            },
            LocalApprovalCandidate::Incomplete { short_name, auth_domain, detail } => {
                LocalApprovalCandidate::Incomplete {
                    short_name: short_name.clone(),
                    auth_domain: auth_domain.clone(),
                    detail: detail.clone(),
                }
            },
            LocalApprovalCandidate::Invalid { short_name, auth_domain, detail } => {
                LocalApprovalCandidate::Invalid {
                    short_name: short_name.clone(),
                    auth_domain: auth_domain.clone(),
                    detail: detail.clone(),
                }
            },
            LocalApprovalCandidate::Missing { short_name, auth_domain } => {
                LocalApprovalCandidate::Missing {
                    short_name: short_name.clone(),
                    auth_domain: auth_domain.clone(),
                }
            },
        }
    }
}

#[derive(Debug, PartialEq, Eq)]
pub struct ApprovalHelperOption {
    pub action: ApprovalHelperAction,
    pub short_name: String,
    pub auth_domain: String,
    pub detail: Option<String>,
}

/// A helper option with its texts as sequences.
pub ghost struct HelperView {
    pub action: ApprovalHelperAction,
    pub short_name: Seq<char>,
    pub auth_domain: Seq<char>,
    pub detail: Option<Seq<char>>,
}

impl View for ApprovalHelperOption {
    type V = HelperView;

    open spec fn view(&self) -> HelperView {
        HelperView {
            action: self.action,
            short_name: self.short_name@,
            auth_domain: self.auth_domain@,
            detail: opt_view(self.detail),
        }
    }
}

impl HelperView {
    pub open spec fn label_text(self) -> Seq<char> {
        match self.action {
            ApprovalHelperAction::Apply => "Apply "@ + self.short_name
                + " to this device, then verify with "@ + self.short_name,
            ApprovalHelperAction::Reapply => "Re-apply "@ + self.short_name
                + " to this device, then verify with "@ + self.short_name,
            ApprovalHelperAction::Renew => "Renew "@ + self.short_name
                + " on this device, then verify with "@ + self.short_name,
        }
    }
}

impl ApprovalHelperOption {
    pub fn apply_for(short_name: String, auth_domain: String) -> (r: Self)
        ensures
            r == (ApprovalHelperOption {
                action: ApprovalHelperAction::Apply,
                short_name,
                auth_domain,
                detail: None,
            }),
    {
        ApprovalHelperOption {
            action: ApprovalHelperAction::Apply,
            short_name,
            auth_domain,
            detail: None,
        }
    }

    pub fn reapply_for(short_name: String, auth_domain: String, detail: String) -> (r: Self)
        ensures
            r == (ApprovalHelperOption {
                action: ApprovalHelperAction::Reapply,
                short_name,
                auth_domain,
                detail: Some(detail),
            }),
    {
        ApprovalHelperOption {
            action: ApprovalHelperAction::Reapply,
            short_name,
            auth_domain,
            detail: Some(detail),
        }
    }

    pub fn renew_for(short_name: String, auth_domain: String) -> (r: Self)
        ensures
            r == (ApprovalHelperOption {
                action: ApprovalHelperAction::Renew,
                short_name,
                auth_domain,
                detail: None,
            }),
    {
        ApprovalHelperOption {
            action: ApprovalHelperAction::Renew,
            short_name,
            auth_domain,
            detail: None,
        }
    }

    pub fn label(&self) -> (r: String)
        ensures
            r@ == self@.label_text(),
    {
        let mut r = match self.action {
            ApprovalHelperAction::Apply => "Apply ".to_owned(),
            ApprovalHelperAction::Reapply => "Re-apply ".to_owned(),
            ApprovalHelperAction::Renew => "Renew ".to_owned(),
        };
        r.append(&self.short_name);
        match self.action {
            ApprovalHelperAction::Renew => {
                r.append(" on this device, then verify with ");
            },
            _ => {
                r.append(" to this device, then verify with ");
            },
        }
        r.append(&self.short_name);
        r
    }

    pub fn copy(&self) -> (r: Self)
        ensures
            r == *self,
    {
        ApprovalHelperOption {
            action: self.action,
            short_name: self.short_name.clone(),
            auth_domain: self.auth_domain.clone(),
            detail: copy_opt(&self.detail),
        }
    }
}

#[derive(Debug, PartialEq, Eq)]
pub enum ApprovalMenuOption {
    DirectLocal(ApprovalDirectLocal),
    Email { label: String },
    Helper(ApprovalHelperOption),
}

/// A menu option with its texts as sequences.
pub ghost enum OptionView {
    DirectLocal { short_name: Seq<char>, auth_domain: Seq<char> },
    Email { label: Seq<char> },
    Helper(HelperView),
}

impl View for ApprovalMenuOption {
    type V = OptionView;

    open spec fn view(&self) -> OptionView {
        match *self {
            ApprovalMenuOption::DirectLocal(local) => OptionView::DirectLocal {
                short_name: local.short_name@,
                auth_domain: local.auth_domain@,
            },
            ApprovalMenuOption::Email { label } => OptionView::Email { label: label@ },
            ApprovalMenuOption::Helper(helper) => OptionView::Helper(helper@),
        }
    }
}

impl OptionView {
    pub open spec fn label_text(self) -> Seq<char> {
        match self {
            OptionView::DirectLocal { short_name, .. } => "Verify with "@ + short_name
                + " on local device"@,
            OptionView::Email { label } => label,
            OptionView::Helper(helper) => helper.label_text(),
        }
    }
}

impl ApprovalMenuOption {
    /// What the menu shows.
    pub fn label(&self) -> (r: String)
        ensures
            r@ == self@.label_text(),
    {
        match self {
            ApprovalMenuOption::DirectLocal(option) => {
                let mut r = "Verify with ".to_owned();
                r.append(&option.short_name);
                r.append(" on local device");
                r
            },
            ApprovalMenuOption::Email { label } => label.clone(),
            ApprovalMenuOption::Helper(option) => option.label(),
        }
    }
}

/// What a menu is built from.
#[derive(Debug, PartialEq, Eq)]
pub struct ApprovalMenuSpec {
    pub email_label: String,
    pub direct_local: Vec<ApprovalDirectLocal>,
    pub helpers: Vec<ApprovalHelperOption>,
}

pub open spec fn option_views(options: Seq<ApprovalMenuOption>) -> Seq<OptionView> {
    Seq::new(options.len(), |i: int| options[i]@)
}

/// The helpers with one action, in the order in which they came.
pub open spec fn helpers_with(
    helpers: Seq<ApprovalHelperOption>,
    action: ApprovalHelperAction,
) -> Seq<OptionView>
    decreases helpers.len(),
{
    if helpers.len() == 0 {
        Seq::empty()
    } else {
        let before = helpers_with(helpers.drop_last(), action);
        if helpers.last().action == action {
            before.push(OptionView::Helper(helpers.last()@))
        } else {
            before
        }
    }
}

/// The parents on this device come first, then email. Helpers are only offered where no parent
/// is ready: renewals, then repeated applications, then first ones, each in the order in which
/// they came.
pub open spec fn menu_options(
    email_label: Seq<char>,
    direct_local: Seq<ApprovalDirectLocal>,
    helpers: Seq<ApprovalHelperOption>,
) -> Seq<OptionView> {
    let direct = Seq::new(
        direct_local.len(),
        |i: int|
            OptionView::DirectLocal {
                short_name: direct_local[i].short_name@,
                auth_domain: direct_local[i].auth_domain@,
            },
    );
    let offered = direct.push(OptionView::Email { label: email_label });
    if direct_local.len() > 0 {
        offered
    } else {
        offered + helpers_with(helpers, ApprovalHelperAction::Renew) + helpers_with(
            helpers,
            ApprovalHelperAction::Reapply,
        ) + helpers_with(helpers, ApprovalHelperAction::Apply)
    }
}

fn same_action(a: ApprovalHelperAction, b: ApprovalHelperAction) -> (r: bool)
    ensures
        r == (a == b),
{
    a == b
}

fn push_helpers(
    options: &mut Vec<ApprovalMenuOption>,
    helpers: &Vec<ApprovalHelperOption>,
    action: ApprovalHelperAction,
)
    ensures
        option_views(final(options)@) == option_views(old(options)@) + helpers_with(
            helpers@,
            action,
        ),
{
    let ghost before = option_views(options@);
    let mut i: usize = 0;
    assert(helpers@.take(0) == Seq::<ApprovalHelperOption>::empty());
    assert(option_views(options@) == before + helpers_with(helpers@.take(0), action));
    while i < helpers.len()
        invariant
            i <= helpers@.len(),
            option_views(options@) == before + helpers_with(helpers@.take(i as int), action),
        decreases helpers.len() - i,
    {
        let ghost held = options@;
        assert(helpers@.take(i + 1).drop_last() == helpers@.take(i as int));
        assert(helpers@.take(i + 1).last() == helpers@[i as int]);
        if same_action(helpers[i].action, action) {
            options.push(ApprovalMenuOption::Helper(helpers[i].copy()));
            assert(option_views(options@) == option_views(held).push(
                OptionView::Helper(helpers@[i as int]@),
            ));
            assert(option_views(options@) == before + helpers_with(
                helpers@.take(i + 1),
                action,
            ));
        }
        i += 1;
    }
    assert(helpers@.take(i as int) == helpers@);
}

/// The options of a menu, in the order in which they are shown.
pub fn build_approval_options(spec: ApprovalMenuSpec) -> (r: Vec<ApprovalMenuOption>)
    ensures
        option_views(r@) == menu_options(spec.email_label@, spec.direct_local@, spec.helpers@),
{
    let mut options: Vec<ApprovalMenuOption> = Vec::new();
    let ghost direct = Seq::new(
        spec.direct_local@.len(),
        |i: int|
            OptionView::DirectLocal {
                short_name: spec.direct_local@[i].short_name@,
                auth_domain: spec.direct_local@[i].auth_domain@,
            },
    );
    let mut i: usize = 0;
    while i < spec.direct_local.len()
        invariant
            i <= spec.direct_local@.len(),
            options@.len() == i,
            direct.len() == spec.direct_local@.len(),
            forall|k: int|
                0 <= k < direct.len() ==> #[trigger] direct[k] == (OptionView::DirectLocal {
                    short_name: spec.direct_local@[k].short_name@,
                    auth_domain: spec.direct_local@[k].auth_domain@,
                }),
            forall|k: int| 0 <= k < i ==> (#[trigger] options@[k])@ == direct[k],
        decreases spec.direct_local.len() - i,
    {
        let local = &spec.direct_local[i];
        options.push(
            ApprovalMenuOption::DirectLocal(
                ApprovalDirectLocal {
                    short_name: local.short_name.clone(),
                    auth_domain: local.auth_domain.clone(),
                },
            ),
        );
        i += 1;
    }
    assert(option_views(options@) == direct);
    let ghost held = options@;
    let ready: bool = spec.direct_local.len() > 0;
    options.push(ApprovalMenuOption::Email { label: spec.email_label });
    assert(option_views(options@) == option_views(held).push(
        OptionView::Email { label: spec.email_label@ },
    ));
    if !ready {
        push_helpers(&mut options, &spec.helpers, ApprovalHelperAction::Renew);
        push_helpers(&mut options, &spec.helpers, ApprovalHelperAction::Reapply);
        push_helpers(&mut options, &spec.helpers, ApprovalHelperAction::Apply);
    }
    options
}

/// What is offered where the parent stands like this on the device.
pub open spec fn candidate_options(
    email_label: Seq<char>,
    candidate: Option<LocalApprovalCandidate>,
) -> Seq<OptionView> {
    let email = OptionView::Email { label: email_label };
    match candidate {
        None => seq![email],
        Some(LocalApprovalCandidate::Ready { short_name, auth_domain }) => seq![
            OptionView::DirectLocal { short_name: short_name@, auth_domain: auth_domain@ },
            email,
        ],
        Some(
            LocalApprovalCandidate::Expired { short_name, auth_domain, can_renew, can_reapply },
        ) => {
            let renew = OptionView::Helper(
                HelperView {
                    action: ApprovalHelperAction::Renew,
                    short_name: short_name@,
                    auth_domain: auth_domain@,
                    detail: None,
                },
            );
            let reapply = OptionView::Helper(
                HelperView {
                    action: ApprovalHelperAction::Reapply,
                    short_name: short_name@,
                    auth_domain: auth_domain@,
                    detail: Some("expired local identity"@),
                },
            );
            seq![email] + (if can_renew {
                seq![renew]
            } else {
                Seq::empty()
            }) + (if can_reapply {
                seq![reapply]
            } else {
                Seq::empty()
            })
        },
        Some(LocalApprovalCandidate::Incomplete { short_name, auth_domain, detail })
        | Some(LocalApprovalCandidate::Invalid { short_name, auth_domain, detail }) => seq![
            email,
            OptionView::Helper(
                HelperView {
                    action: ApprovalHelperAction::Reapply,
                    short_name: short_name@,
                    auth_domain: auth_domain@,
                    detail: Some(detail@),
                },
            ),
        ],
        Some(LocalApprovalCandidate::Missing { short_name, auth_domain }) => seq![
            email,
            OptionView::Helper(
                HelperView {
                    action: ApprovalHelperAction::Apply,
                    short_name: short_name@,
                    auth_domain: auth_domain@,
                    detail: None,
                },
            ),
        ],
    }
}

/// The options where the parent stands like this on the device. A ready parent can approve at
/// once; another one can be renewed or applied for first.
pub fn build_options_for_candidate(
    email_label: String,
    candidate: Option<LocalApprovalCandidate>,
) -> (r: Vec<ApprovalMenuOption>)
    ensures
        option_views(r@) == candidate_options(email_label@, candidate),
{
    let ghost label = email_label@;
    let ghost given = candidate;
    let mut direct_local: Vec<ApprovalDirectLocal> = Vec::new();
    let mut helpers: Vec<ApprovalHelperOption> = Vec::new();
    match candidate {
        Some(LocalApprovalCandidate::Ready { short_name, auth_domain }) => {
            direct_local.push(ApprovalDirectLocal::new(short_name, auth_domain));
        },
        Some(
            LocalApprovalCandidate::Expired { short_name, auth_domain, can_renew, can_reapply },
        ) => {
            if can_renew {
                helpers.push(
                    ApprovalHelperOption::renew_for(short_name.clone(), auth_domain.clone()),
                );
            }
            if can_reapply {
                helpers.push(
                    ApprovalHelperOption::reapply_for(
                        short_name,
                        auth_domain,
                        "expired local identity".to_owned(),
                    ),
                );
            }
        },
        Some(LocalApprovalCandidate::Incomplete { short_name, auth_domain, detail }) => {
            helpers.push(ApprovalHelperOption::reapply_for(short_name, auth_domain, detail));
        },
        Some(LocalApprovalCandidate::Invalid { short_name, auth_domain, detail }) => {
            helpers.push(ApprovalHelperOption::reapply_for(short_name, auth_domain, detail));
        },
        Some(LocalApprovalCandidate::Missing { short_name, auth_domain }) => {
            helpers.push(ApprovalHelperOption::apply_for(short_name, auth_domain));
        },
        None => {},
    }
    proof {
        let h = helpers@;
        reveal_with_fuel(helpers_with, 3);
        assert(h.len() <= 2);
        if h.len() >= 1 {
            assert(h.drop_last().len() == h.len() - 1);
            if h.len() == 2 {
                assert(h.drop_last()[0] == h[0]);
                assert(h.drop_last().drop_last().len() == 0);
            }
        }
        assert(menu_options(label, direct_local@, h) =~= candidate_options(label, given));
    }
    build_approval_options(ApprovalMenuSpec { email_label, direct_local, helpers })
}

/// Where a parent is ready on the device, no helper is offered.
pub proof fn ready_parent_hides_helpers(
    email_label: Seq<char>,
    direct_local: Seq<ApprovalDirectLocal>,
    helpers: Seq<ApprovalHelperOption>,
    i: int,
)
    requires
        direct_local.len() > 0,
        0 <= i < menu_options(email_label, direct_local, helpers).len(),
    ensures
        menu_options(email_label, direct_local, helpers)[i] !is Helper,
{
}

/// Every helper is offered where no parent is ready.
pub proof fn every_helper_is_offered(
    email_label: Seq<char>,
    helpers: Seq<ApprovalHelperOption>,
    i: int,
)
    requires
        0 <= i < helpers.len(),
    ensures
        menu_options(email_label, Seq::empty(), helpers).contains(OptionView::Helper(helpers[i]@)),
{
    let menu = menu_options(email_label, Seq::empty(), helpers);
    let renew = helpers_with(helpers, ApprovalHelperAction::Renew);
    let reapply = helpers_with(helpers, ApprovalHelperAction::Reapply);
    let apply = helpers_with(helpers, ApprovalHelperAction::Apply);
    let k = held_helper(helpers, helpers[i].action, i);
    match helpers[i].action {
        ApprovalHelperAction::Renew => {
            assert(menu[1 + k] == renew[k]);
        },
        ApprovalHelperAction::Reapply => {
            assert(menu[1 + renew.len() + k] == reapply[k]);
        },
        ApprovalHelperAction::Apply => {
            assert(menu[1 + renew.len() + reapply.len() + k] == apply[k]);
        },
    }
}

proof fn held_helper(
    helpers: Seq<ApprovalHelperOption>,
    action: ApprovalHelperAction,
    i: int,
) -> (k: int)
    requires
        0 <= i < helpers.len(),
        helpers[i].action == action,
    ensures
        0 <= k < helpers_with(helpers, action).len(),
        helpers_with(helpers, action)[k] == OptionView::Helper(helpers[i]@),
    decreases helpers.len(),
{
    if i == helpers.len() - 1 {
        helpers_with(helpers, action).len() - 1
    } else {
        assert(helpers.drop_last()[i] == helpers[i]);
        held_helper(helpers.drop_last(), action, i)
    }
}

/// The helpers of one kind are offered in the order in which they came.
pub proof fn helpers_keep_their_order(
    helpers: Seq<ApprovalHelperOption>,
    helper: ApprovalHelperOption,
    action: ApprovalHelperAction,
)
    ensures
        helpers_with(Seq::<ApprovalHelperOption>::empty(), action) == Seq::<OptionView>::empty(),
        helper.action == action ==> helpers_with(helpers.push(helper), action) == helpers_with(
            helpers,
            action,
        ).push(OptionView::Helper(helper@)),
        helper.action != action ==> helpers_with(helpers.push(helper), action) == helpers_with(
            helpers,
            action,
        ),
{
    assert(helpers.push(helper).drop_last() =~= helpers);
}

/// Saved identities that are ready come first, then email, and only without the former the
/// helpers: renewals, then second applications, then first ones.
pub proof fn renewals_are_offered_before_applications(
    email_label: Seq<char>,
    direct: ApprovalDirectLocal,
    renew: ApprovalHelperOption,
    reapply: ApprovalHelperOption,
    apply: ApprovalHelperOption,
)
    requires
        renew.action == ApprovalHelperAction::Renew,
        reapply.action == ApprovalHelperAction::Reapply,
        apply.action == ApprovalHelperAction::Apply,
    ensures
        menu_options(email_label, Seq::empty(), seq![apply, reapply, renew]) == seq![
            OptionView::Email { label: email_label },
            OptionView::Helper(renew@),
            OptionView::Helper(reapply@),
            OptionView::Helper(apply@),
        ],
        menu_options(email_label, seq![direct], seq![apply, reapply, renew]) == seq![
            OptionView::DirectLocal {
                short_name: direct.short_name@,
                auth_domain: direct.auth_domain@,
            },
            OptionView::Email { label: email_label },
        ],
{
    let none = Seq::<ApprovalHelperOption>::empty();
    let all = seq![apply, reapply, renew];
    assert(all =~= none.push(apply).push(reapply).push(renew));
    helpers_keep_their_order(none, apply, ApprovalHelperAction::Apply);
    helpers_keep_their_order(none, apply, ApprovalHelperAction::Reapply);
    helpers_keep_their_order(none, apply, ApprovalHelperAction::Renew);
    let two = none.push(apply);
    helpers_keep_their_order(two, reapply, ApprovalHelperAction::Apply);
    helpers_keep_their_order(two, reapply, ApprovalHelperAction::Reapply);
    helpers_keep_their_order(two, reapply, ApprovalHelperAction::Renew);
    let three = two.push(reapply);
    helpers_keep_their_order(three, renew, ApprovalHelperAction::Apply);
    helpers_keep_their_order(three, renew, ApprovalHelperAction::Reapply);
    helpers_keep_their_order(three, renew, ApprovalHelperAction::Renew);
}

/// Email is always offered, a ready identity before it and a helper behind it: an expired
/// identity is renewed or applied for again, an unusable one is applied for again, a missing one
/// is applied for.
pub proof fn candidates_are_offered_by_their_state(
    email_label: Seq<char>,
    candidate: LocalApprovalCandidate,
)
    ensures
        ({
            let options = candidate_options(email_label, Some(candidate));
            let email = OptionView::Email { label: email_label };
            &&& candidate_options(email_label, None) == seq![email]
            &&& (candidate matches LocalApprovalCandidate::Ready { short_name, auth_domain }
                ==> options.len() == 2 && options[0] == (OptionView::DirectLocal {
                short_name: short_name@,
                auth_domain: auth_domain@,
            }) && options[1] == email)
            &&& (!(candidate is Ready) ==> options[0] == email && forall|i: int|
                1 <= i < options.len() ==> (#[trigger] options[i]) is Helper)
            &&& (candidate matches LocalApprovalCandidate::Missing { short_name, auth_domain }
                ==> options.len() == 2 && (options[1] matches OptionView::Helper(helper)
                && helper.action == ApprovalHelperAction::Apply && helper.short_name == short_name@
                && helper.auth_domain == auth_domain@ && helper.detail is None))
            &&& (candidate matches LocalApprovalCandidate::Incomplete {
                short_name,
                auth_domain,
                detail,
            } ==> options.len() == 2 && (options[1] matches OptionView::Helper(helper)
                && helper.action == ApprovalHelperAction::Reapply && helper.short_name
                == short_name@ && helper.auth_domain == auth_domain@ && helper.detail == Some(
                detail@,
            )))
            &&& (candidate matches LocalApprovalCandidate::Invalid {
                short_name,
                auth_domain,
                detail,
            } ==> options.len() == 2 && (options[1] matches OptionView::Helper(helper)
                && helper.action == ApprovalHelperAction::Reapply && helper.short_name
                == short_name@ && helper.auth_domain == auth_domain@ && helper.detail == Some(
                detail@,
            )))
            &&& (candidate matches LocalApprovalCandidate::Expired {
                short_name,
                auth_domain,
                can_renew,
                can_reapply,
            } ==> options.len() == 1 + (if can_renew {
                1int
            } else {
                0
            }) + (if can_reapply {
                1int
            } else {
                0
            }) && (can_renew ==> (options[1] matches OptionView::Helper(helper) && helper.action
                == ApprovalHelperAction::Renew && helper.short_name == short_name@
                && helper.auth_domain == auth_domain@)) && (can_reapply ==> (
            options.last() matches OptionView::Helper(helper) && helper.action
                == ApprovalHelperAction::Reapply && helper.short_name == short_name@
                && helper.auth_domain == auth_domain@)))
        }),
{
}

} // verus!
