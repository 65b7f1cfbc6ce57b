use gmutils::calendar::{format_date, format_natural_date, CalendarDate};
use gmutils::local::{
    build_apply_inventory_choices, build_default_inventory_choices, build_inventory,
    build_renew_inventory_choices, build_summary, classify_status, InteractiveInventoryChoice,
    LocalIdentityAssessment, LocalIdentityMaterialState, LocalIdentityStatus, LocalIdentitySummary,
    LocalInventoryRoot,
};
use gmutils::output::{
    can_show_date, compact_identity_label, format_current_default_suffix,
    format_default_identity_sentence, format_default_query, format_default_summary, format_info,
    format_saved_identity_result, render_choice_label, render_inventory, render_line,
    render_verbose_inventory, summary_line_style, DefaultIdentityBlock, LineStyle,
    SavedIdentityAction,
};
use gmutils::target::{IdentityName, IdentityTarget};

const NOW: i64 = 1_794_298_000;
const EXPIRES_AT: i64 = 1_794_298_364;

fn assessment(
    certificate: LocalIdentityMaterialState,
    private_key: LocalIdentityMaterialState,
    chain: &str,
    expires_at: i64,
) -> LocalIdentityAssessment {
    LocalIdentityAssessment {
        certificate,
        private_key,
        certificate_chain: Some(chain.to_owned()),
        usage: None,
        sequence: None,
        certificate_target_matches: Some(true),
        expires_at: Some(expires_at),
    }
}

fn summary(
    name: &str,
    is_default: bool,
    status: LocalIdentityStatus,
    chain: Option<&str>,
) -> LocalIdentitySummary {
    LocalIdentitySummary {
        target: IdentityTarget::parse(name).unwrap(),
        certificate_chain: chain.map(ToOwned::to_owned),
        usage: None,
        sequence: None,
        valid_from: Some(1_700_000_000),
        expires_at: status.expires_at(),
        issuer: Some("CN=Genmeta Test CA".to_string()),
        status,
        dir: format!("/tmp/{name}"),
        is_default,
    }
}

fn ready_summary(name: &str, is_default: bool, chain: &str) -> LocalIdentitySummary {
    summary(name, is_default, LocalIdentityStatus::Ready { expires_at: NOW + 300 }, Some(chain))
}

fn incomplete_tv() -> LocalIdentitySummary {
    summary(
        "tv.alice.smith",
        false,
        LocalIdentityStatus::Incomplete { detail: "private key missing".to_string() },
        None,
    )
}

#[test]
fn classifies_ready_expired_incomplete_and_invalid() {
    let present = || LocalIdentityMaterialState::Present;
    assert_eq!(
        classify_status(&assessment(present(), present(), "primary:0", NOW + 300), NOW),
        LocalIdentityStatus::Ready { expires_at: NOW + 300 }
    );
    assert_eq!(
        classify_status(&assessment(present(), present(), "secondary:2", NOW - 1), NOW),
        LocalIdentityStatus::Expired { expired_at: NOW - 1 }
    );
    assert_eq!(
        classify_status(
            &assessment(
                present(),
                LocalIdentityMaterialState::Missing("private key missing"),
                "secondary:3",
                NOW + 300
            ),
            NOW
        ),
        LocalIdentityStatus::Incomplete { detail: "private key missing".to_string() }
    );
    assert_eq!(
        classify_status(
            &assessment(
                LocalIdentityMaterialState::Invalid(
                    "certificate does not match local key".to_string(),
                ),
                present(),
                "secondary:4",
                NOW + 300
            ),
            NOW
        ),
        LocalIdentityStatus::Invalid { detail: "certificate does not match local key".to_string() }
    );
}

#[test]
fn summaries_know_the_default() {
    let present = || LocalIdentityMaterialState::Present;
    let default_name = IdentityName::parse("alice.smith").unwrap();
    let built = build_summary(
        IdentityTarget::parse("alice.smith").unwrap(),
        assessment(present(), present(), "primary:0", NOW + 300),
        None,
        None,
        "/tmp/alice.smith".to_owned(),
        Some(&default_name),
        NOW,
    );
    assert!(built.is_default);
    assert_eq!(built.status, LocalIdentityStatus::Ready { expires_at: NOW + 300 });
}

#[test]
fn builds_inventory_with_saved_and_organization_roots() {
    let inventory = build_inventory(vec![
        ready_summary("tablet.reimu.scarlet", false, "secondary:1"),
        incomplete_tv(),
        ready_summary("phone.alice.smith", false, "secondary:2"),
        ready_summary("alice.smith", true, "primary:0"),
    ]);

    match &inventory.groups[0].root {
        LocalInventoryRoot::Saved(summary) => {
            assert_eq!(summary.target.short_name(), "alice.smith");
            assert!(summary.is_default);
        }
        other => panic!("expected saved root, got {other:?}"),
    }
    assert_eq!(inventory.groups[0].children.len(), 2);
    assert_eq!(inventory.groups[0].children[0].target.short_name(), "phone.alice.smith");
    assert_eq!(inventory.groups[0].children[1].target.short_name(), "tv.alice.smith");

    match &inventory.groups[1].root {
        LocalInventoryRoot::Organization { target } => {
            assert_eq!(target.short_name(), "reimu.scarlet");
        }
        other => panic!("expected organization root, got {other:?}"),
    }
    assert_eq!(inventory.groups[1].children.len(), 1);
    assert_eq!(inventory.groups[1].children[0].target.short_name(), "tablet.reimu.scarlet");
}

#[test]
fn builds_apply_inventory_choices_with_organization_root_and_enter_another_identity() {
    let inventory = build_inventory(vec![
        ready_summary("tablet.reimu.scarlet", false, "secondary:1"),
        incomplete_tv(),
        ready_summary("phone.alice.smith", false, "secondary:2"),
    ]);

    assert_eq!(
        build_apply_inventory_choices(&inventory),
        vec![
            InteractiveInventoryChoice::Organization {
                target: IdentityTarget::parse("alice.smith").unwrap(),
            },
            InteractiveInventoryChoice::Saved(ready_summary(
                "phone.alice.smith",
                false,
                "secondary:2",
            )),
            InteractiveInventoryChoice::Saved(incomplete_tv()),
            InteractiveInventoryChoice::Organization {
                target: IdentityTarget::parse("reimu.scarlet").unwrap(),
            },
            InteractiveInventoryChoice::Saved(ready_summary(
                "tablet.reimu.scarlet",
                false,
                "secondary:1",
            )),
            InteractiveInventoryChoice::EnterAnotherIdentity,
        ]
    );
}

#[test]
fn build_renew_inventory_choices_keeps_missing_parent_roots() {
    let child = ready_summary("shanghai.alice.ma", false, "secondary:1");
    let inventory = build_inventory(vec![child.copy()]);

    assert_eq!(
        build_renew_inventory_choices(&inventory),
        vec![
            InteractiveInventoryChoice::Organization {
                target: IdentityTarget::parse("alice.ma").unwrap(),
            },
            InteractiveInventoryChoice::Saved(child),
        ]
    );
}

#[test]
fn builds_default_inventory_choices_with_organization_roots_without_enter_another_identity() {
    let inventory = build_inventory(vec![
        ready_summary("phone.alice.smith", false, "secondary:2"),
        ready_summary("tablet.reimu.scarlet", false, "secondary:1"),
    ]);

    assert_eq!(
        build_default_inventory_choices(&inventory),
        vec![
            InteractiveInventoryChoice::Organization {
                target: IdentityTarget::parse("alice.smith").unwrap(),
            },
            InteractiveInventoryChoice::Saved(ready_summary(
                "phone.alice.smith",
                false,
                "secondary:2",
            )),
            InteractiveInventoryChoice::Organization {
                target: IdentityTarget::parse("reimu.scarlet").unwrap(),
            },
            InteractiveInventoryChoice::Saved(ready_summary(
                "tablet.reimu.scarlet",
                false,
                "secondary:1",
            )),
        ]
    );
}

#[test]
fn formats_info_with_dir_detail() {
    let profile = summary(
        "phone.alice.smith",
        true,
        LocalIdentityStatus::Ready { expires_at: EXPIRES_AT },
        Some("secondary:2"),
    );

    let rendered = format_info(&profile, false);
    assert!(rendered.contains("  status: ready"), "{rendered}");
    assert!(rendered.contains("  usage: secondary"), "{rendered}");
    assert!(rendered.contains("  sequence: 2"), "{rendered}");
    assert!(rendered.contains("  chain: secondary:2"), "{rendered}");
    assert!(rendered.contains("  dir: /tmp/phone.alice.smith"), "{rendered}");
    assert!(rendered.contains("  validity: 14 Nov 2023 - 10 Nov 2026"), "{rendered}");
    assert!(rendered.contains("  issuer: CN=Genmeta Test CA"), "{rendered}");
    assert_eq!(format_default_summary(&profile, false), rendered);
}

#[test]
fn expired_default_query_keeps_name_and_actionable_warning() {
    let profile = summary(
        "alice.smith",
        true,
        LocalIdentityStatus::Expired { expired_at: 1_783_478_400 },
        Some("primary:0"),
    );

    assert_eq!(
        format_default_query(&profile),
        "alice.smith\n\nWARNING: This name expired on 08 Jul 2026. Renew it soon, or the name may be released.\nRun `genmeta identity renew alice.smith` to renew it.",
    );
}

#[test]
fn ready_default_line_prefers_bold() {
    let profile = ready_summary("alice.smith", true, "primary:0");
    assert_eq!(summary_line_style(&profile), LineStyle::Bold);
}

#[test]
fn compact_label_hides_ready_status() {
    let profile = ready_summary("alice.smith", false, "primary:0");
    assert_eq!(compact_identity_label(&profile), "alice.smith");
}

#[test]
fn invalid_default_line_prefers_dim_over_bold() {
    let profile = summary(
        "alice.smith",
        true,
        LocalIdentityStatus::Invalid { detail: "certificate is unreadable".to_string() },
        None,
    );

    assert_eq!(summary_line_style(&profile), LineStyle::Dim);
}

#[test]
fn formats_invalid_identity_with_reason_detail() {
    let profile = summary(
        "alice.smith",
        false,
        LocalIdentityStatus::Invalid {
            detail: "certificate chain metadata is invalid".to_string(),
        },
        None,
    );

    let rendered = format_info(&profile, false);
    assert!(rendered.contains("  status: invalid"), "{rendered}");
    assert!(rendered.contains("  dir: /tmp/alice.smith"), "{rendered}");
    assert!(rendered.contains("  reason: certificate chain metadata is invalid"), "{rendered}");
}

#[test]
fn current_default_suffix_uses_compact_label_text() {
    assert_eq!(
        format_current_default_suffix(
            "meng.lin",
            &LocalIdentityStatus::Invalid { detail: "certificate is unreadable".to_string() },
            false,
        ),
        "(current: meng.lin [invalid])"
    );
}

#[test]
fn formats_default_identity_sentences() {
    assert_eq!(
        format_default_identity_sentence(&DefaultIdentityBlock::NewlySet {
            name: "alice.smith".to_string(),
        }),
        "Default identity set to alice.smith"
    );
    assert_eq!(
        format_default_identity_sentence(&DefaultIdentityBlock::Changed {
            old: "meng.lin".to_string(),
            new: "alice.smith".to_string(),
        }),
        "Default identity changed from meng.lin to alice.smith"
    );
    assert_eq!(
        format_default_identity_sentence(&DefaultIdentityBlock::Unchanged {
            name: "alice.smith".to_string(),
        }),
        "Default identity remains alice.smith"
    );
    assert_eq!(
        format_default_identity_sentence(&DefaultIdentityBlock::Unset),
        "No default identity is set here"
    );
}

#[test]
fn renders_flat_compact_inventory_lines() {
    let inventory = build_inventory(vec![
        summary(
            "tablet.reimu.scarlet",
            false,
            LocalIdentityStatus::Expired { expired_at: EXPIRES_AT },
            Some("secondary:1"),
        ),
        incomplete_tv(),
        ready_summary("phone.alice.smith", false, "secondary:2"),
        ready_summary("alice.smith", true, "primary:0"),
    ]);

    let expected = "\
alice.smith (default)\n\
phone.alice.smith\n\
tv.alice.smith [incomplete]\n\
tablet.reimu.scarlet [expired]";

    assert_eq!(render_inventory(&inventory, false), expected);
}

#[test]
fn verbose_inventory_reuses_info_renderer() {
    let inventory = build_inventory(vec![ready_summary("alice.smith", true, "primary:0")]);

    let summary = match &inventory.groups[0].root {
        LocalInventoryRoot::Saved(summary) => summary,
        LocalInventoryRoot::Organization { .. } => unreachable!(),
    };
    assert_eq!(render_verbose_inventory(&inventory, false), format_info(summary, false));
}

#[test]
fn renew_chain_key_labels_include_parent_root_before_child() {
    let labels = vec![
        render_choice_label(
            &InteractiveInventoryChoice::Organization {
                target: IdentityTarget::parse("alice.ma").unwrap(),
            },
            false,
        ),
        render_choice_label(
            &InteractiveInventoryChoice::Saved(ready_summary(
                "shanghai.alice.ma",
                false,
                "secondary:1",
            )),
            false,
        ),
    ];

    assert_eq!(
        labels,
        vec!["alice.ma (not saved here)".to_string(), "  shanghai.alice.ma".to_string()]
    );
}

#[test]
fn renders_choice_labels_without_ansi_effects() {
    let labels = vec![
        render_choice_label(
            &InteractiveInventoryChoice::Saved(ready_summary("alice.smith", true, "primary:0")),
            false,
        ),
        render_choice_label(
            &InteractiveInventoryChoice::Organization {
                target: IdentityTarget::parse("reimu.scarlet").unwrap(),
            },
            false,
        ),
        render_choice_label(
            &InteractiveInventoryChoice::Saved(ready_summary(
                "tablet.reimu.scarlet",
                false,
                "secondary:1",
            )),
            false,
        ),
    ];

    assert_eq!(
        labels,
        vec![
            "alice.smith (default)".to_string(),
            "reimu.scarlet (not saved here)".to_string(),
            "  tablet.reimu.scarlet".to_string(),
        ]
    );
}

#[test]
fn styles_are_escape_sequences() {
    let line = |style, ansi| render_line("alice".to_owned(), style, ansi);
    assert_eq!(line(LineStyle::Bold, true), "\u{1b}[1malice\u{1b}[0m");
    assert_eq!(line(LineStyle::Dim, true), "\u{1b}[2malice\u{1b}[0m");
    assert_eq!(line(LineStyle::Bold, false), "alice");
    assert_eq!(line(LineStyle::Plain, true), "alice");
}

#[test]
fn saved_identities_are_announced() {
    let profile = ready_summary("alice.smith", false, "primary:0");
    let created = format_saved_identity_result(SavedIdentityAction::Created, &profile, false);
    assert!(created.contains("alice.smith"), "{created}");
    assert!(created.contains("/tmp/alice.smith"), "{created}");
}

#[test]
fn dates_are_those_of_the_calendar() {
    assert_eq!(format_natural_date(0), "01 Jan 1970");
    assert_eq!(format_natural_date(-1), "31 Dec 1969");
    assert_eq!(format_natural_date(951_782_400), "29 Feb 2000");
    assert_eq!(format_natural_date(951_868_799), "29 Feb 2000");
    assert_eq!(format_natural_date(4_107_542_400), "01 Mar 2100");
    assert_eq!(format_natural_date(253_402_300_799), "31 Dec 9999");
    assert_eq!(
        format_date(CalendarDate { year: 2026, month: 7, day: 8 }),
        "08 Jul 2026"
    );
    assert!(can_show_date(0) && !can_show_date(i64::MAX));
}
