//! The identities saved on this machine: what state each is in, and the inventory that the
//! commands show and choose from.
use vstd::prelude::*;

use crate::local_identity::{
    key_matches_pem, private_key_matches_certificate, read_certificate, x509_fields,
};
use crate::target::{partial_of, wf_name_len, IdentityLevel, IdentityName, IdentityTarget};
use crate::text::{
    copy_opt, is_less, opt_view, same, text_less, text_order_is_strict, text_order_is_total,
    text_order_is_transitive,
};

verus! {

/// What a certificate may be used for.
#[derive(Debug, Clone, Copy, PartialEq, Eq, Structural)]
pub enum IdentityUsage {
    BothClientAndServer,
    ClientOnly,
}

/// The state of one of the files of an identity.
#[derive(Debug, PartialEq, Eq)]
pub enum LocalIdentityMaterialState {
    Present,
    Missing(&'static str),
    Invalid(String),
}

/// What was found in the profile of an identity.
#[derive(Debug, PartialEq, Eq)]
pub struct LocalIdentityAssessment {
    pub certificate: LocalIdentityMaterialState,
    pub private_key: LocalIdentityMaterialState,
    pub certificate_chain: Option<String>,
    pub usage: Option<IdentityUsage>,
    pub sequence: Option<u32>,
    pub certificate_target_matches: Option<bool>,
    pub expires_at: Option<i64>,
}

/// The state of a saved identity.
#[derive(Debug, PartialEq, Eq)]
pub enum LocalIdentityStatus {
    Ready { expires_at: i64 },
    Expired { expired_at: i64 },
    Incomplete { detail: String },
    Invalid { detail: String },
}

impl LocalIdentityStatus {
    pub open spec fn label_text(self) -> Seq<char> {
        match self {
            LocalIdentityStatus::Ready { .. } => "ready"@,
            LocalIdentityStatus::Expired { .. } => "expired"@,
            LocalIdentityStatus::Incomplete { .. } => "incomplete"@,
            LocalIdentityStatus::Invalid { .. } => "invalid"@,
        }
    }

    pub fn label(&self) -> (r: &'static str)
        ensures
            r@ == self.label_text(),
    {
        match self {
            LocalIdentityStatus::Ready { .. } => "ready",
            LocalIdentityStatus::Expired { .. } => "expired",
            LocalIdentityStatus::Incomplete { .. } => "incomplete",
            LocalIdentityStatus::Invalid { .. } => "invalid",
        }
    }

    pub fn is_ready(&self) -> (r: bool)
        ensures
            r == (*self is Ready),
    {
        match self {
            LocalIdentityStatus::Ready { .. } => true,
            _ => false,
        }
    }

    /// The end of the validity, where a certificate was readable.
    pub open spec fn expiry(self) -> Option<i64> {
        match self {
            LocalIdentityStatus::Ready { expires_at } => Some(expires_at),
            LocalIdentityStatus::Expired { expired_at } => Some(expired_at),
            _ => None,
        }
    }

    pub fn expires_at(&self) -> (r: Option<i64>)
        ensures
            r == self.expiry(),
    {
        match self {
            LocalIdentityStatus::Ready { expires_at } => Some(*expires_at),
            LocalIdentityStatus::Expired { expired_at } => Some(*expired_at),
            _ => None,
        }
    }

    pub fn copy(&self) -> (r: LocalIdentityStatus)
        ensures
            r == *self,
    {
        match self {
            LocalIdentityStatus::Ready { expires_at } => LocalIdentityStatus::Ready {
                expires_at: *expires_at,
            },
            LocalIdentityStatus::Expired { expired_at } => LocalIdentityStatus::Expired {
                expired_at: *expired_at,
            },
            LocalIdentityStatus::Incomplete { detail } => LocalIdentityStatus::Incomplete {
                detail: detail.clone(),
            },
            LocalIdentityStatus::Invalid { detail } => LocalIdentityStatus::Invalid {
                detail: detail.clone(),
            },
        }
    }
}

/// A saved identity.
#[derive(Debug, PartialEq, Eq)]
pub struct LocalIdentitySummary {
    pub target: IdentityTarget,
    pub certificate_chain: Option<String>,
    pub usage: Option<IdentityUsage>,
    pub sequence: Option<u32>,
    pub valid_from: Option<i64>,
    pub expires_at: Option<i64>,
    pub issuer: Option<String>,
    pub status: LocalIdentityStatus,
    pub dir: String,
    pub is_default: bool,
}

impl LocalIdentitySummary {
    pub fn copy(&self) -> (r: LocalIdentitySummary)
        ensures
            r == *self,
    {
        LocalIdentitySummary {
            target: self.target.copy(),
            certificate_chain: copy_opt(&self.certificate_chain),
            usage: self.usage,
            sequence: self.sequence,
            valid_from: self.valid_from,
            expires_at: self.expires_at,
            issuer: copy_opt(&self.issuer),
            status: self.status.copy(),
            dir: self.dir.clone(),
            is_default: self.is_default,
        }
    }
}

/// What the two files of an identity say together, the certificate first: a file that cannot
/// be used makes the identity invalid, one that is missing makes it incomplete.
pub open spec fn material_problem(
    state: LocalIdentityMaterialState,
    status: LocalIdentityStatus,
) -> bool {
    match state {
        LocalIdentityMaterialState::Present => false,
        LocalIdentityMaterialState::Missing(detail) => status matches LocalIdentityStatus::Incomplete {
            detail: d,
        } && d@ == detail@,
        LocalIdentityMaterialState::Invalid(detail) => status matches LocalIdentityStatus::Invalid {
            detail: d,
        } && d@ == detail@,
    }
}

/// `status` is the state of an identity whose profile was assessed like this.
pub open spec fn status_of(
    assessment: LocalIdentityAssessment,
    now: i64,
    status: LocalIdentityStatus,
) -> bool {
    if assessment.certificate !is Present {
        material_problem(assessment.certificate, status)
    } else if assessment.private_key !is Present {
        material_problem(assessment.private_key, status)
    } else if assessment.certificate_chain is None {
        status matches LocalIdentityStatus::Invalid { detail } && detail@
            == "certificate chain metadata is invalid"@
    } else {
        match assessment.expires_at {
            None => status matches LocalIdentityStatus::Invalid { detail } && detail@
                == "certificate expiry is unavailable"@,
            Some(at) => if at <= now {
                status == (LocalIdentityStatus::Expired { expired_at: at })
            } else {
                status == (LocalIdentityStatus::Ready { expires_at: at })
            },
        }
    }
}

/// The state of an identity whose profile was assessed like this.
pub fn classify_status(assessment: &LocalIdentityAssessment, now_unix_timestamp: i64) -> (r:
    LocalIdentityStatus)
    ensures
        status_of(*assessment, now_unix_timestamp, r),
{
    match &assessment.certificate {
        LocalIdentityMaterialState::Invalid(detail) => {
            return LocalIdentityStatus::Invalid { detail: detail.clone() };
        },
        LocalIdentityMaterialState::Missing(detail) => {
            return LocalIdentityStatus::Incomplete { detail: (*detail).to_owned() };
        },
        LocalIdentityMaterialState::Present => {},
    }
    match &assessment.private_key {
        LocalIdentityMaterialState::Invalid(detail) => {
            return LocalIdentityStatus::Invalid { detail: detail.clone() };
        },
        LocalIdentityMaterialState::Missing(detail) => {
            return LocalIdentityStatus::Incomplete { detail: (*detail).to_owned() };
        },
        LocalIdentityMaterialState::Present => {},
    }
    if assessment.certificate_chain.is_none() {
        return LocalIdentityStatus::Invalid {
            detail: "certificate chain metadata is invalid".to_owned(),
        };
    }
    match assessment.expires_at {
        None => LocalIdentityStatus::Invalid {
            detail: "certificate expiry is unavailable".to_owned(),
        },
        Some(at) => if at <= now_unix_timestamp {
            LocalIdentityStatus::Expired { expired_at: at }
        } else {
            LocalIdentityStatus::Ready { expires_at: at }
        },
    }
}

/// The DHTTP metadata of a leaf certificate in DER: the sequence, whether the certificate is
/// for clients only, the hash of the owner, and the name of the certificate chain. `None`
/// where the bytes are no certificate or carry no such metadata.
pub uninterp spec fn leaf_metadata(leaf: Seq<u8>) -> Option<(u32, bool, Seq<char>, Seq<char>)>;

/// The DHTTP metadata of a leaf certificate.
#[derive(Debug, PartialEq, Eq)]
pub struct LeafMetadata {
    pub sequence: u32,
    pub client_only: bool,
    pub owner_hash: String,
    pub chain: String,
}

impl LeafMetadata {
    pub open spec fn parts(self) -> (u32, bool, Seq<char>, Seq<char>) {
        (self.sequence, self.client_only, self.owner_hash@, self.chain@)
    }
}

/// Calls `dhttp_identity::identity::extract_dhttp_subject_key_identifier` on a chain of this
/// one certificate and takes the identifier apart with its accessors. The name
/// `leaf_metadata` stands for the result.
#[verifier::external_body]
pub(crate) fn read_leaf_metadata(leaf: &[u8]) -> (r: Option<LeafMetadata>)
    ensures
        match r {
            Some(metadata) => leaf_metadata(leaf@) == Some(metadata.parts()),
            None => leaf_metadata(leaf@) is None,
        },
{
    let chain = [rustls::pki_types::CertificateDer::from(leaf)];
    let identifier = dhttp_identity::identity::extract_dhttp_subject_key_identifier(&chain).ok()?;
    Some(LeafMetadata {
        sequence: identifier.chain().sequence().get(),
        client_only: match identifier.chain().usage() {
            dhttp_identity::certificate::CertificateUsage::ClientOnly => true,
            dhttp_identity::certificate::CertificateUsage::ClientAndServer => false,
        },
        owner_hash: identifier.owner_hash().as_str().to_owned(),
        chain: identifier.chain().to_string(),
    })
}

/// The place of a certificate in the chain of its name.
#[derive(Debug, Clone, Copy, PartialEq, Eq, Structural)]
pub struct CertificateChainKey {
    pub sequence: u32,
    pub client_only: bool,
}

/// The place of a certificate in the chain of its name, where the certificate tells it.
pub fn certificate_chain_key_from_identity(leaf: &[u8]) -> (r: Option<CertificateChainKey>)
    ensures
        r == (match leaf_metadata(leaf@) {
            Some((sequence, client_only, _, _)) => Some(
                CertificateChainKey { sequence, client_only },
            ),
            None => None,
        }),
{
    match read_leaf_metadata(leaf) {
        Some(metadata) => Some(
            CertificateChainKey {
                sequence: metadata.sequence,
                client_only: metadata.client_only,
            },
        ),
        None => None,
    }
}

/// Why a file of a profile could not be loaded.
#[derive(Debug, Clone, Copy, PartialEq, Eq, Structural)]
pub enum LoadFailure {
    NotFound,
    Unreadable,
}

/// The files of a profile as they were read: the certificates in DER, the same file as it is,
/// and the private key in DER.
#[derive(Debug)]
pub struct ProfileMaterial {
    pub certs: Result<Vec<Vec<u8>>, LoadFailure>,
    pub cert_pem: Option<Vec<u8>>,
    pub key: Result<Vec<u8>, LoadFailure>,
}

/// What a failure to load the certificates says about them.
pub fn certificate_state_from_error(failure: LoadFailure) -> (r: LocalIdentityMaterialState)
    ensures
        match failure {
            LoadFailure::NotFound => r matches LocalIdentityMaterialState::Missing(d) && d@
                == "certificate missing"@,
            LoadFailure::Unreadable => r matches LocalIdentityMaterialState::Invalid(d) && d@
                == "certificate is unreadable"@,
        },
{
    match failure {
        LoadFailure::NotFound => LocalIdentityMaterialState::Missing("certificate missing"),
        LoadFailure::Unreadable => LocalIdentityMaterialState::Invalid(
            "certificate is unreadable".to_owned(),
        ),
    }
}

/// What a failure to load the private key says about it.
pub fn private_key_state_from_error(failure: LoadFailure) -> (r: LocalIdentityMaterialState)
    ensures
        match failure {
            LoadFailure::NotFound => r matches LocalIdentityMaterialState::Missing(d) && d@
                == "private key missing"@,
            LoadFailure::Unreadable => r matches LocalIdentityMaterialState::Invalid(d) && d@
                == "private key is invalid"@,
        },
{
    match failure {
        LoadFailure::NotFound => LocalIdentityMaterialState::Missing("private key missing"),
        LoadFailure::Unreadable => LocalIdentityMaterialState::Invalid(
            "private key is invalid".to_owned(),
        ),
    }
}

/// What is wrong with the certificates of a profile that has some, in the order in which the
/// later finding counts: the leaf does not belong to the key, there is no leaf, the leaf is
/// unreadable, the leaf has no DHTTP metadata.
pub open spec fn certificate_fault(
    certs: Seq<Vec<u8>>,
    mismatch: bool,
    expiry: Option<i64>,
    metadata: Option<(u32, bool, Seq<char>, Seq<char>)>,
) -> Option<Seq<char>> {
    if certs.len() == 0 {
        Some("certificate chain is empty"@)
    } else if expiry is None {
        Some("certificate is unreadable"@)
    } else if metadata is None {
        Some("certificate chain metadata is invalid"@)
    } else if mismatch {
        Some("certificate does not match local key"@)
    } else {
        None
    }
}

pub open spec fn expiry_of(leaf: Seq<u8>) -> Option<i64> {
    match x509_fields(leaf) {
        Some((_, _, to, _)) => Some(to),
        None => None,
    }
}

/// The certificate file and the key are both there, and the key does not belong to the
/// certificate or cannot be compared with it.
pub open spec fn key_mismatch(material: ProfileMaterial) -> bool {
    match (material.key, material.cert_pem) {
        (Ok(key), Some(pem)) => key_matches_pem(key@, pem@) != Ok::<
            bool,
            crate::local_identity::Error,
        >(true),
        _ => false,
    }
}

/// `assessment` is what these files amount to.
pub open spec fn assessed(material: ProfileMaterial, assessment: LocalIdentityAssessment) -> bool {
    match material.certs {
        Err(failure) => {
            &&& match failure {
                LoadFailure::NotFound => assessment.certificate matches LocalIdentityMaterialState::Missing(
                    d,
                ) && d@ == "certificate missing"@,
                LoadFailure::Unreadable => assessment.certificate matches LocalIdentityMaterialState::Invalid(
                    d,
                ) && d@ == "certificate is unreadable"@,
            }
            &&& assessment.private_key is Present
            &&& assessment.certificate_chain is None
            &&& assessment.usage is None
            &&& assessment.sequence is None
            &&& assessment.expires_at is None
        },
        Ok(certs) => {
            let leaf = certs@[0]@;
            let expiry = if certs@.len() == 0 {
                None
            } else {
                expiry_of(leaf)
            };
            let metadata = if expiry is None {
                None
            } else {
                leaf_metadata(leaf)
            };
            &&& match certificate_fault(certs@, key_mismatch(material), expiry, metadata) {
                Some(fault) => assessment.certificate matches LocalIdentityMaterialState::Invalid(d)
                    && d@ == fault,
                None => assessment.certificate is Present,
            }
            &&& match material.key {
                Ok(_) => assessment.private_key is Present,
                Err(LoadFailure::NotFound) => assessment.private_key matches LocalIdentityMaterialState::Missing(
                    d,
                ) && d@ == "private key missing"@,
                Err(
                    LoadFailure::Unreadable,
                ) => assessment.private_key matches LocalIdentityMaterialState::Invalid(d) && d@
                    == "private key is invalid"@,
            }
            &&& assessment.expires_at == expiry
            &&& match metadata {
                Some((sequence, client_only, _, chain)) => opt_view(assessment.certificate_chain)
                    == Some(chain) && assessment.sequence == Some(sequence) && assessment.usage
                    == Some(
                    if client_only {
                        IdentityUsage::ClientOnly
                    } else {
                        IdentityUsage::BothClientAndServer
                    },
                ),
                None => assessment.certificate_chain is None && assessment.sequence is None
                    && assessment.usage is None,
            }
        },
    }
}

/// Assesses the files of a profile. `target_matches` tells whether the leaf certificate names
/// the identity, where that was looked up.
pub fn assess_profile(material: &ProfileMaterial, target_matches: Option<bool>) -> (r:
    LocalIdentityAssessment)
    ensures
        assessed(*material, r),
        r.certificate_target_matches == target_matches,
{
    let certs = match &material.certs {
        Err(failure) => {
            return LocalIdentityAssessment {
                certificate: certificate_state_from_error(*failure),
                private_key: LocalIdentityMaterialState::Present,
                certificate_chain: None,
                usage: None,
                sequence: None,
                certificate_target_matches: target_matches,
                expires_at: None,
            };
        },
        Ok(certs) => certs,
    };
    let mut assessment = LocalIdentityAssessment {
        certificate: LocalIdentityMaterialState::Present,
        private_key: LocalIdentityMaterialState::Present,
        certificate_chain: None,
        usage: None,
        sequence: None,
        certificate_target_matches: target_matches,
        expires_at: None,
    };
    match &material.key {
        Ok(key) => {
            if let Some(pem) = &material.cert_pem {
                match private_key_matches_certificate(key.as_slice(), pem.as_slice()) {
                    Ok(true) => {},
                    _ => {
                        assessment.certificate = LocalIdentityMaterialState::Invalid(
                            "certificate does not match local key".to_owned(),
                        );
                    },
                }
            }
        },
        Err(failure) => {
            assessment.private_key = private_key_state_from_error(*failure);
        },
    }
    if certs.len() == 0 {
        assessment.certificate = LocalIdentityMaterialState::Invalid(
            "certificate chain is empty".to_owned(),
        );
        return assessment;
    }
    let leaf = certs[0].as_slice();
    match read_certificate(leaf) {
        Some((_, _, to, _)) => {
            assessment.expires_at = Some(to);
        },
        None => {
            assessment.certificate = LocalIdentityMaterialState::Invalid(
                "certificate is unreadable".to_owned(),
            );
            return assessment;
        },
    }
    match read_leaf_metadata(leaf) {
        Some(metadata) => {
            assessment.usage = Some(
                if metadata.client_only {
                    IdentityUsage::ClientOnly
                } else {
                    IdentityUsage::BothClientAndServer
                },
            );
            assessment.sequence = Some(metadata.sequence);
            assessment.certificate_chain = Some(metadata.chain);
        },
        None => {
            assessment.certificate = LocalIdentityMaterialState::Invalid(
                "certificate chain metadata is invalid".to_owned(),
            );
        },
    }
    assessment
}

/// Puts together what is known about a saved identity.
pub fn build_summary(
    target: IdentityTarget,
    assessment: LocalIdentityAssessment,
    valid_from: Option<i64>,
    issuer: Option<String>,
    dir: String,
    default_name: Option<&IdentityName>,
    now_unix_timestamp: i64,
) -> (r: LocalIdentitySummary)
    ensures
        r.target == target,
        r.certificate_chain == assessment.certificate_chain,
        r.usage == assessment.usage,
        r.sequence == assessment.sequence,
        r.valid_from == valid_from,
        r.expires_at == assessment.expires_at,
        r.issuer == issuer,
        status_of(assessment, now_unix_timestamp, r.status),
        r.dir == dir,
        r.is_default == (default_name matches Some(name) && name.full@ == target.name.full@),
{
    let status = classify_status(&assessment, now_unix_timestamp);
    let is_default = match default_name {
        Some(name) => same(&name.full, &target.name.full),
        None => false,
    };
    LocalIdentitySummary {
        target,
        certificate_chain: assessment.certificate_chain,
        usage: assessment.usage,
        sequence: assessment.sequence,
        valid_from,
        expires_at: assessment.expires_at,
        issuer,
        status,
        dir,
        is_default,
    }
}

/// The head of a group of the inventory: a root identity that is saved here, or one that only
/// has sub-identities saved here.
#[derive(Debug, PartialEq, Eq)]
pub enum LocalInventoryRoot {
    Saved(LocalIdentitySummary),
    Organization { target: IdentityTarget },
}

impl LocalInventoryRoot {
    pub open spec fn target(self) -> IdentityTarget {
        match self {
            LocalInventoryRoot::Saved(summary) => summary.target,
            LocalInventoryRoot::Organization { target } => target,
        }
    }

    /// The complete name of the root identity.
    pub open spec fn full(self) -> Seq<char> {
        self.target().name.full@
    }

    pub fn short_name(&self) -> (r: &str)
        requires
            self.full().len() >= 10,
        ensures
            r@ == partial_of(self.full()),
    {
        match self {
            LocalInventoryRoot::Saved(summary) => summary.target.short_name(),
            LocalInventoryRoot::Organization { target } => target.short_name(),
        }
    }

    /// A saved root counts as the default where it is the default; a root that is not saved
    /// here counts as the default where one of its sub-identities is.
    pub open spec fn is_default_with(self, children: Seq<LocalIdentitySummary>) -> bool {
        match self {
            LocalInventoryRoot::Saved(summary) => summary.is_default,
            LocalInventoryRoot::Organization { .. } => exists|i: int|
                0 <= i < children.len() && (#[trigger] children[i]).is_default,
        }
    }

    pub fn carries_default(&self, children: &Vec<LocalIdentitySummary>) -> (r: bool)
        ensures
            r == self.is_default_with(children@),
    {
        match self {
            LocalInventoryRoot::Saved(summary) => summary.is_default,
            LocalInventoryRoot::Organization { .. } => {
                let mut i: usize = 0;
                while i < children.len()
                    invariant
                        *self is Organization,
                        i <= children@.len(),
                        forall|j: int| 0 <= j < i ==> !(#[trigger] children@[j]).is_default,
                    decreases children@.len() - i,
                {
                    if children[i].is_default {
                        assert(children@[i as int].is_default);
                        return true;
                    }
                    i += 1;
                }
                false
            },
        }
    }
}

/// A root identity with the sub-identities of it that are saved here.
#[derive(Debug, PartialEq, Eq)]
pub struct LocalInventoryGroup {
    pub root: LocalInventoryRoot,
    pub children: Vec<LocalIdentitySummary>,
}

#[derive(Debug, PartialEq, Eq)]
pub struct LocalInventory {
    pub groups: Vec<LocalInventoryGroup>,
}

/// The default identity comes first, then the names in their order.
pub open spec fn summary_before(a: LocalIdentitySummary, b: LocalIdentitySummary) -> bool {
    if a.is_default != b.is_default {
        a.is_default
    } else {
        text_less(a.target.short(), b.target.short())
    }
}

pub fn summary_comes_before(a: &LocalIdentitySummary, b: &LocalIdentitySummary) -> (r: bool)
    requires
        a.target.name.full@.len() >= 10,
        b.target.name.full@.len() >= 10,
    ensures
        r == summary_before(*a, *b),
{
    if a.is_default != b.is_default {
        a.is_default
    } else {
        is_less(a.target.short_name(), b.target.short_name())
    }
}

/// A sequence in order with one more identity put behind all that do not come after it.
pub open spec fn inserted(
    s: Seq<LocalIdentitySummary>,
    x: LocalIdentitySummary,
) -> Seq<LocalIdentitySummary>
    decreases s.len(),
{
    if s.len() > 0 && summary_before(x, s.last()) {
        inserted(s.drop_last(), x).push(s.last())
    } else {
        s.push(x)
    }
}

/// The complete name of the root identity that an identity belongs to.
pub open spec fn group_full(summary: LocalIdentitySummary) -> Seq<char> {
    match summary.target.level {
        IdentityLevel::Identity => summary.target.name.full@,
        IdentityLevel::SubIdentity => summary.target.parent->0.full@,
    }
}

/// The sub-identities of a root, in order.
pub open spec fn children_of(
    s: Seq<LocalIdentitySummary>,
    root: Seq<char>,
) -> Seq<LocalIdentitySummary>
    decreases s.len(),
{
    if s.len() == 0 {
        Seq::<LocalIdentitySummary>::empty()
    } else {
        let before = children_of(s.drop_last(), root);
        if s.last().target.level == IdentityLevel::SubIdentity && group_full(s.last()) == root {
            inserted(before, s.last())
        } else {
            before
        }
    }
}

/// The root itself, where it is saved; of several the last in order.
pub open spec fn saved_root(s: Seq<LocalIdentitySummary>, root: Seq<char>) -> Option<
    LocalIdentitySummary,
>
    decreases s.len(),
{
    if s.len() == 0 {
        None
    } else {
        let before = saved_root(s.drop_last(), root);
        if s.last().target.level == IdentityLevel::Identity && group_full(s.last()) == root {
            match before {
                Some(earlier) => if summary_before(s.last(), earlier) {
                    Some(earlier)
                } else {
                    Some(s.last())
                },
                None => Some(s.last()),
            }
        } else {
            before
        }
    }
}

/// A group holds its root and all of its sub-identities.
pub open spec fn is_group(s: Seq<LocalIdentitySummary>, group: LocalInventoryGroup) -> bool {
    let root = group.root.full();
    &&& group.children@ == children_of(s, root)
    &&& match saved_root(s, root) {
        Some(summary) => group.root == LocalInventoryRoot::Saved(summary),
        None => group.root matches LocalInventoryRoot::Organization { target } && target.level
            == IdentityLevel::Identity && target.parent is None,
    }
}

pub open spec fn group_default(group: LocalInventoryGroup) -> bool {
    group.root.is_default_with(group.children@)
}

/// The group with the default identity comes first, then the names in their order.
pub open spec fn group_before(a: LocalInventoryGroup, b: LocalInventoryGroup) -> bool {
    if group_default(a) != group_default(b) {
        group_default(a)
    } else {
        text_less(partial_of(a.root.full()), partial_of(b.root.full()))
    }
}

pub open spec fn has_group(groups: Seq<LocalInventoryGroup>, root: Seq<char>) -> bool {
    exists|i: int| 0 <= i < groups.len() && (#[trigger] groups[i]).root.full() == root
}

pub open spec fn belongs_somewhere(s: Seq<LocalIdentitySummary>, root: Seq<char>) -> bool {
    exists|k: int| 0 <= k < s.len() && group_full(#[trigger] s[k]) == root
}

pub open spec fn in_order(groups: Seq<LocalInventoryGroup>) -> bool {
    forall|i: int, j: int| 0 <= i < j < groups.len() ==> group_before(#[trigger] groups[i], #[trigger] groups[j])
}

/// The groups are those of the roots that some identity belongs to, each once and in order.
pub open spec fn is_inventory(
    s: Seq<LocalIdentitySummary>,
    groups: Seq<LocalInventoryGroup>,
) -> bool {
    &&& forall|i: int| 0 <= i < groups.len() ==> is_group(s, #[trigger] groups[i])
    &&& forall|i: int| 0 <= i < groups.len() ==> belongs_somewhere(s, (#[trigger] groups[i]).root.full())
    &&& forall|k: int| 0 <= k < s.len() ==> has_group(groups, group_full(#[trigger] s[k]))
    &&& in_order(groups)
}

pub open spec fn all_wf(s: Seq<LocalIdentitySummary>) -> bool {
    forall|k: int| 0 <= k < s.len() ==> (#[trigger] s[k]).target.wf()
}

fn insert_summary(v: &mut Vec<LocalIdentitySummary>, x: LocalIdentitySummary)
    requires
        all_wf(old(v)@),
        x.target.wf(),
    ensures
        final(v)@ == inserted(old(v)@, x),
        all_wf(final(v)@),
{
    let ghost s = v@;
    let mut at: usize = v.len();
    assert(s.take(at as int) == s);
    assert(s.skip(at as int) == Seq::<LocalIdentitySummary>::empty());
    assert(inserted(s, x) == inserted(s.take(at as int), x) + s.skip(at as int));
    proof {
        wf_name_len(x.target.name);
    }
    while at > 0
        invariant
            v@ == s,
            at <= s.len(),
            all_wf(s),
            x.target.name.full@.len() >= 10,
            inserted(s, x) == inserted(s.take(at as int), x) + s.skip(at as int),
        ensures
            at <= s.len(),
            v@ == s,
            inserted(s, x) == s.take(at as int).push(x) + s.skip(at as int),
        decreases at,
    {
        proof {
            wf_name_len(s[at - 1].target.name);
        }
        assert(s.take(at as int).last() == s[at - 1]);
        if !summary_comes_before(&x, &v[at - 1]) {
            break ;
        }
        assert(s.take(at as int).drop_last() == s.take(at - 1));
        assert(inserted(s.take(at as int), x) + s.skip(at as int) == inserted(s.take(at - 1), x)
            + s.skip(at - 1));
        at -= 1;
    }
    v.insert(at, x);
    assert(v@ == s.take(at as int).push(x) + s.skip(at as int));
    assert forall|k: int| 0 <= k < v@.len() implies (#[trigger] v@[k]).target.wf() by {
        if k < at {
            assert(v@[k] == s[k]);
        } else if k > at {
            assert(v@[k] == s[k - 1]);
        }
    }
}

/// A complete name is what precedes the suffix, and the suffix.
proof fn full_is_partial_and_suffix(name: IdentityName)
    requires
        name.wf(),
    ensures
        name.full@ == name.partial() + ".dhttp.net"@,
        name.full@.len() >= 10,
{
    reveal_strlit(".dhttp.net");
    let full = name.full@;
    assert(full == full.take(full.len() - 10) + full.skip(full.len() - 10));
}

proof fn group_order_total(a: LocalInventoryGroup, b: LocalInventoryGroup)
    requires
        a.root.target().name.wf(),
        b.root.target().name.wf(),
        a.root.full() != b.root.full(),
    ensures
        group_before(a, b) || group_before(b, a),
{
    full_is_partial_and_suffix(a.root.target().name);
    full_is_partial_and_suffix(b.root.target().name);
    text_order_is_total(partial_of(a.root.full()), partial_of(b.root.full()));
}

proof fn group_order_transitive(
    a: LocalInventoryGroup,
    b: LocalInventoryGroup,
    c: LocalInventoryGroup,
)
    requires
        group_before(a, b),
        group_before(b, c),
    ensures
        group_before(a, c),
{
    if group_default(a) == group_default(b) && group_default(b) == group_default(c) {
        text_order_is_transitive(
            partial_of(a.root.full()),
            partial_of(b.root.full()),
            partial_of(c.root.full()),
        );
    }
}

fn group_comes_before(a: &LocalInventoryGroup, b: &LocalInventoryGroup) -> (r: bool)
    requires
        a.root.full().len() >= 10,
        b.root.full().len() >= 10,
    ensures
        r == group_before(*a, *b),
{
    let a_default = a.root.carries_default(&a.children);
    let b_default = b.root.carries_default(&b.children);
    if a_default != b_default {
        a_default
    } else {
        is_less(a.root.short_name(), b.root.short_name())
    }
}

pub open spec fn roots_wf(groups: Seq<LocalInventoryGroup>) -> bool {
    forall|i: int| 0 <= i < groups.len() ==> (#[trigger] groups[i]).root.target().name.wf()
}

fn insert_group(groups: &mut Vec<LocalInventoryGroup>, group: LocalInventoryGroup)
    requires
        in_order(old(groups)@),
        roots_wf(old(groups)@),
        group.root.target().name.wf(),
        !has_group(old(groups)@, group.root.full()),
    ensures
        in_order(final(groups)@),
        roots_wf(final(groups)@),
        exists|at: int|
            0 <= at <= old(groups)@.len() && #[trigger] old(groups)@.insert(at, group)
                == final(groups)@,
{
    let ghost s = groups@;
    let mut at: usize = 0;
    proof {
        full_is_partial_and_suffix(group.root.target().name);
    }
    while at < groups.len()
        invariant
            groups@ == s,
            at <= s.len(),
            roots_wf(s),
            in_order(s),
            group.root.target().name.wf(),
            group.root.full().len() >= 10,
            !has_group(s, group.root.full()),
            forall|k: int| 0 <= k < at ==> group_before(#[trigger] s[k], group),
        ensures
            groups@ == s,
            at <= s.len(),
            forall|k: int| 0 <= k < at ==> group_before(#[trigger] s[k], group),
            forall|k: int| at <= k < s.len() ==> group_before(group, #[trigger] s[k]),
        decreases s.len() - at,
    {
        proof {
            full_is_partial_and_suffix(s[at as int].root.target().name);
            assert(s[at as int].root.full() != group.root.full());
            group_order_total(s[at as int], group);
        }
        if group_comes_before(&group, &groups[at]) {
            proof {
                assert forall|k: int| at <= k < s.len() implies group_before(
                    group,
                    #[trigger] s[k],
                ) by {
                    if k > at {
                        group_order_transitive(group, s[at as int], s[k]);
                    }
                }
            }
            break ;
        }
        at += 1;
    }
    groups.insert(at, group);
    assert(s.insert(at as int, group) == groups@);
    assert forall|i: int, j: int| 0 <= i < j < groups@.len() implies group_before(
        #[trigger] groups@[i],
        #[trigger] groups@[j],
    ) by {
        let a = if i < at {
            s[i]
        } else {
            s[i - 1]
        };
        let b = if j < at {
            s[j]
        } else {
            s[j - 1]
        };
        if i != at {
            assert(groups@[i] == a);
        }
        if j != at {
            assert(groups@[j] == b);
        }
    }
    assert forall|i: int| 0 <= i < groups@.len() implies (
    #[trigger] groups@[i]).root.target().name.wf() by {
        if i < at {
            assert(groups@[i] == s[i]);
        } else if i > at {
            assert(groups@[i] == s[i - 1]);
        }
    }
}

fn group_exists(groups: &Vec<LocalInventoryGroup>, root: &str) -> (r: bool)
    ensures
        r == has_group(groups@, root@),
{
    let mut i: usize = 0;
    while i < groups.len()
        invariant
            i <= groups@.len(),
            forall|j: int| 0 <= j < i ==> (#[trigger] groups@[j]).root.full() != root@,
        decreases groups@.len() - i,
    {
        let full = match &groups[i].root {
            LocalInventoryRoot::Saved(summary) => summary.target.full_name(),
            LocalInventoryRoot::Organization { target } => target.full_name(),
        };
        if same(full, root) {
            assert(groups@[i as int].root.full() == root@);
            return true;
        }
        i += 1;
    }
    false
}

fn build_group(summaries: &Vec<LocalIdentitySummary>, root: IdentityName) -> (r:
    LocalInventoryGroup)
    requires
        all_wf(summaries@),
        root.wf(),
    ensures
        is_group(summaries@, r),
        r.root.full() == root.full@,
        r.root.target().name.wf(),
{
    let mut children: Vec<LocalIdentitySummary> = Vec::new();
    let mut saved: Option<LocalIdentitySummary> = None;
    let mut i: usize = 0;
    while i < summaries.len()
        invariant
            i <= summaries@.len(),
            all_wf(summaries@),
            all_wf(children@),
            children@ == children_of(summaries@.take(i as int), root.full@),
            saved == saved_root(summaries@.take(i as int), root.full@),
            saved matches Some(s) ==> s.target.wf() && s.target.name.full@ == root.full@,
        decreases summaries@.len() - i,
    {
        let summary = &summaries[i];
        let ghost next = summaries@.take(i + 1);
        assert(next.drop_last() == summaries@.take(i as int));
        assert(next.last() == *summary);
        match summary.target.level {
            IdentityLevel::SubIdentity => {
                if let Some(parent) = &summary.target.parent {
                    if same(&parent.full, &root.full) {
                        insert_summary(&mut children, summary.copy());
                    }
                }
            },
            IdentityLevel::Identity => {
                if same(&summary.target.name.full, &root.full) {
                    let keep = match &saved {
                        Some(earlier) => {
                            proof {
                                wf_name_len(earlier.target.name);
                                wf_name_len(summary.target.name);
                            }
                            summary_comes_before(summary, earlier)
                        },
                        None => false,
                    };
                    if !keep {
                        saved = Some(summary.copy());
                    }
                }
            },
        }
        i += 1;
    }
    assert(summaries@.take(summaries@.len() as int) == summaries@);
    let root = match saved {
        Some(summary) => LocalInventoryRoot::Saved(summary),
        None => LocalInventoryRoot::Organization {
            target: IdentityTarget { name: root, level: IdentityLevel::Identity, parent: None },
        },
    };
    LocalInventoryGroup { root, children }
}

/// Groups the saved identities by their roots.
pub fn build_inventory(summaries: Vec<LocalIdentitySummary>) -> (r: LocalInventory)
    requires
        all_wf(summaries@),
    ensures
        is_inventory(summaries@, r.groups@),
        inventory_wf(r.groups@),
{
    let mut groups: Vec<LocalInventoryGroup> = Vec::new();
    let mut i: usize = 0;
    while i < summaries.len()
        invariant
            i <= summaries@.len(),
            all_wf(summaries@),
            in_order(groups@),
            roots_wf(groups@),
            forall|g: int| 0 <= g < groups@.len() ==> is_group(summaries@, #[trigger] groups@[g]),
            forall|g: int|
                0 <= g < groups@.len() ==> belongs_somewhere(
                    summaries@,
                    (#[trigger] groups@[g]).root.full(),
                ),
            forall|k: int| 0 <= k < i ==> has_group(groups@, group_full(#[trigger] summaries@[k])),
        decreases summaries@.len() - i,
    {
        let summary = &summaries[i];
        assert(summaries@[i as int].target.wf());
        let name = match summary.target.level {
            IdentityLevel::Identity => summary.target.name.copy(),
            IdentityLevel::SubIdentity => match &summary.target.parent {
                Some(parent) => parent.copy(),
                None => summary.target.name.copy(),
            },
        };
        let ghost full = group_full(summaries@[i as int]);
        assert(name.full@ == full);
        let ghost s = groups@;
        if !group_exists(&groups, &name.full) {
            let group = build_group(&summaries, name);
            let ghost added = group;
            insert_group(&mut groups, group);
            let ghost at = choose|at: int|
                0 <= at <= s.len() && #[trigger] s.insert(at, added) == groups@;
            assert(groups@[at] == added);
            assert(has_group(groups@, full));
            assert forall|g: int| 0 <= g < groups@.len() implies is_group(
                summaries@,
                #[trigger] groups@[g],
            ) && belongs_somewhere(summaries@, groups@[g].root.full()) by {
                if g < at {
                    assert(groups@[g] == s[g]);
                } else if g > at {
                    assert(groups@[g] == s[g - 1]);
                } else {
                    assert(group_full(summaries@[i as int]) == groups@[g].root.full());
                }
            }
            assert forall|k: int| 0 <= k < i implies has_group(
                groups@,
                group_full(#[trigger] summaries@[k]),
            ) by {
                let g = choose|g: int|
                    0 <= g < s.len() && (#[trigger] s[g]).root.full() == group_full(summaries@[k]);
                if g < at {
                    assert(groups@[g] == s[g]);
                } else {
                    assert(groups@[g + 1] == s[g]);
                }
            }
        }
        i += 1;
    }
    proof {
        assert forall|g: int| 0 <= g < groups@.len() implies group_wf(#[trigger] groups@[g]) by {
            group_of_wf_is_wf(summaries@, groups@[g]);
        }
    }
    LocalInventory { groups }
}

/// No root has two groups.
pub proof fn inventory_has_each_root_once(
    s: Seq<LocalIdentitySummary>,
    groups: Seq<LocalInventoryGroup>,
    i: int,
    j: int,
)
    requires
        is_inventory(s, groups),
        0 <= i < j < groups.len(),
    ensures
        groups[i].root.full() != groups[j].root.full(),
{
    if groups[i].root.full() == groups[j].root.full() {
        assert(is_group(s, groups[i]));
        assert(is_group(s, groups[j]));
        assert(group_before(groups[i], groups[j]));
        let name = partial_of(groups[i].root.full());
        assert(group_default(groups[i]) == group_default(groups[j])) by {
            assert(groups[i].children@ == groups[j].children@);
        }
        text_order_is_strict(name, name);
    }
}

/// At most one identity of the inventory's first group precedes the others by being the
/// default: a group that carries the default comes before every group that does not.
pub proof fn default_group_comes_first(
    s: Seq<LocalIdentitySummary>,
    groups: Seq<LocalInventoryGroup>,
    i: int,
    j: int,
)
    requires
        is_inventory(s, groups),
        0 <= i < groups.len(),
        0 <= j < groups.len(),
        group_default(groups[i]),
        !group_default(groups[j]),
    ensures
        i < j,
{
    if j < i {
        assert(group_before(groups[j], groups[i]));
    }
}

proof fn inserted_keeps_content(s: Seq<LocalIdentitySummary>, x: LocalIdentitySummary)
    ensures
        inserted(s, x).to_multiset() == s.to_multiset().insert(x),
        inserted(s, x).len() == s.len() + 1,
    decreases s.len(),
{
    broadcast use vstd::seq_lib::group_to_multiset_ensures;

    if s.len() > 0 && summary_before(x, s.last()) {
        inserted_keeps_content(s.drop_last(), x);
        assert(s.drop_last().push(s.last()) == s);
        assert(inserted(s.drop_last(), x).push(s.last()).to_multiset() == inserted(
            s.drop_last(),
            x,
        ).to_multiset().insert(s.last()));
        assert(s.to_multiset() == s.drop_last().to_multiset().insert(s.last()));
        assert(s.drop_last().to_multiset().insert(x).insert(s.last())
            =~= s.drop_last().to_multiset().insert(s.last()).insert(x));
    }
}

/// The sub-identities of a root, as they were found.
pub open spec fn sub_identities(s: Seq<LocalIdentitySummary>, root: Seq<char>) -> Seq<
    LocalIdentitySummary,
> {
    s.filter(
        |x: LocalIdentitySummary|
            x.target.level == IdentityLevel::SubIdentity && group_full(x) == root,
    )
}

/// A group loses no sub-identity and makes none up.
pub proof fn children_are_the_sub_identities(s: Seq<LocalIdentitySummary>, root: Seq<char>)
    ensures
        children_of(s, root).to_multiset() == sub_identities(s, root).to_multiset(),
    decreases s.len(),
{
    broadcast use vstd::seq_lib::group_to_multiset_ensures;

    reveal(Seq::filter);
    if s.len() > 0 {
        children_are_the_sub_identities(s.drop_last(), root);
        inserted_keeps_content(children_of(s.drop_last(), root), s.last());
    }
}

/// One identity does not come before another that comes before it, and what comes after an
/// identity comes after what precedes that.
proof fn order_is_weak(
    a: LocalIdentitySummary,
    b: LocalIdentitySummary,
    c: LocalIdentitySummary,
)
    ensures
        summary_before(a, b) ==> !summary_before(b, a),
        summary_before(a, c) ==> summary_before(a, b) || summary_before(b, c),
{
    let (x, y, z) = (a.target.short(), b.target.short(), c.target.short());
    text_order_is_strict(x, y);
    text_order_is_strict(y, x);
    text_order_is_total(x, y);
    text_order_is_total(y, z);
    if text_less(x, z) && text_less(y, x) {
        text_order_is_transitive(y, x, z);
    }
    if text_less(x, y) && text_less(y, x) {
        text_order_is_transitive(x, y, x);
        text_order_is_strict(x, x);
    }
}

/// No identity precedes one that comes before it.
pub open spec fn sorted(s: Seq<LocalIdentitySummary>) -> bool {
    forall|i: int, j: int|
        0 <= i < j < s.len() ==> !summary_before(#[trigger] s[j], #[trigger] s[i])
}

proof fn inserted_stays_sorted(s: Seq<LocalIdentitySummary>, x: LocalIdentitySummary)
    requires
        sorted(s),
    ensures
        sorted(inserted(s, x)),
        forall|i: int|
            0 <= i < inserted(s, x).len() ==> #[trigger] inserted(s, x)[i] == x || s.contains(
                inserted(s, x)[i],
            ),
    decreases s.len(),
{
    let r = inserted(s, x);
    if s.len() > 0 && summary_before(x, s.last()) {
        let rest = s.drop_last();
        inserted_stays_sorted(rest, x);
        let before = inserted(rest, x);
        inserted_keeps_content(rest, x);
        assert forall|i: int| 0 <= i < r.len() implies #[trigger] r[i] == x || s.contains(r[i]) by {
            if i < before.len() {
                assert(r[i] == before[i]);
                if before[i] != x {
                    let k = choose|k: int| 0 <= k < rest.len() && rest[k] == before[i];
                    assert(s[k] == before[i]);
                }
            } else {
                assert(r[i] == s[s.len() - 1]);
            }
        }
        assert forall|i: int, j: int| 0 <= i < j < r.len() implies !summary_before(
            #[trigger] r[j],
            #[trigger] r[i],
        ) by {
            if j < before.len() {
                assert(r[i] == before[i] && r[j] == before[j]);
            } else {
                assert(r[j] == s.last() && r[i] == before[i]);
                if before[i] == x {
                    order_is_weak(x, s.last(), x);
                } else {
                    let k = choose|k: int| 0 <= k < rest.len() && rest[k] == before[i];
                    assert(s[k] == before[i] && s[s.len() - 1] == s.last());
                }
            }
        }
    } else {
        assert forall|i: int, j: int| 0 <= i < j < r.len() implies !summary_before(
            #[trigger] r[j],
            #[trigger] r[i],
        ) by {
            if j == s.len() {
                assert(r[j] == x && r[i] == s[i]);
                order_is_weak(x, s.last(), s[i]);
                if i < s.len() - 1 {
                    assert(!summary_before(s[s.len() - 1], s[i]));
                }
            } else {
                assert(r[j] == s[j] && r[i] == s[i]);
            }
        }
        assert forall|i: int| 0 <= i < r.len() implies #[trigger] r[i] == x || s.contains(r[i]) by {
            if i < s.len() {
                assert(r[i] == s[i]);
            }
        }
    }
}

/// The sub-identities of a group stand in order, and each is one of those that were found.
pub proof fn children_are_sorted(s: Seq<LocalIdentitySummary>, root: Seq<char>)
    ensures
        sorted(children_of(s, root)),
        forall|i: int|
            0 <= i < children_of(s, root).len() ==> s.contains(#[trigger] children_of(s, root)[i]),
    decreases s.len(),
{
    if s.len() > 0 {
        let rest = s.drop_last();
        let before = children_of(rest, root);
        children_are_sorted(rest, root);
        inserted_stays_sorted(before, s.last());
        let r = children_of(s, root);
        assert forall|i: int| 0 <= i < r.len() implies s.contains(#[trigger] r[i]) by {
            if r[i] == s.last() {
                assert(s[s.len() - 1] == r[i]);
            } else {
                assert(before.contains(r[i]));
                let k = choose|k: int| 0 <= k < before.len() && before[k] == r[i];
                assert(rest.contains(before[k]));
                let m = choose|m: int| 0 <= m < rest.len() && rest[m] == r[i];
                assert(s[m] == r[i]);
            }
        }
    }
}

proof fn saved_root_was_found(s: Seq<LocalIdentitySummary>, root: Seq<char>)
    ensures
        saved_root(s, root) matches Some(summary) ==> s.contains(summary),
    decreases s.len(),
{
    if s.len() > 0 {
        let rest = s.drop_last();
        saved_root_was_found(rest, root);
        assert(s[s.len() - 1] == s.last());
        match saved_root(rest, root) {
            Some(summary) => {
                let k = choose|k: int| 0 <= k < rest.len() && rest[k] == summary;
                assert(s[k] == summary);
            },
            None => {},
        }
    }
}

/// Every identity of a group has a well-formed name.
pub open spec fn group_wf(group: LocalInventoryGroup) -> bool {
    &&& group.root.target().name.wf()
    &&& (group.root matches LocalInventoryRoot::Saved(summary) ==> summary.target.wf())
    &&& all_wf(group.children@)
}

pub open spec fn inventory_wf(groups: Seq<LocalInventoryGroup>) -> bool {
    forall|i: int| 0 <= i < groups.len() ==> group_wf(#[trigger] groups[i])
}

proof fn group_of_wf_is_wf(s: Seq<LocalIdentitySummary>, group: LocalInventoryGroup)
    requires
        all_wf(s),
        is_group(s, group),
        group.root.target().name.wf(),
    ensures
        group_wf(group),
{
    let root = group.root.full();
    children_are_sorted(s, root);
    saved_root_was_found(s, root);
    let children = group.children@;
    assert forall|k: int| 0 <= k < children.len() implies (#[trigger] children[k]).target.wf() by {
        assert(s.contains(children_of(s, root)[k]));
    }
}

/// A choice that a command offers.
#[derive(Debug, PartialEq, Eq)]
pub enum InteractiveInventoryChoice {
    Saved(LocalIdentitySummary),
    Organization { target: IdentityTarget },
    EnterAnotherIdentity,
}

pub open spec fn root_choice(root: LocalInventoryRoot) -> InteractiveInventoryChoice {
    match root {
        LocalInventoryRoot::Saved(summary) => InteractiveInventoryChoice::Saved(summary),
        LocalInventoryRoot::Organization { target } => InteractiveInventoryChoice::Organization {
            target,
        },
    }
}

/// The identities of a group as choices: the root, then its sub-identities.
pub open spec fn group_choices(group: LocalInventoryGroup) -> Seq<InteractiveInventoryChoice> {
    seq![root_choice(group.root)] + group.children@.map_values(
        |summary: LocalIdentitySummary| InteractiveInventoryChoice::Saved(summary),
    )
}

/// The identities of all groups as choices.
pub open spec fn choices_of(groups: Seq<LocalInventoryGroup>) -> Seq<InteractiveInventoryChoice>
    decreases groups.len(),
{
    if groups.len() == 0 {
        Seq::<InteractiveInventoryChoice>::empty()
    } else {
        choices_of(groups.drop_last()) + group_choices(groups.last())
    }
}

fn inventory_choices(inventory: &LocalInventory) -> (r: Vec<InteractiveInventoryChoice>)
    ensures
        r@ == choices_of(inventory.groups@),
{
    let mut choices: Vec<InteractiveInventoryChoice> = Vec::new();
    let groups = &inventory.groups;
    let mut g: usize = 0;
    while g < groups.len()
        invariant
            g <= groups@.len(),
            choices@ == choices_of(groups@.take(g as int)),
        decreases groups@.len() - g,
    {
        let group = &groups[g];
        let ghost before = choices@;
        let root = match &group.root {
            LocalInventoryRoot::Saved(summary) => InteractiveInventoryChoice::Saved(summary.copy()),
            LocalInventoryRoot::Organization { target } => {
                InteractiveInventoryChoice::Organization { target: target.copy() }
            },
        };
        choices.push(root);
        let children = &group.children;
        let ghost mapped = children@.map_values(
            |summary: LocalIdentitySummary| InteractiveInventoryChoice::Saved(summary),
        );
        assert(choices@ == before + seq![root_choice(group.root)] + mapped.take(0));
        let mut c: usize = 0;
        while c < children.len()
            invariant
                c <= children@.len(),
                mapped == children@.map_values(
                    |summary: LocalIdentitySummary| InteractiveInventoryChoice::Saved(summary),
                ),
                choices@ == before + seq![root_choice(group.root)] + mapped.take(c as int),
            decreases children@.len() - c,
        {
            choices.push(InteractiveInventoryChoice::Saved(children[c].copy()));
            assert(mapped.take(c + 1) == mapped.take(c as int).push(mapped[c as int]));
            c += 1;
        }
        assert(mapped.take(c as int) == mapped);
        assert(groups@.take(g + 1).drop_last() == groups@.take(g as int));
        assert(groups@.take(g + 1).last() == *group);
        assert(choices@ == before + group_choices(*group));
        g += 1;
    }
    assert(groups@.take(groups@.len() as int) == groups@);
    choices
}

/// The choices of the apply command: all identities, and to enter another name.
pub fn build_apply_inventory_choices(inventory: &LocalInventory) -> (r: Vec<
    InteractiveInventoryChoice,
>)
    ensures
        r@ == choices_of(inventory.groups@).push(InteractiveInventoryChoice::EnterAnotherIdentity),
{
    let mut choices = inventory_choices(inventory);
    choices.push(InteractiveInventoryChoice::EnterAnotherIdentity);
    choices
}

/// The choices of the renew command: all identities.
pub fn build_renew_inventory_choices(inventory: &LocalInventory) -> (r: Vec<
    InteractiveInventoryChoice,
>)
    ensures
        r@ == choices_of(inventory.groups@),
{
    inventory_choices(inventory)
}

/// The choices of the default command: all identities.
pub fn build_default_inventory_choices(inventory: &LocalInventory) -> (r: Vec<
    InteractiveInventoryChoice,
>)
    ensures
        r@ == choices_of(inventory.groups@),
{
    inventory_choices(inventory)
}

/// An identity is ready where its certificate and its key are there, its chain is named and its
/// expiry lies ahead; it has expired where all that holds but for the expiry. What is missing
/// makes it incomplete, the certificate before the key; everything else makes it invalid.
pub proof fn statuses_go_by_the_material(
    assessment: LocalIdentityAssessment,
    now: i64,
    status: LocalIdentityStatus,
)
    requires
        status_of(assessment, now, status),
    ensures
        ({
            let whole = assessment.certificate is Present && assessment.private_key is Present
                && assessment.certificate_chain is Some;
            &&& (status is Ready <==> whole && (assessment.expires_at matches Some(at) && now < at))
            &&& (status is Expired <==> whole && (assessment.expires_at matches Some(at) && at
                <= now))
            &&& (status matches LocalIdentityStatus::Ready { expires_at } ==> assessment.expires_at
                == Some(expires_at))
            &&& (status matches LocalIdentityStatus::Expired { expired_at }
                ==> assessment.expires_at == Some(expired_at))
            &&& (status is Incomplete <==> assessment.certificate is Missing || (
            assessment.certificate is Present && assessment.private_key is Missing))
            &&& (status matches LocalIdentityStatus::Incomplete { detail } ==> (
            assessment.certificate matches LocalIdentityMaterialState::Missing(missing)
                ==> detail@ == missing@))
        }),
{
}

/// What a ready identity was read from: certificates whose first one could be read and names its
/// chain, and a key that fits them. What it says of its chain is what that certificate says.
pub proof fn ready_identities_fit_their_key(
    material: ProfileMaterial,
    assessment: LocalIdentityAssessment,
    now: i64,
    status: LocalIdentityStatus,
)
    requires
        assessed(material, assessment),
        status_of(assessment, now, status),
        status is Ready || status is Expired,
    ensures
        material.key is Ok,
        material.certs matches Ok(certs) && certs@.len() > 0 && (x509_fields(
            certs@[0]@,
        ) matches Some(fields) && assessment.expires_at == Some(fields.2)) && (leaf_metadata(
            certs@[0]@,
        ) matches Some(metadata) && assessment.sequence == Some(metadata.0) && (assessment.usage
            == Some(IdentityUsage::ClientOnly) <==> metadata.1) && assessment.usage is Some
            && opt_view(assessment.certificate_chain) == Some(metadata.3)),
        material.cert_pem matches Some(pem) ==> key_matches_pem(material.key->Ok_0@, pem@) == Ok::<
            bool,
            crate::local_identity::Error,
        >(true),
{
}

/// What is not there is told apart from what cannot be read.
pub proof fn missing_files_are_told(
    material: ProfileMaterial,
    assessment: LocalIdentityAssessment,
    now: i64,
    status: LocalIdentityStatus,
)
    requires
        assessed(material, assessment),
        status_of(assessment, now, status),
    ensures
        material.certs == Err::<Vec<Vec<u8>>, LoadFailure>(LoadFailure::NotFound) ==> (
        status matches LocalIdentityStatus::Incomplete { detail } && detail@
            == "certificate missing"@),
        material.certs == Err::<Vec<Vec<u8>>, LoadFailure>(LoadFailure::Unreadable) ==> (
        status matches LocalIdentityStatus::Invalid { detail } && detail@
            == "certificate is unreadable"@),
        material.certs matches Ok(certs) ==> certs@.len() == 0 ==> (
        status matches LocalIdentityStatus::Invalid { detail } && detail@
            == "certificate chain is empty"@),
        material.certs matches Ok(certs) ==> assessment.certificate is Present ==> material.key
            == Err::<Vec<u8>, LoadFailure>(LoadFailure::NotFound) ==> (
        status matches LocalIdentityStatus::Incomplete { detail } && detail@
            == "private key missing"@),
        material.certs matches Ok(certs) ==> assessment.certificate is Present ==> material.key
            == Err::<Vec<u8>, LoadFailure>(LoadFailure::Unreadable) ==> (
        status matches LocalIdentityStatus::Invalid { detail } && detail@
            == "private key is invalid"@),
{
}

/// Every group is offered with its root first and its sub-identities behind it, in order.
pub proof fn groups_are_offered_root_first(
    groups: Seq<LocalInventoryGroup>,
    group: LocalInventoryGroup,
    i: int,
)
    ensures
        ({
            let before = choices_of(groups);
            let all = choices_of(groups.push(group));
            &&& all.len() == before.len() + 1 + group.children@.len()
            &&& all.take(before.len() as int) == before
            &&& (group.root matches LocalInventoryRoot::Saved(summary) ==> all[before.len() as int]
                == InteractiveInventoryChoice::Saved(summary))
            &&& (group.root matches LocalInventoryRoot::Organization { target } ==> all[
            before.len() as int] == (InteractiveInventoryChoice::Organization { target }))
            &&& (0 <= i < group.children@.len() ==> all[before.len() + 1 + i]
                == InteractiveInventoryChoice::Saved(group.children@[i]))
        }),
        choices_of(Seq::<LocalInventoryGroup>::empty()) == Seq::<
            InteractiveInventoryChoice,
        >::empty(),
{
    let all = groups.push(group);
    assert(all.drop_last() =~= groups);
    assert(choices_of(all).take(choices_of(groups).len() as int) =~= choices_of(groups));
}

/// The root of a group is a saved identity of that name, wherever one is saved.
pub proof fn saved_roots_are_found(s: Seq<LocalIdentitySummary>, root: Seq<char>)
    ensures
        saved_root(s, root) matches Some(summary) ==> s.contains(summary) && summary.target.level
            == IdentityLevel::Identity && summary.target.name.full@ == root,
        (exists|k: int|
            0 <= k < s.len() && (#[trigger] s[k]).target.level == IdentityLevel::Identity
                && s[k].target.name.full@ == root) ==> saved_root(s, root) is Some,
    decreases s.len(),
{
    if s.len() > 0 {
        let front = s.drop_last();
        saved_roots_are_found(front, root);
        if let Some(earlier) = saved_root(front, root) {
            let k = choose|k: int| 0 <= k < front.len() && front[k] == earlier;
            assert(s[k] == earlier);
        }
        assert(s[s.len() - 1] == s.last());
        if exists|k: int|
            0 <= k < s.len() && (#[trigger] s[k]).target.level == IdentityLevel::Identity
                && s[k].target.name.full@ == root {
            let k = choose|k: int|
                0 <= k < s.len() && (#[trigger] s[k]).target.level == IdentityLevel::Identity
                    && s[k].target.name.full@ == root;
            if k < front.len() {
                assert(front[k] == s[k]);
            }
        }
    }
}

/// What is wrong with certificates is told in this order: there is none, the first one cannot be
/// read, it does not name its chain, the key does not fit.
pub proof fn faults_of_certificates_come_in_order(
    certs: Seq<Vec<u8>>,
    mismatch: bool,
    expiry: Option<i64>,
    metadata: Option<(u32, bool, Seq<char>, Seq<char>)>,
)
    ensures
        ({
            let fault = certificate_fault(certs, mismatch, expiry, metadata);
            &&& (certs.len() == 0 ==> fault == Some("certificate chain is empty"@))
            &&& (certs.len() > 0 && expiry is None ==> fault == Some("certificate is unreadable"@))
            &&& (certs.len() > 0 && expiry is Some && metadata is None ==> fault == Some(
                "certificate chain metadata is invalid"@,
            ))
            &&& (certs.len() > 0 && expiry is Some && metadata is Some && mismatch ==> fault
                == Some("certificate does not match local key"@))
            &&& (fault is None <==> certs.len() > 0 && expiry is Some && metadata is Some
                && !mismatch)
        }),
{
}

/// A key counts as unfit only where it and the certificate are both there and do not fit.
pub proof fn only_compared_keys_are_unfit(material: ProfileMaterial)
    ensures
        material.key is Err || material.cert_pem is None ==> !key_mismatch(material),
        material.key is Ok && material.cert_pem is Some ==> (key_mismatch(material)
            <==> key_matches_pem(material.key->Ok_0@, material.cert_pem->0@) != Ok::<
            bool,
            crate::local_identity::Error,
        >(true)),
{
}

/// What cannot be read is told as such.
pub proof fn unreadable_material_is_invalid(
    assessment: LocalIdentityAssessment,
    now: i64,
    status: LocalIdentityStatus,
)
    requires
        status_of(assessment, now, status),
    ensures
        assessment.certificate matches LocalIdentityMaterialState::Invalid(why) ==> (
        status matches LocalIdentityStatus::Invalid { detail } && detail@ == why@),
        assessment.certificate is Present ==> (
        assessment.private_key matches LocalIdentityMaterialState::Invalid(why) ==> (
        status matches LocalIdentityStatus::Invalid { detail } && detail@ == why@)),
        assessment.certificate is Present ==> (
        assessment.private_key matches LocalIdentityMaterialState::Missing(why) ==> (
        status matches LocalIdentityStatus::Incomplete { detail } && detail@ == why@)),
        assessment.certificate is Present && assessment.private_key is Present
            && assessment.certificate_chain is None ==> (
        status matches LocalIdentityStatus::Invalid { detail } && detail@
            == "certificate chain metadata is invalid"@),
        assessment.certificate is Present && assessment.private_key is Present
            && assessment.certificate_chain is Some && assessment.expires_at is None ==> (
        status matches LocalIdentityStatus::Invalid { detail } && detail@
            == "certificate expiry is unavailable"@),
{
}

/// Every saved identity has its group, and every group has an identity that belongs to it.
pub proof fn identities_belong_to_groups(
    s: Seq<LocalIdentitySummary>,
    groups: Seq<LocalInventoryGroup>,
    k: int,
    i: int,
)
    requires
        is_inventory(s, groups),
    ensures
        0 <= k < s.len() ==> exists|g: int|
            0 <= g < groups.len() && (#[trigger] groups[g]).root.full() == (
            if s[k].target.level == IdentityLevel::SubIdentity {
                s[k].target.parent->0.full@
            } else {
                s[k].target.name.full@
            }),
        0 <= i < groups.len() ==> exists|j: int|
            0 <= j < s.len() && groups[i].root.full() == (if (#[trigger] s[j]).target.level
                == IdentityLevel::SubIdentity {
                s[j].target.parent->0.full@
            } else {
                s[j].target.name.full@
            }),
        0 <= i < groups.len() ==> (groups[i].root matches LocalInventoryRoot::Saved(summary)
            ==> s.contains(summary)),
{
    if 0 <= k < s.len() {
        assert(has_group(groups, group_full(s[k])));
    }
    if 0 <= i < groups.len() {
        assert(belongs_somewhere(s, groups[i].root.full()));
        let j = choose|j: int|
            0 <= j < s.len() && group_full(#[trigger] s[j]) == groups[i].root.full();
        assert(group_full(s[j]) == groups[i].root.full());
        assert(is_group(s, groups[i]));
        saved_roots_are_found(s, groups[i].root.full());
    }
}

/// Without certificates nothing is known of the chain.
pub proof fn nothing_is_known_without_certificates(
    material: ProfileMaterial,
    assessment: LocalIdentityAssessment,
)
    requires
        assessed(material, assessment),
        material.certs is Err || material.certs->Ok_0@.len() == 0,
    ensures
        assessment.certificate_chain is None,
        assessment.usage is None,
        assessment.sequence is None,
        assessment.expires_at is None,
        !(assessment.certificate is Present),
{
}

} // verus!
