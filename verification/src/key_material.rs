//! Key material: generated once and kept across retries, and for renewals kept on disk until
//! the renewed certificate is installed.
use vstd::prelude::*;

use crate::target::IdentityName;
use crate::text::{chars_of, opt_view, same};

verus! {

/// Calls `rankey::generate_secp384r1_key`. The key is random; nothing is claimed of it. The call
/// panics where the random source of the system fails; no argument decides that.
#[verifier::external_body]
pub(crate) fn generate_key() -> (r: Result<String, String>) {
    rankey::generate_secp384r1_key().map(|key| key.to_string()).map_err(|error| error.to_string())
}

/// The certificate request in PEM for a common name in a country and an alternative name, signed
/// with a private key in PEM; `None` where the text is no such key or a name cannot stand in a
/// request.
pub uninterp spec fn certificate_request(
    key_pem: Seq<char>,
    country: Seq<char>,
    common_name: Seq<char>,
    alternative_name: Seq<char>,
) -> Option<Seq<char>>;

/// Calls `rankey::generate_csr` with one alternative name and encodes the request with `to_pem`.
/// The signature is made without randomness, so that the request is a function of the
/// arguments; the name `certificate_request` stands for it. Nothing is claimed of the message of
/// a failure.
#[verifier::external_body]
pub(crate) fn generate_csr(
    key_pem: &str,
    country: &str,
    common_name: &str,
    alternative_name: &str,
) -> (r: Result<String, String>)
    ensures
        match r {
            Ok(request) => certificate_request(
                key_pem@,
                country@,
                common_name@,
                alternative_name@,
            ) == Some(request@),
            Err(_) => certificate_request(
                key_pem@,
                country@,
                common_name@,
                alternative_name@,
            ) is None,
        },
{
    let request = rankey::generate_csr(key_pem, country, common_name, &[alternative_name]);
    let request = request.map_err(|error| error.to_string())?;
    rankey::EncodePem::to_pem(&request, rankey::LineEnding::LF).map_err(|error| error.to_string())
}

/// Why key material is not there.
#[derive(Debug, PartialEq, Eq)]
pub enum KeyMaterialError {
    GenerateKey(String),
    GenerateCsr(String),
}

impl KeyMaterialError {
    pub open spec fn words(self) -> Seq<char> {
        match self {
            KeyMaterialError::GenerateKey(_) => "failed to generate private key"@,
            KeyMaterialError::GenerateCsr(_) => "failed to generate CSR"@,
        }
    }

    pub fn to_text(&self) -> (r: String)
        ensures
            r@ == self.words(),
    {
        match self {
            KeyMaterialError::GenerateKey(_) => "failed to generate private key".to_owned(),
            KeyMaterialError::GenerateCsr(_) => "failed to generate CSR".to_owned(),
        }
    }
}

/// What has to be generated next.
#[derive(Debug, Clone, Copy, PartialEq, Eq, Structural)]
pub enum MissingMaterial {
    Key,
    Csr,
}

/// One run of a generator, and what it made where it succeeded.
pub enum GeneratorRun {
    Key { made: Option<Seq<char>> },
    Csr { key_pem: Seq<char>, full_name: Seq<char>, made: Option<Seq<char>> },
}

/// The text that was made, where something was.
pub open spec fn made_text(result: Result<String, String>) -> Option<Seq<char>> {
    match result {
        Ok(text) => Some(text@),
        Err(_) => None,
    }
}

/// What makes keys and certificate requests.
pub trait KeyMaterialGenerator: Sized {
    /// The runs so far. A generator has to tell its own: this body is one fixed value, which
    /// cannot grow as the methods promise.
    open spec fn runs(&self) -> Seq<GeneratorRun> {
        arbitrary()
    }

    /// Whether a request can come of a key and a name; any, unless a generator says more.
    open spec fn makes(
        key_pem: Seq<char>,
        full_name: Seq<char>,
        made: Option<Seq<char>>,
    ) -> bool {
        true
    }

    fn generate_key(&mut self) -> (r: Result<String, String>)
        ensures
            final(self).runs() == old(self).runs().push(GeneratorRun::Key { made: made_text(r) }),
    ;

    fn generate_csr(&mut self, key_pem: &str, full_name: &str) -> (r: Result<String, String>)
        ensures
            final(self).runs() == old(self).runs().push(
                GeneratorRun::Csr {
                    key_pem: key_pem@,
                    full_name: full_name@,
                    made: made_text(r),
                },
            ),
            Self::makes(key_pem@, full_name@, made_text(r)),
    ;
}

/// The generator of the tools: P-384 keys, and requests for one name in China.
pub struct RankeyGenerator {
    pub log: Ghost<Seq<GeneratorRun>>,
}

impl RankeyGenerator {
    /// A generator that has not run.
    pub fn new() -> (r: Self)
        ensures
            r.runs() == Seq::<GeneratorRun>::empty(),
    {
        RankeyGenerator { log: Ghost(Seq::empty()) }
    }
}

impl KeyMaterialGenerator for RankeyGenerator {
    open spec fn runs(&self) -> Seq<GeneratorRun> {
        self.log@
    }

    open spec fn makes(
        key_pem: Seq<char>,
        full_name: Seq<char>,
        made: Option<Seq<char>>,
    ) -> bool {
        made == certificate_request(key_pem, "CN"@, full_name, full_name)
    }

    fn generate_key(&mut self) -> (r: Result<String, String>) {
        let r = generate_key();
        self.log = Ghost(self.log@.push(GeneratorRun::Key { made: made_text(r) }));
        r
    }

    fn generate_csr(&mut self, key_pem: &str, full_name: &str) -> (r: Result<String, String>) {
        let r = generate_csr(key_pem, "CN", full_name, full_name);
        self.log = Ghost(
            self.log@.push(
                GeneratorRun::Csr {
                    key_pem: key_pem@,
                    full_name: full_name@,
                    made: made_text(r),
                },
            ),
        );
        r
    }
}

/// The key and the request that come of some runs: the first of each.
pub open spec fn kept_of(runs: Seq<GeneratorRun>) -> (Option<Seq<char>>, Option<Seq<char>>)
    decreases runs.len(),
{
    if runs.len() == 0 {
        (None, None)
    } else {
        let (key, csr) = kept_of(runs.drop_last());
        match runs.last() {
            GeneratorRun::Key { made } => (if key is Some {
                key
            } else {
                made
            }, csr),
            GeneratorRun::Csr { made, .. } => (key, if csr is Some {
                csr
            } else {
                made
            }),
        }
    }
}

/// Runs that generate nothing twice: a key only where there is none, and a request only for the
/// key that there is and for the name, and only where there is none.
pub open spec fn orderly(runs: Seq<GeneratorRun>, name: Seq<char>) -> bool
    decreases runs.len(),
{
    runs.len() > 0 ==> {
        let (key, csr) = kept_of(runs.drop_last());
        &&& orderly(runs.drop_last(), name)
        &&& match runs.last() {
            GeneratorRun::Key { .. } => key is None && csr is None,
            GeneratorRun::Csr { key_pem, full_name, .. } => key == Some(key_pem) && csr is None
                && full_name == name,
        }
    }
}

/// What came of the first runs stays.
proof fn kept_stays(runs: Seq<GeneratorRun>, n: int)
    requires
        0 <= n <= runs.len(),
    ensures
        kept_of(runs.take(n)).0 is Some ==> kept_of(runs).0 == kept_of(runs.take(n)).0,
        kept_of(runs.take(n)).1 is Some ==> kept_of(runs).1 == kept_of(runs.take(n)).1,
    decreases runs.len(),
{
    if n < runs.len() {
        kept_stays(runs.drop_last(), n);
        assert(runs.drop_last().take(n) =~= runs.take(n));
    } else {
        assert(runs.take(n) =~= runs);
    }
}

proof fn orderly_at(runs: Seq<GeneratorRun>, name: Seq<char>, n: int)
    requires
        orderly(runs, name),
        0 <= n < runs.len(),
    ensures
        match runs[n] {
            GeneratorRun::Key { .. } => kept_of(runs.take(n)) == (
                None::<Seq<char>>,
                None::<Seq<char>>,
            ),
            GeneratorRun::Csr { key_pem, full_name, .. } => kept_of(runs.take(n)) == (
                Some(key_pem),
                None::<Seq<char>>,
            ) && full_name == name,
        },
    decreases runs.len(),
{
    if n == runs.len() - 1 {
        assert(runs.take(n) =~= runs.drop_last());
    } else {
        orderly_at(runs.drop_last(), name, n);
        assert(runs.drop_last().take(n) =~= runs.take(n));
    }
}

/// A generator that has made a key makes no other, one that has made a request runs no more,
/// and requests are made for the kept key and for the name alone.
pub proof fn generators_succeed_once(runs: Seq<GeneratorRun>, name: Seq<char>, i: int, j: int)
    requires
        orderly(runs, name),
        0 <= i < j < runs.len(),
    ensures
        runs[i] matches GeneratorRun::Key { made: Some(key) } ==> kept_of(runs).0 == Some(key) && (
        runs[j] matches GeneratorRun::Csr { key_pem, .. } && key_pem == key),
        !(runs[i] matches GeneratorRun::Csr { made: Some(_), .. }),
        runs[j] matches GeneratorRun::Csr { key_pem, full_name, .. } ==> kept_of(runs).0 == Some(
            key_pem,
        ) && full_name == name,
{
    orderly_at(runs, name, i);
    orderly_at(runs, name, j);
    let first = runs.take(i + 1);
    let second = runs.take(j);
    assert(first.drop_last() =~= runs.take(i));
    assert(first.last() == runs[i]);
    assert(second.take(i + 1) =~= first);
    kept_stays(second, i + 1);
    kept_stays(runs, j);
}

/// A key and a certificate request for a name, each generated when it is first needed.
pub struct LazyKeyMaterial<G: KeyMaterialGenerator> {
    pub name: IdentityName,
    pub generator: G,
    pub key: Option<String>,
    pub csr: Option<String>,
}

/// The runs that a request for the key adds.
pub open spec fn key_runs(
    key: Option<String>,
    result: Result<String, KeyMaterialError>,
) -> Seq<GeneratorRun> {
    if key is Some {
        Seq::empty()
    } else {
        seq![
            GeneratorRun::Key {
                made: match result {
                    Ok(made) => Some(made@),
                    Err(_) => None,
                },
            },
        ]
    }
}

impl<G: KeyMaterialGenerator> LazyKeyMaterial<G> {
    /// A request is only there together with the key that it was made for.
    pub open spec fn wf(self) -> bool {
        self.csr is Some ==> self.key is Some
    }

    /// The material is what the generator made, and the generator made nothing twice.
    pub open spec fn orderly(self) -> bool {
        &&& orderly(self.generator.runs(), self.name.full@)
        &&& kept_of(self.generator.runs()) == (opt_view(self.key), opt_view(self.csr))
    }

    /// What a request for the material would have to generate first.
    pub open spec fn lacks(self) -> Option<MissingMaterial> {
        if self.key is None {
            Some(MissingMaterial::Key)
        } else if self.csr is None {
            Some(MissingMaterial::Csr)
        } else {
            None
        }
    }

    /// Nothing is generated yet.
    pub fn new(name: IdentityName, generator: G) -> (r: Self)
        ensures
            r.wf(),
            r.name == name,
            r.generator == generator,
            r.key is None,
            r.csr is None,
            generator.runs().len() == 0 ==> r.orderly(),
    {
        LazyKeyMaterial { name, generator, key: None, csr: None }
    }

    /// What has to be generated next.
    pub fn missing(&self) -> (r: Option<MissingMaterial>)
        ensures
            r == self.lacks(),
    {
        if self.key.is_none() {
            Some(MissingMaterial::Key)
        } else if self.csr.is_none() {
            Some(MissingMaterial::Csr)
        } else {
            None
        }
    }

    /// Keeps a key, unless there is one.
    pub fn store_key(&mut self, key_pem: String)
        requires
            old(self).wf(),
        ensures
            final(self).wf(),
            final(self).name == old(self).name,
            final(self).generator == old(self).generator,
            final(self).csr == old(self).csr,
            final(self).key == (match old(self).key {
                Some(key) => Some(key),
                None => Some(key_pem),
            }),
    {
        if self.key.is_none() {
            self.key = Some(key_pem);
        }
    }

    /// Keeps a request, unless there is one or there is no key that it could belong to.
    pub fn store_csr(&mut self, csr_pem: String)
        requires
            old(self).wf(),
        ensures
            final(self).wf(),
            final(self).name == old(self).name,
            final(self).generator == old(self).generator,
            final(self).key == old(self).key,
            final(self).csr == (if old(self).lacks() == Some(MissingMaterial::Csr) {
                Some(csr_pem)
            } else {
                old(self).csr
            }),
    {
        if self.key.is_some() && self.csr.is_none() {
            self.csr = Some(csr_pem);
        }
    }

    /// The key, generated where there is none. The generator runs once then, and not at all
    /// otherwise.
    pub fn ensure_key(&mut self) -> (r: Result<String, KeyMaterialError>)
        requires
            old(self).wf(),
        ensures
            final(self).wf(),
            final(self).name == old(self).name,
            final(self).csr == old(self).csr,
            final(self).generator.runs() == old(self).generator.runs() + key_runs(old(self).key, r),
            old(self).key is Some ==> *final(self) == *old(self) && r == Ok::<
                String,
                KeyMaterialError,
            >(old(self).key->0),
            r matches Ok(key) ==> final(self).key == Some(key),
            r is Err ==> final(self).key is None && r->Err_0 is GenerateKey,
            old(self).orderly() ==> final(self).orderly(),
    {
        let ghost before = self.generator.runs();
        match &self.key {
            Some(key) => {
                let key = key.clone();
                assert(self.generator.runs() =~= before + Seq::<GeneratorRun>::empty());
                Ok(key)
            },
            None => match self.generator.generate_key() {
                Ok(key) => {
                    assert(self.generator.runs().drop_last() =~= before);
                    self.store_key(key.clone());
                    assert(self.generator.runs() =~= before + seq![
                        GeneratorRun::Key { made: Some(key@) },
                    ]);
                    Ok(key)
                },
                Err(error) => {
                    assert(self.generator.runs().drop_last() =~= before);
                    assert(self.generator.runs() =~= before + seq![
                        GeneratorRun::Key { made: None },
                    ]);
                    Err(KeyMaterialError::GenerateKey(error))
                },
            },
        }
    }

    /// The runs that a request for the certificate request adds, where the key is this one
    /// afterwards.
    pub open spec fn csr_runs(
        self,
        key: Option<String>,
        result: Result<String, KeyMaterialError>,
    ) -> Seq<GeneratorRun> {
        let made = match result {
            Ok(made) => Some(made@),
            Err(_) => None,
        };
        match key {
            None => seq![GeneratorRun::Key { made: None }],
            Some(key) => (if self.key is Some {
                Seq::empty()
            } else {
                seq![GeneratorRun::Key { made: Some(key@) }]
            }) + (if self.csr is Some {
                Seq::empty()
            } else {
                seq![GeneratorRun::Csr { key_pem: key@, full_name: self.name.full@, made }]
            }),
        }
    }

    /// The request, generated where there is none, after the key. It is for the name alone.
    pub fn csr_pem(&mut self) -> (r: Result<String, KeyMaterialError>)
        requires
            old(self).wf(),
        ensures
            final(self).wf(),
            final(self).name == old(self).name,
            final(self).generator.runs() == old(self).generator.runs() + old(self).csr_runs(
                final(self).key,
                r,
            ),
            old(self).key is Some ==> final(self).key == old(self).key,
            old(self).lacks() is None ==> *final(self) == *old(self) && r == Ok::<
                String,
                KeyMaterialError,
            >(old(self).csr->0),
            r matches Ok(csr) ==> final(self).csr == Some(csr) && final(self).key is Some,
            r is Err ==> final(self).csr is None && old(self).csr is None,
            old(self).csr is None && final(self).key is Some ==> match r {
                Ok(csr) => G::makes(final(self).key->0@, old(self).name.full@, Some(csr@)),
                Err(error) => error is GenerateCsr && G::makes(
                    final(self).key->0@,
                    old(self).name.full@,
                    None,
                ),
            },
            final(self).key is None ==> r matches Err(KeyMaterialError::GenerateKey(_)),
            old(self).orderly() ==> final(self).orderly(),
    {
        let ghost before = self.generator.runs();
        let ghost start = *self;
        let key = match self.ensure_key() {
            Ok(key) => key,
            Err(error) => {
                return Err(error);
            },
        };
        let ghost between = self.generator.runs();
        match &self.csr {
            Some(csr) => {
                let csr = csr.clone();
                assert(self.generator.runs() =~= before + start.csr_runs(self.key, Ok(csr)));
                Ok(csr)
            },
            None => {
                let made = self.generator.generate_csr(&key, self.name.as_full());
                assert(self.generator.runs().drop_last() =~= between);
                match made {
                    Ok(csr) => {
                        self.store_csr(csr.clone());
                        assert(self.generator.runs() =~= before + start.csr_runs(self.key, Ok(csr)));
                        Ok(csr)
                    },
                    Err(error) => {
                        let r = Err(KeyMaterialError::GenerateCsr(error));
                        assert(self.generator.runs() =~= before + start.csr_runs(self.key, r));
                        r
                    },
                }
            },
        }
    }

    pub fn key_pem(&self) -> (r: Option<&String>)
        ensures
            r is Some == self.key is Some,
            r matches Some(key) ==> self.key == Some(*key),
    {
        self.key.as_ref()
    }
}

impl LazyKeyMaterial<RankeyGenerator> {
    /// Nothing is generated yet.
    pub fn for_name(name: IdentityName) -> (r: Self)
        ensures
            r.wf(),
            r.name == name,
            r.generator.runs() == Seq::<GeneratorRun>::empty(),
            r.orderly(),
            r.key is None,
            r.csr is None,
    {
        LazyKeyMaterial::new(name, RankeyGenerator::new())
    }

    pub fn from_existing(name: IdentityName, key_pem: String, csr_pem: String) -> (r: Self)
        ensures
            r.wf(),
            r.name == name,
            r.generator.runs() == Seq::<GeneratorRun>::empty(),
            r.key == Some(key_pem),
            r.csr == Some(csr_pem),
    {
        LazyKeyMaterial {
            name,
            generator: RankeyGenerator::new(),
            key: Some(key_pem),
            csr: Some(csr_pem),
        }
    }
}

/// The bytes of the public key information that belongs to a P-384 private key in PKCS#8 PEM:
/// `None` where the text is no such key, `Some(None)` where its public key cannot be encoded.
pub uninterp spec fn pem_public_key(key_pem: Seq<char>) -> Option<Option<Seq<u8>>>;

/// The character that stands for six bits in URL-safe base64.
pub open spec fn base64_digit(value: int) -> char {
    if value < 26 {
        (65 + value) as char
    } else if value < 52 {
        (71 + value) as char
    } else if value < 62 {
        (value - 4) as char
    } else if value == 62 {
        '-'
    } else {
        '_'
    }
}

/// The byte at a place, zero behind the last.
pub open spec fn byte_at(bytes: Seq<u8>, i: int) -> int {
    if i < bytes.len() {
        bytes[i] as int
    } else {
        0
    }
}

/// The six bits at a place: three bytes are four such groups.
pub open spec fn base64_group(bytes: Seq<u8>, i: int) -> int {
    let first = i / 4 * 3;
    if i % 4 == 0 {
        byte_at(bytes, first) / 4
    } else if i % 4 == 1 {
        byte_at(bytes, first) % 4 * 16 + byte_at(bytes, first + 1) / 16
    } else if i % 4 == 2 {
        byte_at(bytes, first + 1) % 16 * 4 + byte_at(bytes, first + 2) / 64
    } else {
        byte_at(bytes, first + 2) % 64
    }
}

/// The URL-safe base64 notation of bytes, without padding.
pub open spec fn base64_url(bytes: Seq<u8>) -> Seq<char> {
    Seq::new(
        ((bytes.len() * 4 + 2) / 3) as nat,
        |i: int| base64_digit(base64_group(bytes, i)),
    )
}

proof fn base64_is_ascii(bytes: Seq<u8>)
    ensures
        all_ascii(base64_url(bytes)),
{
    let encoded = base64_url(bytes);
    assert forall|i: int| 0 <= i < encoded.len() implies #[trigger] encoded[i] <= '\u{7f}' by {
        let group = base64_group(bytes, i);
        assert(0 <= group < 64);
        assert(encoded[i] == base64_digit(group));
    }
}

/// Calls `p384::SecretKey::from_pkcs8_pem` and encodes the public key with
/// `to_public_key_der`. The name `pem_public_key` stands for the result. The encoding holds
/// the uncompressed point after a fixed header, 120 bytes together.
#[verifier::external_body]
pub(crate) fn public_key_of_pem(key_pem: &str) -> (r: Option<Option<Vec<u8>>>)
    ensures
        match r {
            None => pem_public_key(key_pem@) is None,
            Some(None) => pem_public_key(key_pem@) == Some(None::<Seq<u8>>),
            Some(Some(key)) => pem_public_key(key_pem@) == Some(Some(key@)),
        },
        r matches Some(Some(key)) ==> key@.len() == 120,
{
    let key = <p384::SecretKey as pkcs8::DecodePrivateKey>::from_pkcs8_pem(key_pem).ok()?;
    let public = pkcs8::EncodePublicKey::to_public_key_der(&key.public_key());
    Some(public.ok().map(|document| document.as_bytes().to_vec()))
}

pub open spec fn all_ascii(s: Seq<char>) -> bool {
    forall|i: int| 0 <= i < s.len() ==> #[trigger] s[i] <= '\u{7f}'
}

/// Calls `base64`'s `URL_SAFE_NO_PAD.encode`, which writes every six bits as one character of
/// the URL-safe alphabet and pads nothing.
#[verifier::external_body]
pub(crate) fn encode_base64_url(bytes: &[u8]) -> (r: String)
    ensures
        r@ == base64_url(bytes@),
{
    base64::Engine::encode(&base64::engine::general_purpose::URL_SAFE_NO_PAD, bytes)
}

/// Why a renewal cannot be named.
#[derive(Debug, Clone, Copy, PartialEq, Eq, Structural)]
pub enum OperationKeyError {
    ParsePrivateKey,
    EncodePublicKey,
}

/// The key under which a renewal is requested, from the public key that is renewed.
pub open spec fn operation_key(public_key: Seq<u8>) -> Seq<char> {
    "renew-v1-"@ + base64_url(public_key)
}

/// The key under which a renewal is requested; the same private key gives the same.
pub fn operation_key_from_private_key(key_pem: &str) -> (r: Result<String, OperationKeyError>)
    ensures
        match pem_public_key(key_pem@) {
            None => r == Err::<String, OperationKeyError>(OperationKeyError::ParsePrivateKey),
            Some(None) => r == Err::<String, OperationKeyError>(OperationKeyError::EncodePublicKey),
            Some(Some(public_key)) => r matches Ok(key) && key@ == operation_key(public_key),
        },
        r matches Ok(key) ==> key@.len() == 169 && all_ascii(key@),
{
    match public_key_of_pem(key_pem) {
        None => Err(OperationKeyError::ParsePrivateKey),
        Some(None) => Err(OperationKeyError::EncodePublicKey),
        Some(Some(public_key)) => {
            let mut key = "renew-v1-".to_owned();
            key.append(&encode_base64_url(public_key.as_slice()));
            proof {
                reveal_strlit("renew-v1-");
                let encoded = base64_url(public_key@);
                base64_is_ascii(public_key@);
                assert forall|i: int| 0 <= i < key@.len() implies #[trigger] key@[i] <= '\u{7f}' by {
                    if i >= 9 {
                        assert(key@[i] == encoded[i - 9]);
                    }
                }
            }
            Ok(key)
        },
    }
}

/// The material of a renewal that was requested and not installed yet.
#[derive(Debug, PartialEq, Eq)]
pub struct PendingRenewal {
    pub target: String,
    pub kind: String,
    pub sequence: u32,
    pub device_name: String,
    pub operation_key: String,
    pub key_pem: String,
    pub csr_pem: String,
}

/// Why pending material cannot be used. `path` is where it lies.
#[derive(Debug, PartialEq, Eq)]
pub enum PendingError {
    AnotherChain { path: String },
    Incomplete { path: String },
    UnsafePermissions { path: String },
    /// An operation on the files failed; the message says which and why.
    Files { message: String },
    Disappeared,
    Key(OperationKeyError),
    /// The key or the request could not be generated.
    Material(KeyMaterialError),
}

impl PendingError {
    pub open spec fn words(self) -> Seq<char> {
        match self {
            PendingError::AnotherChain { path } => "pending renewal material at "@ + path@
                + " belongs to another certificate chain"@,
            PendingError::Incomplete { path } => "pending renewal material at "@ + path@
                + " is incomplete"@,
            PendingError::UnsafePermissions { path } => "pending renewal material at "@ + path@
                + " grants unsafe group or other access"@,
            PendingError::Files { message } => message@,
            PendingError::Disappeared => "pending renewal material disappeared"@,
            PendingError::Key(
                OperationKeyError::ParsePrivateKey,
            ) => "failed to parse generated private key for renewal key"@,
            PendingError::Key(
                OperationKeyError::EncodePublicKey,
            ) => "failed to encode generated public key for renewal key"@,
            PendingError::Material(error) => error.words(),
        }
    }

    pub fn to_text(&self) -> (r: String)
        ensures
            r@ == self.words(),
    {
        match self {
            PendingError::AnotherChain { path } => {
                let mut r = "pending renewal material at ".to_owned();
                r.append(path);
                r.append(" belongs to another certificate chain");
                r
            },
            PendingError::Incomplete { path } => {
                let mut r = "pending renewal material at ".to_owned();
                r.append(path);
                r.append(" is incomplete");
                r
            },
            PendingError::UnsafePermissions { path } => {
                let mut r = "pending renewal material at ".to_owned();
                r.append(path);
                r.append(" grants unsafe group or other access");
                r
            },
            PendingError::Files { message } => message.clone(),
            PendingError::Disappeared => "pending renewal material disappeared".to_owned(),
            PendingError::Key(
                OperationKeyError::ParsePrivateKey,
            ) => "failed to parse generated private key for renewal key".to_owned(),
            PendingError::Key(
                OperationKeyError::EncodePublicKey,
            ) => "failed to encode generated public key for renewal key".to_owned(),
            PendingError::Material(error) => error.to_text(),
        }
    }
}

impl PendingRenewal {
    /// The material is for this certificate chain.
    pub open spec fn is_for(self, target: Seq<char>, kind: Seq<char>, sequence: u32) -> bool {
        self.target@ == target && self.kind@ == kind && self.sequence == sequence
    }

    /// Nothing is missing from the material.
    pub open spec fn complete(self) -> bool {
        &&& 8 <= self.operation_key@.len() <= 200
        &&& all_ascii(self.operation_key@)
        &&& self.key_pem@.len() > 0
        &&& self.csr_pem@.len() > 0
    }

    /// Checks that the material is complete and for this certificate chain.
    pub fn validate(&self, target: &str, kind: &str, sequence: u32, path: &str) -> (r: Result<
        (),
        PendingError,
    >)
        ensures
            match r {
                Ok(()) => self.is_for(target@, kind@, sequence) && self.complete(),
                Err(PendingError::AnotherChain { path: p }) => !self.is_for(target@, kind@, sequence)
                    && p@ == path@,
                Err(PendingError::Incomplete { path: p }) => self.is_for(target@, kind@, sequence)
                    && !self.complete() && p@ == path@,
                Err(_) => false,
            },
    {
        if !same(&self.target, target) || !same(&self.kind, kind) || self.sequence != sequence {
            return Err(PendingError::AnotherChain { path: path.to_owned() });
        }
        let chars = chars_of(&self.operation_key);
        let mut ascii = true;
        let mut i: usize = 0;
        while i < chars.len()
            invariant
                i <= chars@.len(),
                ascii == (forall|j: int| 0 <= j < i ==> #[trigger] chars@[j] <= '\u{7f}'),
            decreases chars@.len() - i,
        {
            if chars[i] > '\u{7f}' {
                ascii = false;
            }
            i += 1;
        }
        if chars.len() < 8 || chars.len() > 200 || !ascii || self.key_pem.as_str().is_empty()
            || self.csr_pem.as_str().is_empty() {
            return Err(PendingError::Incomplete { path: path.to_owned() });
        }
        Ok(())
    }

    /// Puts new material together from a generated key and the request for it. It is complete
    /// where neither of them is empty.
    pub fn assemble(
        target: &str,
        kind: &str,
        sequence: u32,
        device_name: &str,
        key_pem: String,
        csr_pem: String,
    ) -> (r: Result<PendingRenewal, PendingError>)
        ensures
            match pem_public_key(key_pem@) {
                None => r == Err::<PendingRenewal, PendingError>(
                    PendingError::Key(OperationKeyError::ParsePrivateKey),
                ),
                Some(None) => r == Err::<PendingRenewal, PendingError>(
                    PendingError::Key(OperationKeyError::EncodePublicKey),
                ),
                Some(Some(public_key)) => r matches Ok(pending) && pending.is_for(
                    target@,
                    kind@,
                    sequence,
                ) && pending.device_name@ == device_name@ && pending.operation_key@
                    == operation_key(public_key) && pending.key_pem == key_pem && pending.csr_pem
                    == csr_pem,
            },
            r matches Ok(pending) ==> (key_pem@.len() > 0 && csr_pem@.len() > 0
                ==> pending.complete()),
    {
        match operation_key_from_private_key(&key_pem) {
            Err(error) => Err(PendingError::Key(error)),
            Ok(operation_key) => Ok(
                PendingRenewal {
                    target: target.to_owned(),
                    kind: kind.to_owned(),
                    sequence,
                    device_name: device_name.to_owned(),
                    operation_key,
                    key_pem,
                    csr_pem,
                },
            ),
        }
    }

    /// New material for a generated key: the request is made for the key and for the name.
    pub fn for_key(
        name: &IdentityName,
        kind: &str,
        sequence: u32,
        device_name: &str,
        key_pem: String,
    ) -> (r: Result<PendingRenewal, PendingError>)
        ensures
            match (
                certificate_request(key_pem@, "CN"@, name.full@, name.full@),
                pem_public_key(key_pem@),
            ) {
                (None, _) => r matches Err(PendingError::Material(KeyMaterialError::GenerateCsr(_))),
                (Some(_), None) => r == Err::<PendingRenewal, PendingError>(
                    PendingError::Key(OperationKeyError::ParsePrivateKey),
                ),
                (Some(_), Some(None)) => r == Err::<PendingRenewal, PendingError>(
                    PendingError::Key(OperationKeyError::EncodePublicKey),
                ),
                (Some(request), Some(Some(public_key))) => r matches Ok(pending) && pending.is_for(
                    name.full@,
                    kind@,
                    sequence,
                ) && pending.device_name@ == device_name@ && pending.operation_key@
                    == operation_key(public_key) && pending.key_pem == key_pem && pending.csr_pem@
                    == request,
            },
    {
        match generate_csr(&key_pem, "CN", name.as_full(), name.as_full()) {
            Err(error) => Err(PendingError::Material(KeyMaterialError::GenerateCsr(error))),
            Ok(csr) => PendingRenewal::assemble(
                name.as_full(),
                kind,
                sequence,
                device_name,
                key_pem,
                csr,
            ),
        }
    }

    /// New material with a new key. Which key comes, and whether one comes, is left to the
    /// generator; [`PendingRenewal::for_key`] says what comes of each.
    pub fn generate(name: &IdentityName, kind: &str, sequence: u32, device_name: &str) -> (r: Result<
        PendingRenewal,
        PendingError,
    >)
        ensures
            match r {
                Ok(pending) => pending.is_for(name.full@, kind@, sequence)
                    && pending.device_name@ == device_name@ && certificate_request(
                    pending.key_pem@,
                    "CN"@,
                    name.full@,
                    name.full@,
                ) == Some(pending.csr_pem@) && (pem_public_key(pending.key_pem@) matches Some(
                    Some(public_key),
                ) && pending.operation_key@ == operation_key(public_key)),
                Err(PendingError::Material(KeyMaterialError::GenerateKey(_))) => true,
                Err(PendingError::Material(KeyMaterialError::GenerateCsr(_))) => exists|
                    key: Seq<char>,
                | (#[trigger] certificate_request(key, "CN"@, name.full@, name.full@)) is None,
                Err(PendingError::Key(OperationKeyError::ParsePrivateKey)) => exists|
                    key: Seq<char>,
                |
                    (#[trigger] certificate_request(key, "CN"@, name.full@, name.full@)) is Some
                        && pem_public_key(key) is None,
                Err(PendingError::Key(OperationKeyError::EncodePublicKey)) => exists|
                    key: Seq<char>,
                |
                    (#[trigger] certificate_request(key, "CN"@, name.full@, name.full@)) is Some
                        && pem_public_key(key) == Some(None::<Seq<u8>>),
                Err(_) => false,
            },
    {
        match generate_key() {
            Err(error) => Err(PendingError::Material(KeyMaterialError::GenerateKey(error))),
            Ok(key) => PendingRenewal::for_key(name, kind, sequence, device_name, key),
        }
    }

    pub fn device_name(&self) -> (r: &str)
        ensures
            r@ == self.device_name@,
    {
        self.device_name.as_str()
    }

    pub fn operation_key(&self) -> (r: &str)
        ensures
            r@ == self.operation_key@,
    {
        self.operation_key.as_str()
    }

    pub fn key_pem(&self) -> (r: &str)
        ensures
            r@ == self.key_pem@,
    {
        self.key_pem.as_str()
    }

    pub fn csr_pem(&self) -> (r: &str)
        ensures
            r@ == self.csr_pem@,
    {
        self.csr_pem.as_str()
    }
}

/// Only the owner of a file may have any access to it.
pub open spec fn owner_only(mode: u32) -> bool {
    mode & 0o077 == 0
}

/// What was found where pending material may lie.
#[derive(Debug)]
pub enum PendingFile {
    NotFound,
    Unreadable { message: String },
    /// The mode of the file, and the material in it, or why it cannot be understood.
    Found { mode: u32, content: Result<PendingRenewal, String> },
}

/// Takes what was found as the pending material for a certificate chain. Material that others
/// could have read or written, or that is not for this chain, is refused.
pub fn load_pending(file: PendingFile, target: &str, kind: &str, sequence: u32, path: &str) -> (r:
    Result<Option<PendingRenewal>, PendingError>)
    ensures
        match file {
            PendingFile::NotFound => r == Ok::<Option<PendingRenewal>, PendingError>(None),
            PendingFile::Unreadable { message } => r == Err::<Option<PendingRenewal>, PendingError>(
                PendingError::Files { message },
            ),
            PendingFile::Found { mode, content } => if !owner_only(mode) {
                r matches Err(PendingError::UnsafePermissions { path: p }) && p@ == path@
            } else {
                match content {
                    Err(message) => r == Err::<Option<PendingRenewal>, PendingError>(
                        PendingError::Files { message },
                    ),
                    Ok(pending) => if !pending.is_for(target@, kind@, sequence) {
                        r matches Err(PendingError::AnotherChain { path: p }) && p@ == path@
                    } else if !pending.complete() {
                        r matches Err(PendingError::Incomplete { path: p }) && p@ == path@
                    } else {
                        r == Ok::<Option<PendingRenewal>, PendingError>(Some(pending))
                    },
                }
            },
        },
{
    match file {
        PendingFile::NotFound => Ok(None),
        PendingFile::Unreadable { message } => Err(PendingError::Files { message }),
        PendingFile::Found { mode, content } => {
            if mode & 0o077 != 0 {
                return Err(PendingError::UnsafePermissions { path: path.to_owned() });
            }
            match content {
                Err(message) => Err(PendingError::Files { message }),
                Ok(pending) => match pending.validate(target, kind, sequence, path) {
                    Ok(()) => Ok(Some(pending)),
                    Err(error) => Err(error),
                },
            }
        },
    }
}

/// How committing new material to disk stands. The material is written to a temporary file
/// first, and that file is then linked to its final place, so that the final place never holds
/// half of it and never replaces what another process put there.
#[derive(Debug, Clone, Copy, PartialEq, Eq, Structural)]
pub enum CommitPhase {
    CreateTemporary,
    WriteTemporary,
    Link,
    SyncAfterLink,
    RemoveTemporary,
    SyncAfterRemove,
    RemoveUnlinked,
    SyncUnlinked,
    LoadExisting,
    Done,
}

/// What came of an operation on the files.
#[derive(Debug)]
pub enum CommitEvent {
    Succeeded,
    AlreadyExists,
    Failed { message: String },
    Loaded(Result<Option<PendingRenewal>, PendingError>),
}

/// The next operation on the files.
#[derive(Debug)]
pub enum CommitAction {
    CreateTemporary,
    WriteTemporary,
    Link,
    SyncDirectory,
    RemoveTemporary,
    LoadExisting,
    /// Ends with this result; the temporary file is removed first where it may be left over,
    /// whatever comes of that.
    Finish { result: Result<PendingRenewal, PendingError>, discard_temporary: bool },
    Nothing,
}

#[derive(Debug)]
pub struct PendingCommit {
    pub pending: Option<PendingRenewal>,
    pub phase: CommitPhase,
}

impl PendingCommit {
    pub open spec fn at(self, phase: CommitPhase) -> PendingCommit {
        PendingCommit { phase, ..self }
    }

    pub open spec fn failed(self, message: String, discard_temporary: bool) -> (
        PendingCommit,
        CommitAction,
    ) {
        (
            self.at(CommitPhase::Done),
            CommitAction::Finish {
                result: Err(PendingError::Files { message }),
                discard_temporary,
            },
        )
    }

    pub open spec fn wait(self) -> CommitAction {
        match self.phase {
            CommitPhase::CreateTemporary => CommitAction::CreateTemporary,
            CommitPhase::WriteTemporary => CommitAction::WriteTemporary,
            CommitPhase::Link => CommitAction::Link,
            CommitPhase::SyncAfterLink | CommitPhase::SyncAfterRemove
            | CommitPhase::SyncUnlinked => CommitAction::SyncDirectory,
            CommitPhase::RemoveTemporary
            | CommitPhase::RemoveUnlinked => CommitAction::RemoveTemporary,
            CommitPhase::LoadExisting => CommitAction::LoadExisting,
            CommitPhase::Done => CommitAction::Nothing,
        }
    }

    /// What follows on an event. A success leads to the next operation; a failure ends the
    /// commit, and where the temporary file was written but not linked it is discarded.
    pub open spec fn after(self, event: CommitEvent) -> (PendingCommit, CommitAction) {
        match (self.phase, event) {
            (CommitPhase::CreateTemporary, CommitEvent::Succeeded) => (
                self.at(CommitPhase::WriteTemporary),
                CommitAction::WriteTemporary,
            ),
            (CommitPhase::WriteTemporary, CommitEvent::Succeeded) => (
                self.at(CommitPhase::Link),
                CommitAction::Link,
            ),
            (CommitPhase::Link, CommitEvent::Succeeded) => (
                self.at(CommitPhase::SyncAfterLink),
                CommitAction::SyncDirectory,
            ),
            (CommitPhase::Link, CommitEvent::AlreadyExists) => (
                self.at(CommitPhase::RemoveUnlinked),
                CommitAction::RemoveTemporary,
            ),
            (CommitPhase::SyncAfterLink, CommitEvent::Succeeded) => (
                self.at(CommitPhase::RemoveTemporary),
                CommitAction::RemoveTemporary,
            ),
            (CommitPhase::RemoveTemporary, CommitEvent::Succeeded) => (
                self.at(CommitPhase::SyncAfterRemove),
                CommitAction::SyncDirectory,
            ),
            (CommitPhase::SyncAfterRemove, CommitEvent::Succeeded) => match self.pending {
                Some(pending) => (
                    PendingCommit { pending: None, phase: CommitPhase::Done },
                    CommitAction::Finish { result: Ok(pending), discard_temporary: false },
                ),
                None => (self, self.wait()),
            },
            (CommitPhase::RemoveUnlinked, CommitEvent::Succeeded) => (
                self.at(CommitPhase::SyncUnlinked),
                CommitAction::SyncDirectory,
            ),
            (CommitPhase::SyncUnlinked, CommitEvent::Succeeded) => (
                self.at(CommitPhase::LoadExisting),
                CommitAction::LoadExisting,
            ),
            (CommitPhase::LoadExisting, CommitEvent::Loaded(loaded)) => (
                self.at(CommitPhase::Done),
                CommitAction::Finish {
                    result: match loaded {
                        Ok(Some(existing)) => Ok(existing),
                        Ok(None) => Err(PendingError::Disappeared),
                        Err(error) => Err(error),
                    },
                    discard_temporary: false,
                },
            ),
            (CommitPhase::WriteTemporary, CommitEvent::Failed { message })
            | (CommitPhase::Link, CommitEvent::Failed { message }) => self.failed(message, true),
            (CommitPhase::Done, _) => (self, self.wait()),
            (_, CommitEvent::Failed { message }) => self.failed(message, false),
            (_, _) => (self, self.wait()),
        }
    }

    pub fn start(pending: PendingRenewal) -> (r: (PendingCommit, CommitAction))
        ensures
            r.0 == (PendingCommit { pending: Some(pending), phase: CommitPhase::CreateTemporary }),
            r.1 == CommitAction::CreateTemporary,
    {
        (
            PendingCommit { pending: Some(pending), phase: CommitPhase::CreateTemporary },
            CommitAction::CreateTemporary,
        )
    }

    fn fail(&mut self, message: String, discard_temporary: bool) -> (r: CommitAction)
        ensures
            (*final(self), r) == old(self).failed(message, discard_temporary),
    {
        self.phase = CommitPhase::Done;
        CommitAction::Finish { result: Err(PendingError::Files { message }), discard_temporary }
    }

    fn waiting(&self) -> (r: CommitAction)
        ensures
            r == self.wait(),
    {
        match self.phase {
            CommitPhase::CreateTemporary => CommitAction::CreateTemporary,
            CommitPhase::WriteTemporary => CommitAction::WriteTemporary,
            CommitPhase::Link => CommitAction::Link,
            CommitPhase::SyncAfterLink => CommitAction::SyncDirectory,
            CommitPhase::SyncAfterRemove => CommitAction::SyncDirectory,
            CommitPhase::SyncUnlinked => CommitAction::SyncDirectory,
            CommitPhase::RemoveTemporary => CommitAction::RemoveTemporary,
            CommitPhase::RemoveUnlinked => CommitAction::RemoveTemporary,
            CommitPhase::LoadExisting => CommitAction::LoadExisting,
            CommitPhase::Done => CommitAction::Nothing,
        }
    }

    fn go(&mut self, phase: CommitPhase) -> (r: CommitAction)
        ensures
            *final(self) == old(self).at(phase),
            r == final(self).wait(),
    {
        self.phase = phase;
        self.waiting()
    }

    /// Takes what came of an operation and gives the next one.
    pub fn next(&mut self, event: CommitEvent) -> (r: CommitAction)
        ensures
            (*final(self), r) == old(self).after(event),
    {
        match (self.phase, event) {
            (CommitPhase::CreateTemporary, CommitEvent::Succeeded) => self.go(
                CommitPhase::WriteTemporary,
            ),
            (CommitPhase::WriteTemporary, CommitEvent::Succeeded) => self.go(CommitPhase::Link),
            (CommitPhase::Link, CommitEvent::Succeeded) => self.go(CommitPhase::SyncAfterLink),
            (CommitPhase::Link, CommitEvent::AlreadyExists) => self.go(CommitPhase::RemoveUnlinked),
            (CommitPhase::SyncAfterLink, CommitEvent::Succeeded) => self.go(
                CommitPhase::RemoveTemporary,
            ),
            (CommitPhase::RemoveTemporary, CommitEvent::Succeeded) => self.go(
                CommitPhase::SyncAfterRemove,
            ),
            (CommitPhase::SyncAfterRemove, CommitEvent::Succeeded) => {
                let taken = self.pending.take();
                match taken {
                    Some(pending) => {
                        self.phase = CommitPhase::Done;
                        CommitAction::Finish { result: Ok(pending), discard_temporary: false }
                    },
                    None => self.waiting(),
                }
            },
            (CommitPhase::RemoveUnlinked, CommitEvent::Succeeded) => self.go(
                CommitPhase::SyncUnlinked,
            ),
            (CommitPhase::SyncUnlinked, CommitEvent::Succeeded) => self.go(
                CommitPhase::LoadExisting,
            ),
            (CommitPhase::LoadExisting, CommitEvent::Loaded(loaded)) => {
                self.phase = CommitPhase::Done;
                let result = match loaded {
                    Ok(Some(existing)) => Ok(existing),
                    Ok(None) => Err(PendingError::Disappeared),
                    Err(error) => Err(error),
                };
                CommitAction::Finish { result, discard_temporary: false }
            },
            (CommitPhase::WriteTemporary, CommitEvent::Failed { message }) => self.fail(
                message,
                true,
            ),
            (CommitPhase::Link, CommitEvent::Failed { message }) => self.fail(message, true),
            (CommitPhase::Done, _) => self.waiting(),
            (_, CommitEvent::Failed { message }) => self.fail(message, false),
            (_, _) => self.waiting(),
        }
    }
}

/// New material is only reported as committed after it was linked to its final place and the
/// temporary file was removed.
pub proof fn commits_report_success_last(commit: PendingCommit, event: CommitEvent, pending: PendingRenewal)
    requires
        commit.after(event).1 matches CommitAction::Finish { result, .. } && result == Ok::<
            PendingRenewal,
            PendingError,
        >(pending),
    ensures
        (commit.phase == CommitPhase::SyncAfterRemove && commit.pending == Some(pending)) || (
        commit.phase == CommitPhase::LoadExisting && event == CommitEvent::Loaded(
            Ok::<Option<PendingRenewal>, PendingError>(Some(pending)),
        )),
{
}

/// The digits stand in the order of the letters, large and then small, the numbers, the hyphen
/// and the underscore.
pub proof fn digits_stand_in_order(value: int)
    requires
        0 <= value < 64,
    ensures
        value < 26 ==> base64_digit(value) as int == 'A' as int + value,
        26 <= value < 52 ==> base64_digit(value) as int == 'a' as int + value - 26,
        52 <= value < 62 ==> base64_digit(value) as int == '0' as int + value - 52,
        value == 62 ==> base64_digit(value) == '-',
        value == 63 ==> base64_digit(value) == '_',
{
}

/// Four digits hold three bytes; a last byte takes two digits, two last bytes take three.
pub proof fn digits_hold_the_bytes(bytes: Seq<u8>, k: int)
    requires
        0 <= k,
        3 * k < bytes.len(),
    ensures
        ({
            let text = base64_url(bytes);
            let value = |j: int| base64_group(bytes, 4 * k + j);
            &&& forall|j: int| 0 <= j < 4 ==> 0 <= #[trigger] value(j) < 64
            &&& forall|j: int|
                0 <= j < 4 && 4 * k + j < text.len() ==> text[4 * k + j] == base64_digit(
                    #[trigger] value(j),
                )
            &&& (3 * k + 2 < bytes.len() ==> 4 * k + 3 < text.len() && value(0) * 262144 + value(1)
                * 4096 + value(2) * 64 + value(3) == bytes[3 * k] * 65536 + bytes[3 * k + 1] * 256
                + bytes[3 * k + 2])
            &&& (3 * k + 2 == bytes.len() ==> text.len() == 4 * k + 3 && value(0) * 4096 + value(1)
                * 64 + value(2) == (bytes[3 * k] * 256 + bytes[3 * k + 1]) * 4)
            &&& (3 * k + 1 == bytes.len() ==> text.len() == 4 * k + 2 && value(0) * 64 + value(1)
                == bytes[3 * k] * 16)
        }),
{
    assert((4 * k) / 4 == k && (4 * k + 1) / 4 == k && (4 * k + 2) / 4 == k && (4 * k + 3) / 4
        == k);
    assert((4 * k) % 4 == 0 && (4 * k + 1) % 4 == 1 && (4 * k + 2) % 4 == 2 && (4 * k + 3) % 4
        == 3);
    let value = |j: int| base64_group(bytes, 4 * k + j);
    assert(0 <= value(0) < 64 && 0 <= value(1) < 64 && 0 <= value(2) < 64 && 0 <= value(3) < 64);
}

/// Different public keys have different operation keys, and each says what it is for.
pub proof fn operation_keys_tell_public_keys_apart(a: Seq<u8>, b: Seq<u8>)
    ensures
        crate::text::starts_with(operation_key(a), "renew-v1-"@),
        operation_key(a) == operation_key(b) ==> a == b,
{
    let front = "renew-v1-"@;
    assert(operation_key(a).take(front.len() as int) =~= front);
    assert(operation_key(a).skip(front.len() as int) =~= base64_url(a));
    assert(operation_key(b).skip(front.len() as int) =~= base64_url(b));
    if operation_key(a) == operation_key(b) {
        let s = base64_url(a);
        assert(s == base64_url(b));
        assert(s.len() == (a.len() * 4 + 2) / 3);
        assert(s.len() == (b.len() * 4 + 2) / 3);
        assert(a.len() == b.len());
        assert forall|i: int| 0 <= i < a.len() implies a[i] == b[i] by {
            let k = i / 3;
            assert(3 * k <= i < 3 * k + 3);
            digits_hold_the_bytes(a, k);
            digits_hold_the_bytes(b, k);
            let x = |j: int| base64_group(a, 4 * k + j);
            let y = |j: int| base64_group(b, 4 * k + j);
            assert forall|j: int| 0 <= j < 4 && 4 * k + j < s.len() implies #[trigger] x(j)
                == y(j) by {
                assert(s[4 * k + j] == base64_digit(x(j)));
                assert(s[4 * k + j] == base64_digit(y(j)));
                digits_stand_in_order(x(j));
                digits_stand_in_order(y(j));
            }
            assert(4 * k + 1 < s.len());
            assert(x(0) == y(0) && x(1) == y(1));
            if 3 * k + 1 < a.len() {
                assert(4 * k + 2 < s.len());
                assert(x(2) == y(2));
            }
            if 3 * k + 2 < a.len() {
                assert(4 * k + 3 < s.len());
                assert(x(3) == y(3));
            }
        }
        assert(a =~= b);
    }
}

/// A renewal is written to a temporary file, linked into place and synced before it counts;
/// where another one is in place already, the temporary file goes and the other one is read.
pub proof fn commits_take_their_course(commit: PendingCommit, pending: PendingRenewal)
    requires
        commit.pending == Some(pending),
    ensures
        ({
            let (next, action) = commit.after(CommitEvent::Succeeded);
            &&& (commit.phase == CommitPhase::CreateTemporary ==> action
                == CommitAction::WriteTemporary && next.phase == CommitPhase::WriteTemporary)
            &&& (commit.phase == CommitPhase::WriteTemporary ==> action == CommitAction::Link
                && next.phase == CommitPhase::Link)
            &&& (commit.phase == CommitPhase::Link ==> action == CommitAction::SyncDirectory
                && next.phase == CommitPhase::SyncAfterLink)
            &&& (commit.phase == CommitPhase::SyncAfterLink ==> action
                == CommitAction::RemoveTemporary && next.phase == CommitPhase::RemoveTemporary)
            &&& (commit.phase == CommitPhase::RemoveTemporary ==> action
                == CommitAction::SyncDirectory && next.phase == CommitPhase::SyncAfterRemove)
            &&& (commit.phase == CommitPhase::SyncAfterRemove ==> action == (CommitAction::Finish {
                result: Ok::<PendingRenewal, PendingError>(pending),
                discard_temporary: false,
            }) && next.phase == CommitPhase::Done)
            &&& (commit.phase == CommitPhase::RemoveUnlinked ==> action
                == CommitAction::SyncDirectory && next.phase == CommitPhase::SyncUnlinked)
            &&& (commit.phase == CommitPhase::SyncUnlinked ==> action == CommitAction::LoadExisting
                && next.phase == CommitPhase::LoadExisting)
        }),
        commit.phase == CommitPhase::Link ==> commit.after(CommitEvent::AlreadyExists).1
            == CommitAction::RemoveTemporary && commit.after(CommitEvent::AlreadyExists).0.phase
            == CommitPhase::RemoveUnlinked,
{
}

/// A failure ends the commit with its message, and the temporary file is thrown away where it
/// is still there and was not linked.
pub proof fn failed_commits_are_told(commit: PendingCommit, message: String)
    requires
        commit.phase != CommitPhase::Done,
    ensures
        commit.after(CommitEvent::Failed { message }).1 == (CommitAction::Finish {
            result: Err::<PendingRenewal, PendingError>(PendingError::Files { message }),
            discard_temporary: commit.phase == CommitPhase::WriteTemporary || commit.phase
                == CommitPhase::Link,
        }),
        commit.after(CommitEvent::Failed { message }).0.phase == CommitPhase::Done,
{
}

/// A renewal in place that cannot be read again, or has gone, is told.
pub proof fn existing_renewals_are_taken(
    commit: PendingCommit,
    existing: PendingRenewal,
    error: PendingError,
)
    requires
        commit.phase == CommitPhase::LoadExisting,
    ensures
        commit.after(CommitEvent::Loaded(Ok(Some(existing)))).1 == (CommitAction::Finish {
            result: Ok::<PendingRenewal, PendingError>(existing),
            discard_temporary: false,
        }),
        commit.after(CommitEvent::Loaded(Ok(None))).1 == (CommitAction::Finish {
            result: Err::<PendingRenewal, PendingError>(PendingError::Disappeared),
            discard_temporary: false,
        }),
        commit.after(CommitEvent::Loaded(Err(error))).1 == (CommitAction::Finish {
            result: Err::<PendingRenewal, PendingError>(error),
            discard_temporary: false,
        }),
{
}

/// What is lacking first is the key, then the request.
pub proof fn keys_come_before_requests<G: KeyMaterialGenerator>(material: LazyKeyMaterial<G>)
    ensures
        material.lacks() == Some(MissingMaterial::Key) <==> material.key is None,
        material.lacks() == Some(MissingMaterial::Csr) <==> material.key is Some && material.csr
            is None,
        material.lacks() is None <==> material.key is Some && material.csr is Some,
{
}

/// A renewal belongs to one chain: the name, the usage and the sequence that it was made for.
pub proof fn renewals_belong_to_one_chain(
    pending: PendingRenewal,
    target: Seq<char>,
    kind: Seq<char>,
    sequence: u32,
)
    ensures
        pending.is_for(pending.target@, pending.kind@, pending.sequence),
        target != pending.target@ || kind != pending.kind@ || sequence != pending.sequence
            ==> !pending.is_for(target, kind, sequence),
{
}

/// A file is kept from others where its last six permission bits are clear.
pub proof fn others_have_no_access(mode: u32)
    ensures
        owner_only(mode) <==> mode % 64 == 0,
{
    assert(mode & 0o077 == 0 <==> mode % 64 == 0) by (bit_vector);
}

/// A renewal counts as complete with a key of eight to two hundred plain characters, and with
/// its two texts.
pub proof fn complete_renewals_have_their_texts(pending: PendingRenewal)
    ensures
        pending.complete() ==> pending.key_pem@.len() > 0 && pending.csr_pem@.len() > 0
            && pending.operation_key@.len() >= 8 && pending.operation_key@.len() < 201,
        pending.key_pem@.len() > 0 && pending.csr_pem@.len() > 0 && 7 < pending.operation_key@.len()
            <= 200 && (forall|i: int|
            0 <= i < pending.operation_key@.len() ==> ((#[trigger] pending.operation_key@[i]) as int)
                < 128) ==> pending.complete(),
        pending.complete() ==> forall|i: int|
            0 <= i < pending.operation_key@.len() ==> ((#[trigger] pending.operation_key@[i]) as int)
                < 128,
{
}

/// A request names the identity, as its subject and beside it, and the country.
pub proof fn requests_name_the_identity(key_pem: Seq<char>, name: Seq<char>, made: Option<Seq<char>>)
    ensures
        <RankeyGenerator as KeyMaterialGenerator>::makes(key_pem, name, made) <==> made
            == certificate_request(key_pem, "CN"@, name, name),
{
}

} // verus!
