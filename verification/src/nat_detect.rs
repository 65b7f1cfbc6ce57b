//! What the interfaces of this machine show of the network behind them.
use vstd::prelude::*;

use crate::text::{decimal_of, decimal_u64, views};

verus! {

/// What one server saw of one interface.
#[derive(Debug, PartialEq, Eq)]
pub struct NatObservation {
    pub bind_uri: String,
    pub stun_server: String,
    pub external_ip: String,
    pub nat_type: String,
}

/// Why nothing was seen.
#[derive(Debug, PartialEq, Eq)]
pub enum NatError {
    DetectExternalAddr { bind_uri: String, stun_server: String },
    DetectNatType { bind_uri: String, stun_server: String },
    NoStunClients { bind_uri: String },
    NoStunAgent { bind_uri: String },
    NoNatObservation { candidates: usize },
}

impl NatError {
    pub open spec fn words(self) -> Seq<char> {
        match self {
            NatError::DetectExternalAddr { bind_uri, stun_server } =>
                "failed to detect external address on `"@ + bind_uri@ + "` via STUN server "@
                + stun_server@,
            NatError::DetectNatType { bind_uri, stun_server } => "failed to detect NAT type on `"@
                + bind_uri@ + "` via STUN server "@ + stun_server@,
            NatError::NoStunClients { bind_uri } =>
                "no STUN client component found on interface `"@ + bind_uri@ + "`"@,
            NatError::NoStunAgent { bind_uri } => "no STUN agent discovered on interface `"@
                + bind_uri@ + "`"@,
            NatError::NoNatObservation { candidates } => "no NAT observation found among "@
                + decimal_of(candidates as nat) + " candidate interfaces"@,
        }
    }

    pub fn to_text(&self) -> (r: String)
        ensures
            r@ == self.words(),
    {
        match self {
            NatError::DetectExternalAddr { bind_uri, stun_server } => {
                let mut r = "failed to detect external address on `".to_owned();
                r.append(bind_uri);
                r.append("` via STUN server ");
                r.append(stun_server);
                r
            },
            NatError::DetectNatType { bind_uri, stun_server } => {
                let mut r = "failed to detect NAT type on `".to_owned();
                r.append(bind_uri);
                r.append("` via STUN server ");
                r.append(stun_server);
                r
            },
            NatError::NoStunClients { bind_uri } => {
                let mut r = "no STUN client component found on interface `".to_owned();
                r.append(bind_uri);
                r.append("`");
                r
            },
            NatError::NoStunAgent { bind_uri } => {
                let mut r = "no STUN agent discovered on interface `".to_owned();
                r.append(bind_uri);
                r.append("`");
                r
            },
            NatError::NoNatObservation { candidates } => {
                let mut r = "no NAT observation found among ".to_owned();
                r.append(&decimal_u64(*candidates as u64));
                r.append(" candidate interfaces");
                r
            },
        }
    }

    /// An interface with this error is passed over.
    pub open spec fn passed_over(self) -> bool {
        self is NoStunClients || self is NoStunAgent
    }
}

/// What one server says of an interface: the address is asked for first, the kind of the
/// network only where that is known.
pub fn observe_client(
    bind_uri: String,
    stun_server: String,
    external_ip: Option<String>,
    nat_type: Option<String>,
) -> (r: Result<NatObservation, NatError>)
    ensures
        r == (match (external_ip, nat_type) {
            (None, _) => Err::<NatObservation, NatError>(
                NatError::DetectExternalAddr { bind_uri, stun_server },
            ),
            (Some(_), None) => Err(NatError::DetectNatType { bind_uri, stun_server }),
            (Some(external_ip), Some(nat_type)) => Ok(
                NatObservation { bind_uri, stun_server, external_ip, nat_type },
            ),
        }),
{
    match (external_ip, nat_type) {
        (None, _) => Err(NatError::DetectExternalAddr { bind_uri, stun_server }),
        (Some(_), None) => Err(NatError::DetectNatType { bind_uri, stun_server }),
        (Some(external_ip), Some(nat_type)) => Ok(
            NatObservation { bind_uri, stun_server, external_ip, nat_type },
        ),
    }
}

/// The answers up to the first failure.
pub open spec fn all_or_first_failure(
    answers: Seq<Result<NatObservation, NatError>>,
) -> Result<Seq<NatObservation>, NatError>
    decreases answers.len(),
{
    if answers.len() == 0 {
        Ok(Seq::empty())
    } else {
        match all_or_first_failure(answers.drop_last()) {
            Err(error) => Err(error),
            Ok(seen) => match answers.last() {
                Ok(observation) => Ok(seen.push(observation)),
                Err(error) => Err(error),
            },
        }
    }
}

/// `r` holds what `seen` says.
pub open spec fn holds(
    r: Result<Vec<NatObservation>, NatError>,
    seen: Result<Seq<NatObservation>, NatError>,
) -> bool {
    match seen {
        Ok(observations) => r matches Ok(v) && v@ == observations,
        Err(error) => r == Err::<Vec<NatObservation>, NatError>(error),
    }
}

proof fn failures_stay(answers: Seq<Result<NatObservation, NatError>>, n: int)
    requires
        0 <= n <= answers.len(),
        all_or_first_failure(answers.take(n)) is Err,
    ensures
        all_or_first_failure(answers) == all_or_first_failure(answers.take(n)),
    decreases answers.len(),
{
    if n == answers.len() {
        assert(answers.take(n) =~= answers);
    } else {
        assert(answers.drop_last().take(n) =~= answers.take(n));
        failures_stay(answers.drop_last(), n);
    }
}

/// What the servers say of an interface, in the order in which they answer. Without clients, or
/// without servers, there is nothing to say.
#[verifier::loop_isolation(false)]
pub fn observe_interface(
    bind_uri: String,
    clients: Option<Vec<Result<NatObservation, NatError>>>,
) -> (r: Result<Vec<NatObservation>, NatError>)
    ensures
        match clients {
            None => r == Err::<Vec<NatObservation>, NatError>(NatError::NoStunClients { bind_uri }),
            Some(answers) => if answers@.len() == 0 {
                r == Err::<Vec<NatObservation>, NatError>(NatError::NoStunAgent { bind_uri })
            } else {
                holds(r, all_or_first_failure(answers@))
            },
        },
{
    let answers = match clients {
        None => {
            return Err(NatError::NoStunClients { bind_uri });
        },
        Some(answers) => answers,
    };
    if answers.len() == 0 {
        return Err(NatError::NoStunAgent { bind_uri });
    }
    let mut observations: Vec<NatObservation> = Vec::new();
    let ghost all = answers@;
    let mut rest = answers;
    assert(all.skip(0) =~= all);
    assert(all.take(0) =~= Seq::empty());
    while rest.len() > 0
        invariant
            rest@.len() <= all.len(),
            rest@ == all.skip(all.len() - rest@.len()),
            all_or_first_failure(all.take(all.len() - rest@.len())) == Ok::<
                Seq<NatObservation>,
                NatError,
            >(observations@),
        decreases rest@.len(),
    {
        let ghost n = all.len() - rest@.len();
        let answer = rest.remove(0);
        proof {
            assert(all.take(n + 1).drop_last() =~= all.take(n));
            assert(all.take(n + 1).last() == answer);
            assert(rest@ =~= all.skip(n + 1));
        }
        match answer {
            Ok(observation) => {
                observations.push(observation);
            },
            Err(error) => {
                proof {
                    failures_stay(all, n + 1);
                }
                return Err(error);
            },
        }
    }
    assert(all.take(all.len() as int) =~= all);
    Ok(observations)
}

/// What all interfaces show: those without clients or servers are passed over, and any other
/// failure ends the search.
pub open spec fn gathered(
    interfaces: Seq<Result<Vec<NatObservation>, NatError>>,
) -> Result<Seq<NatObservation>, NatError>
    decreases interfaces.len(),
{
    if interfaces.len() == 0 {
        Ok(Seq::empty())
    } else {
        match gathered(interfaces.drop_last()) {
            Err(error) => Err(error),
            Ok(seen) => match interfaces.last() {
                Ok(observations) => Ok(seen + observations@),
                Err(error) => if error.passed_over() {
                    Ok(seen)
                } else {
                    Err(error)
                },
            },
        }
    }
}

/// Takes what one more interface shows.
pub fn take_interface(
    observations: &mut Vec<NatObservation>,
    interface: Result<Vec<NatObservation>, NatError>,
) -> (r: Result<(), NatError>)
    ensures
        match interface {
            Ok(shown) => r is Ok && final(observations)@ == old(observations)@ + shown@,
            Err(error) => final(observations)@ == old(observations)@ && r == (
            if error.passed_over() {
                Ok::<(), NatError>(())
            } else {
                Err(error)
            }),
        },
{
    match interface {
        Ok(mut shown) => {
            observations.append(&mut shown);
            Ok(())
        },
        Err(error) => match error {
            NatError::NoStunClients { .. } | NatError::NoStunAgent { .. } => Ok(()),
            error => Err(error),
        },
    }
}

proof fn ends_stay(interfaces: Seq<Result<Vec<NatObservation>, NatError>>, n: int)
    requires
        0 <= n <= interfaces.len(),
        gathered(interfaces.take(n)) is Err,
    ensures
        gathered(interfaces) == gathered(interfaces.take(n)),
    decreases interfaces.len(),
{
    if n == interfaces.len() {
        assert(interfaces.take(n) =~= interfaces);
    } else {
        assert(interfaces.drop_last().take(n) =~= interfaces.take(n));
        ends_stay(interfaces.drop_last(), n);
    }
}

/// What all interfaces show.
#[verifier::loop_isolation(false)]
pub fn observe_interfaces(
    interfaces: Vec<Result<Vec<NatObservation>, NatError>>,
) -> (r: Result<Vec<NatObservation>, NatError>)
    ensures
        holds(r, gathered(interfaces@)),
{
    let mut observations: Vec<NatObservation> = Vec::new();
    let ghost all = interfaces@;
    let mut rest = interfaces;
    assert(all.skip(0) =~= all);
    assert(all.take(0) =~= Seq::empty());
    while rest.len() > 0
        invariant
            rest@.len() <= all.len(),
            rest@ == all.skip(all.len() - rest@.len()),
            gathered(all.take(all.len() - rest@.len())) == Ok::<Seq<NatObservation>, NatError>(
                observations@,
            ),
        decreases rest@.len(),
    {
        let ghost n = all.len() - rest@.len();
        let interface = rest.remove(0);
        proof {
            assert(all.take(n + 1).drop_last() =~= all.take(n));
            assert(all.take(n + 1).last() == interface);
            assert(rest@ =~= all.skip(n + 1));
        }
        match take_interface(&mut observations, interface) {
            Ok(()) => {},
            Err(error) => {
                proof {
                    ends_stay(all, n + 1);
                }
                return Err(error);
            },
        }
    }
    assert(all.take(all.len() as int) =~= all);
    Ok(observations)
}

/// The lines on one observation.
pub open spec fn observation_lines(observation: NatObservation) -> Seq<Seq<char>> {
    seq![
        "Interface: "@ + observation.bind_uri@,
        "STUN server: "@ + observation.stun_server@,
        "NAT type: "@ + observation.nat_type@,
        "External IP: "@ + observation.external_ip@,
    ]
}

/// The lines on all observations.
pub open spec fn report_lines(observations: Seq<NatObservation>) -> Seq<Seq<char>>
    decreases observations.len(),
{
    if observations.len() == 0 {
        Seq::empty()
    } else {
        report_lines(observations.drop_last()) + observation_lines(observations.last())
    }
}

fn line(label: &str, value: &String) -> (r: String)
    ensures
        r@ == label@ + value@,
{
    let mut r = label.to_owned();
    r.append(value);
    r
}

/// The report on what was seen; where nothing was, the number of interfaces is told.
pub fn diagnose_nat(observations: &Vec<NatObservation>, candidates: usize) -> (r: Result<
    Vec<String>,
    NatError,
>)
    ensures
        if observations@.len() == 0 {
            r == Err::<Vec<String>, NatError>(NatError::NoNatObservation { candidates })
        } else {
            r matches Ok(lines) && views(lines@) == report_lines(observations@)
        },
{
    if observations.len() == 0 {
        return Err(NatError::NoNatObservation { candidates });
    }
    let mut lines: Vec<String> = Vec::new();
    let mut i: usize = 0;
    assert(observations@.take(0) =~= Seq::empty());
    assert(views(lines@) =~= Seq::empty());
    while i < observations.len()
        invariant
            i <= observations@.len(),
            views(lines@) == report_lines(observations@.take(i as int)),
        decreases observations@.len() - i,
    {
        let observation = &observations[i];
        let ghost before = lines@;
        lines.push(line("Interface: ", &observation.bind_uri));
        lines.push(line("STUN server: ", &observation.stun_server));
        lines.push(line("NAT type: ", &observation.nat_type));
        lines.push(line("External IP: ", &observation.external_ip));
        proof {
            let taken = observations@.take(i + 1);
            assert(taken.drop_last() =~= observations@.take(i as int));
            assert(taken.last() == observation);
            assert(views(lines@) =~= views(before) + observation_lines(*observation));
        }
        i += 1;
    }
    assert(observations@.take(i as int) =~= observations@);
    Ok(lines)
}

/// An interface that is passed over changes nothing.
pub proof fn silent_interfaces_do_not_matter(
    interfaces: Seq<Result<Vec<NatObservation>, NatError>>,
    error: NatError,
)
    requires
        error.passed_over(),
    ensures
        gathered(interfaces.push(Err(error))) == gathered(interfaces),
{
    assert(interfaces.push(Err(error)).drop_last() =~= interfaces);
}

/// The report tells every observation, one after the other, in four lines: its interface, the
/// server that saw it, the kind of the network and the address.
pub proof fn every_observation_is_told(observations: Seq<NatObservation>, i: int)
    requires
        0 <= i < observations.len(),
    ensures
        report_lines(observations).len() == 4 * observations.len(),
        report_lines(observations)[4 * i] == "Interface: "@ + observations[i].bind_uri@,
        report_lines(observations)[4 * i + 1] == "STUN server: "@ + observations[i].stun_server@,
        report_lines(observations)[4 * i + 2] == "NAT type: "@ + observations[i].nat_type@,
        report_lines(observations)[4 * i + 3] == "External IP: "@ + observations[i].external_ip@,
    decreases observations.len(),
{
    let before = observations.drop_last();
    if i < before.len() {
        every_observation_is_told(before, i);
    } else if before.len() > 0 {
        every_observation_is_told(before, 0);
    }
}

/// The answers of the servers are kept one by one where all of them succeeded; otherwise the
/// first failure is what is told.
pub proof fn first_failures_count(answers: Seq<Result<NatObservation, NatError>>, i: int)
    requires
        0 <= i < answers.len(),
    ensures
        match all_or_first_failure(answers) {
            Ok(seen) => seen.len() == answers.len() && answers[i] == Ok::<NatObservation, NatError>(
                seen[i],
            ),
            Err(error) => exists|k: int|
                0 <= k < answers.len() && #[trigger] answers[k] == Err::<NatObservation, NatError>(
                    error,
                ) && forall|j: int| 0 <= j < k ==> (#[trigger] answers[j]) is Ok,
        },
    decreases answers.len(),
{
    let before = answers.drop_last();
    if before.len() > 0 {
        let k = if i < before.len() {
            i
        } else {
            0
        };
        first_failures_count(before, k);
        match all_or_first_failure(before) {
            Err(error) => {
                let k = choose|k: int|
                    0 <= k < before.len() && #[trigger] before[k] == Err::<NatObservation, NatError>(
                        error,
                    ) && forall|j: int| 0 <= j < k ==> (#[trigger] before[j]) is Ok;
                assert(answers[k] == before[k]);
                assert forall|j: int| 0 <= j < k implies (#[trigger] answers[j]) is Ok by {
                    assert(answers[j] == before[j]);
                }
            },
            Ok(seen) => {
                assert forall|j: int| 0 <= j < before.len() implies (#[trigger] answers[j])
                    is Ok by {
                    first_failures_count(before, j);
                    assert(answers[j] == before[j]);
                }
                assert(answers[before.len() as int] == answers.last());
            },
        }
    } else {
        assert(all_or_first_failure(before) == Ok::<Seq<NatObservation>, NatError>(Seq::empty()));
        assert(answers[0] == answers.last());
    }
}

/// What the interfaces show stands behind each other in their order, up to the first failure
/// that is more than a missing client or server.
pub proof fn interfaces_are_gathered_in_order(
    first: Seq<Result<Vec<NatObservation>, NatError>>,
    second: Seq<Result<Vec<NatObservation>, NatError>>,
    one: Result<Vec<NatObservation>, NatError>,
)
    ensures
        gathered(seq![one]) == (match one {
            Ok(shown) => Ok::<Seq<NatObservation>, NatError>(shown@),
            Err(NatError::NoStunClients { .. }) => Ok(Seq::empty()),
            Err(NatError::NoStunAgent { .. }) => Ok(Seq::empty()),
            Err(error) => Err(error),
        }),
        gathered(first + second) == (match (gathered(first), gathered(second)) {
            (Err(error), _) => Err::<Seq<NatObservation>, NatError>(error),
            (Ok(_), Err(error)) => Err(error),
            (Ok(shown), Ok(more)) => Ok(shown + more),
        }),
        gathered(Seq::empty()) == Ok::<Seq<NatObservation>, NatError>(Seq::empty()),
    decreases second.len(),
{
    let alone = seq![one];
    assert(alone.drop_last() =~= Seq::empty());
    assert(alone.last() == one);
    assert(gathered(alone.drop_last()) == Ok::<Seq<NatObservation>, NatError>(Seq::empty()));
    assert(one matches Ok(shown) ==> Seq::<NatObservation>::empty() + shown@ =~= shown@);
    if second.len() == 0 {
        assert(first + second =~= first);
        assert(gathered(first) matches Ok(shown) ==> shown + Seq::<NatObservation>::empty()
            =~= shown);
    } else {
        interfaces_are_gathered_in_order(first, second.drop_last(), one);
        assert((first + second).drop_last() =~= first + second.drop_last());
        assert((first + second).last() == second.last());
        match (gathered(first), gathered(second.drop_last()), second.last()) {
            (Ok(shown), Ok(more), Ok(last)) => {
                assert((shown + more) + last@ =~= shown + (more + last@));
            },
            (_, _, _) => {},
        }
    }
}

} // verus!
