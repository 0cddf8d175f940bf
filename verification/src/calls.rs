//! Zome calls made on behalf of the logic, and what their answers decide.
use vstd::prelude::*;

use hdk::prelude::{SerializedBytesError, ZomeCallResponse};

use crate::errors::{CallPurpose, GuestError, ZomeError};
use crate::hashes::AgentKey;
use crate::effects::{added, extends, lemma_added_joins, lemma_nothing_added, lemma_one_added, lemma_whole};
use crate::host::{self, HostEvent, HostLog};
use crate::registry::keys_of;
use crate::requests::{call_request, grant_request, CallRequest};
use crate::types::{CallOutcome, CallTarget};

verus! {

/// Wraps an error of encoding or decoding a payload.
pub fn serialization_error(e: SerializedBytesError) -> (res: ZomeError)
    ensures
        res == ZomeError::Serialization(e),
{
    ZomeError::Serialization(e)
}

/// The response to a single call: the first of the responses the host gave, or
/// an error when it gave none.
pub fn single_response(responses: Vec<ZomeCallResponse>) -> (res: Result<ZomeCallResponse, ZomeError>)
    ensures
        responses@.len() == 0 ==> res == Err::<ZomeCallResponse, ZomeError>(ZomeError::Guest(GuestError::NoCallResponse)),
        responses@.len() > 0 ==> res == Ok::<ZomeCallResponse, ZomeError>(responses@[0]),
{
    let mut responses = responses;
    if responses.len() == 0 {
        Err(ZomeError::Guest(GuestError::NoCallResponse))
    } else {
        Ok(responses.remove(0))
    }
}

/// What a call's answer means for the caller: the returned bytes when the
/// function ran, otherwise a failure that names the purpose of the call and
/// carries the response.
pub open spec fn call_answer(purpose: CallPurpose, outcome: CallOutcome, response: ZomeCallResponse) -> Result<Vec<u8>, ZomeError> {
    match outcome {
        CallOutcome::Answered(b) => Ok(b),
        _ => Err(ZomeError::Guest(GuestError::CallFailed(purpose, response))),
    }
}

/// What a call's answer means for the caller (`call_answer`).
pub fn call_result(purpose: CallPurpose, outcome: CallOutcome, response: ZomeCallResponse) -> (res: Result<Vec<u8>, ZomeError>)
    ensures
        res == call_answer(purpose, outcome, response),
{
    match outcome {
        CallOutcome::Answered(b) => Ok(b),
        _ => Err(ZomeError::Guest(GuestError::CallFailed(purpose, response))),
    }
}

/// Whether `t` holds exactly the events of one zome call: the `call`, then,
/// when the host gave responses, the reading of the first one.
pub open spec fn call_complete(t: Seq<HostEvent>) -> bool {
    t.len() >= 1 && (t[0] matches HostEvent::Call(_, answer) && match answer {
        Err(_) => t.len() == 1,
        Ok(responses) => if responses@.len() == 0 {
            t.len() == 1
        } else {
            t.len() == 2 && (t[1] matches HostEvent::ReadResponse(response, _) && response == responses@[0])
        },
    })
}

/// The request of the call whose events start `t`.
pub open spec fn sent(t: Seq<HostEvent>) -> CallRequest {
    match t[0] {
        HostEvent::Call(request, _) => request,
        _ => arbitrary(),
    }
}

/// What the call whose events are `t` gives: the host's error; "no response"
/// when there was none; otherwise what the first response says
/// (`call_answer`, under the request's purpose).
pub open spec fn call_outcome_of(t: Seq<HostEvent>) -> Result<Vec<u8>, ZomeError> {
    match t[0] {
        HostEvent::Call(request, Err(x)) => Err(ZomeError::Host(x)),
        HostEvent::Call(request, Ok(responses)) => if responses@.len() == 0 {
            Err(ZomeError::Guest(GuestError::NoCallResponse))
        } else {
            match t[1] {
                HostEvent::ReadResponse(response, outcome) => call_answer(request.purpose, outcome, response),
                _ => arbitrary(),
            }
        },
        _ => arbitrary(),
    }
}

/// The result of a call made for its effect: success exactly when the
/// call's outcome is.
pub open spec fn effect_of(r: Result<Vec<u8>, ZomeError>) -> Result<(), ZomeError> {
    match r {
        Ok(_) => Ok(()),
        Err(e) => Err(e),
    }
}

/// Makes the requested call: one `call` of the request and the reading of its
/// first response (`call_complete`); succeeds with the returned bytes when the
/// callee ran the function, and otherwise fails as `call_outcome_of` says.
pub fn call_zome(request: &CallRequest, log: &mut HostLog) -> (res: Result<Vec<u8>, ZomeError>)
    ensures
        extends(old(log)@, final(log)@),
        call_complete(added(old(log)@, final(log)@)),
        sent(added(old(log)@, final(log)@)) == *request,
        res == call_outcome_of(added(old(log)@, final(log)@)),
{
    let ghost l0 = log@;
    let answer = host::call(request, log);
    let ghost l1 = log@;
    proof {
        lemma_one_added(l0, HostEvent::Call(*request, answer));
    }
    let responses = match answer {
        Ok(responses) => responses,
        Err(x) => {
            return Err(ZomeError::Host(x));
        },
    };
    if responses.len() == 0 {
        return Err(ZomeError::Guest(GuestError::NoCallResponse));
    }
    let ghost first = responses@[0];
    let response = single_response(responses)?;
    let outcome = host::call_outcome(&response, log);
    proof {
        lemma_one_added(l1, HostEvent::ReadResponse(response, outcome));
        lemma_added_joins(l0, l1, log@);
        assert(added(l0, log@)[1] == HostEvent::ReadResponse(response, outcome));
    }
    call_result(request.purpose, outcome, response)
}

/// Makes the requested call for its effect (`call_zome`): succeeds exactly
/// when the callee ran the function.
pub fn forward_call(request: &CallRequest, log: &mut HostLog) -> (res: Result<(), ZomeError>)
    ensures
        extends(old(log)@, final(log)@),
        call_complete(added(old(log)@, final(log)@)),
        sent(added(old(log)@, final(log)@)) == *request,
        res == effect_of(call_outcome_of(added(old(log)@, final(log)@))),
{
    match call_zome(request, log) {
        Ok(_) => Ok(()),
        Err(e) => Err(e),
    }
}

/// The events of forwarding a call for its effect: one call
/// (`call_complete`) of the named function of the named zome at `target`, with
/// `payload`, under `purpose`; the result is the call's (`effect_of`).
pub open spec fn forward_run(
    target: CallTarget,
    zome: Seq<char>,
    function: Seq<char>,
    payload: Seq<u8>,
    purpose: CallPurpose,
    t: Seq<HostEvent>,
    res: Result<(), ZomeError>,
) -> bool {
    &&& call_complete(t)
    &&& sent(t).target == target
    &&& sent(t).zome@ == zome
    &&& sent(t).function@ == function
    &&& sent(t).payload@ == payload
    &&& sent(t).purpose == purpose
    &&& res == effect_of(call_outcome_of(t))
}

/// The names of the given functions.
pub open spec fn names_of(functions: Seq<&'static str>) -> Seq<Seq<char>> {
    functions.map_values(|f: &'static str| f@)
}

/// The events of opening functions of the calling zome to every agent: one
/// `zome_info`, then, when it answers, one `create_cap_grant` under `tag` of
/// the named functions of the zome of that name; the host's answers give the
/// result.
pub open spec fn grant_run(tag: Seq<char>, functions: Seq<Seq<char>>, t: Seq<HostEvent>, res: Result<(), ZomeError>) -> bool {
    t.len() >= 1 && (t[0] matches HostEvent::ZomeInfo(a) && match a {
        Err(x) => t.len() == 1 && res == Err::<(), ZomeError>(ZomeError::Host(x)),
        Ok(info) => t.len() == 2 && (t[1] matches HostEvent::Grant(g, answer) && g.tag@ == tag && g.zome@ == info.name@
            && names_of(g.functions@) == functions && match answer {
            Ok(_) => res is Ok,
            Err(x) => res == Err::<(), ZomeError>(ZomeError::Host(x)),
        }),
    })
}

/// A grant that was made opens the calling zome itself: whatever name
/// `zome_info` gives, the grant lists the named functions of the zome of that
/// name, under `tag`.
pub proof fn law_grant_opens_the_callers_zome(tag: Seq<char>, functions: Seq<Seq<char>>, t: Seq<HostEvent>, res: Result<(), ZomeError>)
    requires
        grant_run(tag, functions, t, res),
        res is Ok,
    ensures
        t.len() == 2,
        t[0] matches HostEvent::ZomeInfo(Ok(info)) && (t[1] matches HostEvent::Grant(g, Ok(_)) && g.zome@ == info.name@
            && g.tag@ == tag && g.functions@.len() == functions.len()
            && forall|i: int| 0 <= i < functions.len() ==> #[trigger] g.functions@[i]@ == functions[i]),
{
    if let HostEvent::Grant(g, _) = t[1] {
        assert forall|i: int| 0 <= i < functions.len() implies #[trigger] g.functions@[i]@ == functions[i] by {
            assert(names_of(g.functions@)[i] == g.functions@[i]@);
        }
    }
}

/// Opens `functions` of the calling zome to every agent, under `tag`
/// (`grant_run`).
pub fn grant_to_all(tag: &str, functions: Vec<&'static str>, log: &mut HostLog) -> (res: Result<(), ZomeError>)
    ensures
        extends(old(log)@, final(log)@),
        grant_run(tag@, names_of(functions@), added(old(log)@, final(log)@), res),
{
    let ghost l0 = log@;
    let ghost names = names_of(functions@);
    let answer = host::current_zome_info(log);
    let ghost l1 = log@;
    proof {
        lemma_one_added(l0, HostEvent::ZomeInfo(answer));
    }
    let zome = match answer {
        Ok(info) => info,
        Err(x) => {
            return Err(ZomeError::Host(x));
        },
    };
    let grant = grant_request(tag, zome.name.as_str(), functions);
    let done = host::create_cap_grant(&grant, log);
    proof {
        lemma_one_added(l1, HostEvent::Grant(grant, done));
        lemma_added_joins(l0, l1, log@);
    }
    match done {
        Ok(_) => Ok(()),
        Err(x) => Err(ZomeError::Host(x)),
    }
}

/// A forwarded call succeeds exactly when the callee ran the function: the
/// result is a success exactly when the response read is an answer with the
/// function's return value.
pub proof fn law_forward_succeeds_only_when_the_callee_ran(
    target: CallTarget,
    zome: Seq<char>,
    function: Seq<char>,
    payload: Seq<u8>,
    purpose: CallPurpose,
    t: Seq<HostEvent>,
    res: Result<(), ZomeError>,
)
    requires
        forward_run(target, zome, function, payload, purpose, t, res),
    ensures
        res is Ok <==> (t.len() == 2 && (t[1] matches HostEvent::ReadResponse(_, CallOutcome::Answered(_)))),
{
}

/// The agent on whose behalf the running zome call executes: one `call_info`,
/// whose answer is the result.
pub fn calling_agent(log: &mut HostLog) -> (res: Result<AgentKey, ZomeError>)
    ensures
        extends(old(log)@, final(log)@),
        added(old(log)@, final(log)@).len() == 1,
        added(old(log)@, final(log)@)[0] matches HostEvent::CallInfo(answer) && match answer {
            Ok(k) => res matches Ok(r) && r@ == k@,
            Err(x) => res == Err::<AgentKey, ZomeError>(ZomeError::Host(x)),
        },
{
    let ghost l0 = log@;
    let answer = host::call_provenance(log);
    proof {
        lemma_one_added(l0, HostEvent::CallInfo(answer));
    }
    match answer {
        Ok(k) => Ok(k),
        Err(x) => Err(ZomeError::Host(x)),
    }
}

/// The call of `ping` in the zome named `zome` of `provider`, with the given
/// (unit) payload.
pub fn ping_request(provider: &AgentKey, zome: &str, payload: Vec<u8>) -> (res: CallRequest)
    ensures
        res.target matches CallTarget::Agent(k) && k@ == provider@,
        res.zome@ == zome@,
        res.function@ == "ping"@,
        res.payload == payload,
        res.purpose == CallPurpose::Ping,
{
    call_request(CallTarget::Agent(provider.duplicate()), zome, "ping", payload, CallPurpose::Ping)
}

/// The request is the ping of the agent `provider` in the zome named `zome`,
/// carrying the unit value.
pub open spec fn is_ping(request: CallRequest, provider: Seq<u8>, zome: Seq<char>) -> bool {
    &&& request.target matches CallTarget::Agent(k) && k@ == provider
    &&& request.zome@ == zome
    &&& request.function@ == "ping"@
    &&& request.payload@ == seq![0xc0u8]
    &&& request.purpose == CallPurpose::Ping
}

/// The events of pinging `provider`: one `zome_info`; when it answers, the
/// encoding of the unit payload (which may fail, with no further event), then
/// the ping call (`call_complete`, `is_ping` in the zome of the caller's name).
/// The answer is whether the ping's function ran; a failure of the call other
/// than the callee's answer is the error.
pub open spec fn ping_run(provider: Seq<u8>, t: Seq<HostEvent>, res: Result<bool, ZomeError>) -> bool {
    t.len() >= 1 && (t[0] matches HostEvent::ZomeInfo(a) && match a {
        Err(x) => t.len() == 1 && res == Err::<bool, ZomeError>(ZomeError::Host(x)),
        Ok(info) => {
            ||| t.len() == 1 && res matches Err(ZomeError::Serialization(_))
            ||| call_complete(t.skip(1)) && is_ping(sent(t.skip(1)), provider, info.name@) && match call_outcome_of(t.skip(1)) {
                Ok(_) => res == Ok::<bool, ZomeError>(true),
                Err(ZomeError::Guest(GuestError::CallFailed(_, _))) => res == Ok::<bool, ZomeError>(false),
                Err(e) => res == Err::<bool, ZomeError>(e),
            }
        },
    })
}

/// Whether an agent answers a call of `ping` in its zome of the calling zome's
/// name (`ping_run`).
pub fn answers_ping(provider: &AgentKey, log: &mut HostLog) -> (res: Result<bool, ZomeError>)
    ensures
        extends(old(log)@, final(log)@),
        ping_run(provider@, added(old(log)@, final(log)@), res),
{
    let ghost l0 = log@;
    let answer = host::current_zome_info(log);
    let ghost l1 = log@;
    proof {
        lemma_one_added(l0, HostEvent::ZomeInfo(answer));
    }
    let zome = match answer {
        Ok(info) => info,
        Err(x) => {
            return Err(ZomeError::Host(x));
        },
    };
    let payload = match host::encode_unit() {
        Ok(p) => p,
        Err(e) => {
            return Err(ZomeError::Serialization(e));
        },
    };
    let request = ping_request(provider, zome.name.as_str(), payload);
    let called = call_zome(&request, log);
    proof {
        lemma_added_joins(l0, l1, log@);
    }
    match called {
        Ok(_) => Ok(true),
        Err(ZomeError::Guest(GuestError::CallFailed(p, r))) => Ok(false),
        Err(e) => Err(e),
    }
}

/// What follows a ping of the provider at `index` of `count`.
#[derive(Debug, Clone, Copy, PartialEq, Eq)]
pub enum PingStep {
    /// The provider at this index answered: it is the one.
    Found(usize),
    /// Ping the provider at this index next.
    Next(usize),
    /// No provider answered.
    Exhausted,
}

/// The step after pinging the provider at `index` of `count`, in list order:
/// stop at it when it answered, otherwise go on to the next one, if any.
pub open spec fn ping_step(index: int, count: int, answered: bool) -> PingStep {
    if answered {
        PingStep::Found(index as usize)
    } else if index + 1 < count {
        PingStep::Next((index + 1) as usize)
    } else {
        PingStep::Exhausted
    }
}

/// The step after pinging the provider at `index` of `count` (`ping_step`).
pub fn after_ping(index: usize, count: usize, answered: bool) -> (res: PingStep)
    requires
        index < count,
    ensures
        res == ping_step(index as int, count as int, answered),
{
    if answered {
        PingStep::Found(index)
    } else if index + 1 < count {
        PingStep::Next(index + 1)
    } else {
        PingStep::Exhausted
    }
}

/// Where pinging ends when it starts at `index` and the providers answer as
/// `answers` says: the index of the provider it stops at, if any.
pub open spec fn pings_from(answers: Seq<bool>, index: int) -> Option<int>
    decreases answers.len() - index,
{
    if 0 <= index < answers.len() {
        match ping_step(index, answers.len() as int, answers[index]) {
            PingStep::Found(i) => Some(i as int),
            PingStep::Next(i) => if index < i < answers.len() { pings_from(answers, i as int) } else { None },
            PingStep::Exhausted => None,
        }
    } else {
        None
    }
}

/// Pinging in list order picks the first provider that answers: when the
/// answers are known, the steps of `ping_step` (the steps `pings_run` takes
/// through the pings) started at `index` stop at a provider that answered and
/// before which none did, and reach no provider only when none from `index`
/// on answered.
pub proof fn law_first_answering_provider_is_picked(answers: Seq<bool>, index: int)
    requires
        0 <= index <= answers.len(),
        answers.len() <= usize::MAX,
    ensures
        pings_from(answers, index) matches Some(i) ==> (index <= i < answers.len() && answers[i]
            && forall|j: int| index <= j < i ==> !#[trigger] answers[j]),
        pings_from(answers, index) is None ==> forall|j: int| index <= j < answers.len() ==> !#[trigger] answers[j],
    decreases answers.len() - index,
{
    if index < answers.len() {
        law_first_answering_provider_is_picked(answers, index + 1);
        if answers[index] {
            assert(pings_from(answers, index) == Some(index));
        } else if index + 1 < answers.len() {
            assert(pings_from(answers, index) == pings_from(answers, index + 1));
            if let Some(i) = pings_from(answers, index + 1) {
                assert forall|j: int| index <= j < i implies !#[trigger] answers[j] by {
                    if j > index {
                        assert(index + 1 <= j < i);
                    }
                }
            } else {
                assert forall|j: int| index <= j < answers.len() implies !#[trigger] answers[j] by {
                    if j > index {
                        assert(index + 1 <= j < answers.len());
                    }
                }
            }
        } else {
            assert(pings_from(answers, index) is None);
            assert forall|j: int| index <= j < answers.len() implies !#[trigger] answers[j] by {
                assert(j == index);
            }
        }
    }
}

/// The events of pinging the providers `keys` from the one at `index` on, in
/// list order, each as `ping_run` says, going on as `ping_step` says: the
/// result is the index of the first that answered, nothing when none did, or
/// the first error.
pub open spec fn pings_run(keys: Seq<Seq<u8>>, index: int, t: Seq<HostEvent>, res: Result<Option<int>, ZomeError>) -> bool
    decreases keys.len() - index,
{
    if index < 0 || index >= keys.len() {
        t.len() == 0 && res == Ok::<Option<int>, ZomeError>(None)
    } else {
        exists|k: int, r: Result<bool, ZomeError>| 0 <= k <= t.len() && #[trigger] ping_run(keys[index], t.take(k), r)
            && match r {
            Err(e) => k == t.len() && res == Err::<Option<int>, ZomeError>(e),
            Ok(answered) => match ping_step(index, keys.len() as int, answered) {
                PingStep::Found(_) => k == t.len() && res == Ok::<Option<int>, ZomeError>(Some(index)),
                PingStep::Next(_) => pings_run(keys, index + 1, t.skip(k), res),
                PingStep::Exhausted => k == t.len() && res == Ok::<Option<int>, ZomeError>(None),
            },
        }
    }
}

/// The events of picking the first available of the providers `keys`
/// (`pings_run` from the first), and the provider it gives.
pub open spec fn pick_run(keys: Seq<Seq<u8>>, t: Seq<HostEvent>, res: Result<Option<AgentKey>, ZomeError>) -> bool {
    exists|r: Result<Option<int>, ZomeError>| #[trigger] pings_run(keys, 0, t, r) && match r {
        Err(e) => res == Err::<Option<AgentKey>, ZomeError>(e),
        Ok(None) => res == Ok::<Option<AgentKey>, ZomeError>(None),
        Ok(Some(i)) => 0 <= i < keys.len() && (res matches Ok(Some(p)) && p@ == keys[i]),
    }
}

/// The events `seg` are one ping of the agent `provider`: a `zome_info` that
/// named the calling zome, then a call of `ping` at the agent, addressed to the
/// zome of that same name; `answered` tells whether the pinged function ran
/// (the call came back with its return value) or the call failed with the
/// callee's response.
pub open spec fn pinged(provider: Seq<u8>, seg: Seq<HostEvent>, answered: bool) -> bool {
    seg.len() >= 2 && match seg[0] {
        HostEvent::ZomeInfo(Ok(info)) => {
            let call = seg.skip(1);
            &&& call_complete(call)
            &&& (sent(call).target matches CallTarget::Agent(k) && k@ == provider)
            &&& sent(call).zome@ == info.name@
            &&& sent(call).function@ == "ping"@
            &&& if answered {
                call_outcome_of(call) is Ok
            } else {
                call_outcome_of(call) matches Err(ZomeError::Guest(GuestError::CallFailed(_, _)))
            }
        },
        _ => false,
    }
}

/// Somewhere in the events `t` there is a ping of `provider` that was
/// answered (`answered`) or not.
pub open spec fn pinged_in(provider: Seq<u8>, t: Seq<HostEvent>, answered: bool) -> bool {
    exists|a: int, b: int| 0 <= a <= b <= t.len() && #[trigger] pinged(provider, t.subrange(a, b), answered)
}

/// A ping is addressed to the calling zome's own name: whatever name
/// `zome_info` gives, the ping goes to the agent's zome of that name, and the
/// answer it reports is whether the pinged function ran.
pub proof fn law_ping_goes_to_the_callers_zome(provider: Seq<u8>, t: Seq<HostEvent>, answered: bool)
    requires
        ping_run(provider, t, Ok(answered)),
    ensures
        pinged(provider, t, answered),
{
}

/// A ping found in the events after `k` is found in the whole.
pub proof fn lemma_pinged_in_rest(provider: Seq<u8>, t: Seq<HostEvent>, k: int, answered: bool)
    requires
        0 <= k <= t.len(),
        pinged_in(provider, t.skip(k), answered),
    ensures
        pinged_in(provider, t, answered),
{
    let (a, b) = choose|a: int, b: int| 0 <= a <= b <= t.skip(k).len() && #[trigger] pinged(provider, t.skip(k).subrange(a, b), answered);
    assert(t.skip(k).subrange(a, b) =~= t.subrange(a + k, b + k));
    assert(pinged(provider, t.subrange(a + k, b + k), answered));
}

/// A ping found in the first `k` events is found in the whole.
pub proof fn lemma_pinged_in_prefix(provider: Seq<u8>, t: Seq<HostEvent>, k: int, answered: bool)
    requires
        0 <= k <= t.len(),
        pinged_in(provider, t.take(k), answered),
    ensures
        pinged_in(provider, t, answered),
{
    let (a, b) = choose|a: int, b: int| 0 <= a <= b <= t.take(k).len() && #[trigger] pinged(provider, t.take(k).subrange(a, b), answered);
    assert(t.take(k).subrange(a, b) =~= t.subrange(a, b));
    assert(pinged(provider, t.subrange(a, b), answered));
}

/// Pinging from `index` on picks, by the events, the first provider whose ping
/// was answered: a picked provider was pinged and answered, every provider
/// before it was pinged and did not answer; and nothing is picked only when
/// every provider from `index` on was pinged and none answered.
pub proof fn law_pinging_picks_the_first_that_answers(keys: Seq<Seq<u8>>, index: int, t: Seq<HostEvent>, r: Result<Option<int>, ZomeError>)
    requires
        0 <= index,
        pings_run(keys, index, t, r),
    ensures
        r matches Ok(Some(j)) ==> index <= j < keys.len() && pinged_in(keys[j], t, true)
            && forall|m: int| index <= m < j ==> #[trigger] pinged_in(keys[m], t, false),
        r matches Ok(None) ==> forall|m: int| index <= m < keys.len() ==> #[trigger] pinged_in(keys[m], t, false),
    decreases keys.len() - index,
{
    if index < keys.len() {
        let (k, r0) = choose|k: int, r0: Result<bool, ZomeError>| 0 <= k <= t.len()
            && #[trigger] ping_run(keys[index], t.take(k), r0) && match r0 {
            Err(e) => k == t.len() && r == Err::<Option<int>, ZomeError>(e),
            Ok(answered) => match ping_step(index, keys.len() as int, answered) {
                PingStep::Found(_) => k == t.len() && r == Ok::<Option<int>, ZomeError>(Some(index)),
                PingStep::Next(_) => pings_run(keys, index + 1, t.skip(k), r),
                PingStep::Exhausted => k == t.len() && r == Ok::<Option<int>, ZomeError>(None),
            },
        };
        if let Ok(answered) = r0 {
            law_ping_goes_to_the_callers_zome(keys[index], t.take(k), answered);
            assert(t.take(k) =~= t.subrange(0, k));
            assert(pinged_in(keys[index], t, answered));
            if !answered && index + 1 < keys.len() {
                law_pinging_picks_the_first_that_answers(keys, index + 1, t.skip(k), r);
                if let Ok(Some(j)) = r {
                    lemma_pinged_in_rest(keys[j], t, k, true);
                    assert forall|m: int| index <= m < j implies #[trigger] pinged_in(keys[m], t, false) by {
                        if m > index {
                            assert(pinged_in(keys[m], t.skip(k), false));
                            lemma_pinged_in_rest(keys[m], t, k, false);
                        }
                    }
                }
                if let Ok(None) = r {
                    assert forall|m: int| index <= m < keys.len() implies #[trigger] pinged_in(keys[m], t, false) by {
                        if m > index {
                            assert(pinged_in(keys[m], t.skip(k), false));
                            lemma_pinged_in_rest(keys[m], t, k, false);
                        }
                    }
                }
            }
        }
    }
}

/// The provider picked is the first, in list order, whose ping was answered:
/// it is one of `keys`, its ping was answered, and every provider before it was
/// pinged and did not answer. Nothing is picked only when every provider was
/// pinged and none answered; in particular, when no ping is answered, no
/// provider is returned.
pub proof fn law_picked_provider_answered_first(keys: Seq<Seq<u8>>, t: Seq<HostEvent>, res: Result<Option<AgentKey>, ZomeError>)
    requires
        pick_run(keys, t, res),
    ensures
        res matches Ok(Some(p)) ==> exists|j: int| 0 <= j < keys.len() && keys[j] == p@ && #[trigger] pinged_in(keys[j], t, true)
            && forall|m: int| 0 <= m < j ==> #[trigger] pinged_in(keys[m], t, false),
        res matches Ok(None) ==> forall|m: int| 0 <= m < keys.len() ==> #[trigger] pinged_in(keys[m], t, false),
{
    let r = choose|r: Result<Option<int>, ZomeError>| #[trigger] pings_run(keys, 0, t, r) && match r {
        Err(e) => res == Err::<Option<AgentKey>, ZomeError>(e),
        Ok(None) => res == Ok::<Option<AgentKey>, ZomeError>(None),
        Ok(Some(i)) => 0 <= i < keys.len() && (res matches Ok(Some(p)) && p@ == keys[i]),
    };
    law_pinging_picks_the_first_that_answers(keys, 0, t, r);
    if let Ok(Some(j)) = r {
        assert(pinged_in(keys[j], t, true));
    }
}

/// The first of the given providers, in order, that answers a ping; nothing
/// when none does. Pings them one by one as `after_ping` says, and stops at
/// the first error (`pick_run`).
pub fn first_available_provider(providers: Vec<AgentKey>, log: &mut HostLog) -> (res: Result<Option<AgentKey>, ZomeError>)
    ensures
        extends(old(log)@, final(log)@),
        pick_run(keys_of(providers@), added(old(log)@, final(log)@), res),
{
    let ghost l0 = log@;
    let ghost keys = keys_of(providers@);
    proof {
        lemma_nothing_added(l0);
    }
    if providers.len() == 0 {
        proof {
            assert(pings_run(keys, 0, added(l0, log@), Ok(None)));
        }
        return Ok(None);
    }
    let mut i: usize = 0;
    proof {
        assert forall|rest: Seq<HostEvent>, r: Result<Option<int>, ZomeError>| #[trigger] pings_run(keys, 0, rest, r)
            implies pings_run(keys, 0, added(l0, log@) + rest, r) by {
            assert(added(l0, log@) + rest =~= rest);
        }
    }
    loop
        invariant
            i < providers@.len(),
            keys == keys_of(providers@),
            l0 == old(log)@,
            extends(l0, log@),
            forall|rest: Seq<HostEvent>, r: Result<Option<int>, ZomeError>| #[trigger] pings_run(keys, i as int, rest, r)
                ==> pings_run(keys, 0, added(l0, log@) + rest, r),
        decreases providers@.len() - i,
    {
        let ghost before = log@;
        let answered = answers_ping(&providers[i], log);
        let ghost p = added(before, log@);
        proof {
            lemma_added_joins(l0, before, log@);
            lemma_whole(p);
            assert(keys[i as int] == providers@[i as int]@);
        }
        let answered = match answered {
            Ok(b) => b,
            Err(e) => {
                proof {
                    assert(ping_run(keys[i as int], p.take(p.len() as int), Err(e)));
                    assert(pings_run(keys, i as int, p, Err(e)));
                    assert(added(l0, before) + p == added(l0, log@));
                }
                return Err(e);
            },
        };
        proof {
            assert(ping_run(keys[i as int], p.take(p.len() as int), Ok(answered)));
        }
        match after_ping(i, providers.len(), answered) {
            PingStep::Found(j) => {
                let found = providers[j].duplicate();
                proof {
                    assert(pings_run(keys, i as int, p, Ok(Some(i as int))));
                    assert(added(l0, before) + p == added(l0, log@));
                }
                return Ok(Some(found));
            },
            PingStep::Next(j) => {
                proof {
                    assert forall|rest: Seq<HostEvent>, r: Result<Option<int>, ZomeError>| #[trigger] pings_run(keys, j as int, rest, r)
                        implies pings_run(keys, 0, added(l0, log@) + rest, r) by {
                        assert((p + rest).take(p.len() as int) =~= p);
                        assert((p + rest).skip(p.len() as int) =~= rest);
                        assert(ping_run(keys[i as int], (p + rest).take(p.len() as int), Ok(answered)));
                        assert(pings_run(keys, i as int, p + rest, r));
                        assert(added(l0, before) + (p + rest) =~= added(l0, log@) + rest);
                    }
                }
                i = j;
            },
            PingStep::Exhausted => {
                proof {
                    assert(pings_run(keys, i as int, p, Ok(None)));
                    assert(added(l0, before) + p == added(l0, log@));
                }
                return Ok(None);
            },
        }
    }
}

} // verus!
