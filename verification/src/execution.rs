//! How a prefill is dispatched and its output stream read.

use crate::error::{seen, text, PrefillError, PrefillErrorView};
use crate::json::{as_u64, json_members, json_u64, member};
use crate::prefill_router::{InnerPrefillRouter, PrefillRouter};
use crate::protocols::{Annotated, LLMEngineOutput, PrefillResult, PromptTokensDetails, RouterTypes};
use serde_json::Value;
use std::sync::Arc;
use vstd::prelude::*;

verus! {

/// The call that sends a prefill request to a worker.
pub enum Dispatch<D: RouterTypes> {
    /// The KV-aware router generates. It takes the worker from the request itself.
    KvGenerate(Arc<D::KvPushRouter>),
    /// The simple router sends straight to this worker.
    SimpleDirect { router: Arc<D::PushRouter>, worker_id: u64 },
    /// The simple router generates on a worker of its choice.
    SimpleGenerate(Arc<D::PushRouter>),
}

impl<D: RouterTypes> InnerPrefillRouter<D> {
    /// The call that sends a request through this router, to `target_worker` if there is one.
    pub open spec fn dispatch(self, target_worker: Option<u64>) -> Dispatch<D> {
        match (self, target_worker) {
            (InnerPrefillRouter::KvRouter(router), _) => Dispatch::KvGenerate(router),
            (InnerPrefillRouter::SimpleRouter(router), Some(worker_id)) => Dispatch::SimpleDirect {
                router,
                worker_id,
            },
            (InnerPrefillRouter::SimpleRouter(router), None) => Dispatch::SimpleGenerate(router),
        }
    }

    /// The call that sends a request through this router, to `target_worker` if there is one.
    pub fn generate_to_worker(&self, target_worker: Option<u64>) -> (dispatch: Dispatch<D>)
        ensures
            dispatch == self.dispatch(target_worker),
    {
        match (self, target_worker) {
            (InnerPrefillRouter::KvRouter(router), _) => Dispatch::KvGenerate(router.clone()),
            (InnerPrefillRouter::SimpleRouter(router), Some(worker_id)) => Dispatch::SimpleDirect {
                router: router.clone(),
                worker_id,
            },
            (InnerPrefillRouter::SimpleRouter(router), None) => {
                Dispatch::SimpleGenerate(router.clone())
            },
        }
    }
}

/// How a prefill begins on `router`, the inner router that is current, if there is one.
pub open spec fn begin_prefill<D: RouterTypes>(
    router: Option<InnerPrefillRouter<D>>,
    target_worker: Option<u64>,
) -> Result<Dispatch<D>, PrefillError<D::Cause>> {
    match router {
        Some(inner) => Ok(inner.dispatch(target_worker)),
        None => Err(PrefillError::NotActivated),
    }
}

impl<D: RouterTypes> PrefillRouter<D> {
    /// Begins a prefill on the inner router that was current when it was asked for. There is
    /// nothing to dispatch if there was none.
    ///
    /// What came of the dispatch goes to [`check_routed`].
    pub fn execute_prefill(
        router: Option<InnerPrefillRouter<D>>,
        target_worker: Option<u64>,
    ) -> (begun: Result<Dispatch<D>, PrefillError<D::Cause>>)
        ensures
            begun == begin_prefill(router, target_worker),
    {
        match router {
            Some(inner) => Ok(inner.generate_to_worker(target_worker)),
            None => Err(PrefillError::NotActivated),
        }
    }
}

/// What a dispatch came to: `Err` holds the error with which the router refused.
///
/// Where the prefill was routed, the permit that keeps the request in its prefill phase is handed
/// back. It is held on until the first output is read, by [`PrefillStream::begin`].
pub fn check_routed<P, C>(reply: Result<(), C>, phase_permit: Option<P>) -> (routed: Result<
    Option<P>,
    PrefillError<C>,
>)
    ensures
        seen(routed) == match reply {
            Ok(_) => Ok::<Option<P>, PrefillErrorView<C>>(phase_permit),
            Err(cause) => Err(
                PrefillErrorView::PrefillError("failed to route to prefill worker"@, Some(cause)),
            ),
        },
{
    match reply {
        Ok(_) => Ok(phase_permit),
        Err(cause) => Err(
            PrefillError::PrefillError(text("failed to route to prefill worker"), Some(cause)),
        ),
    }
}

/// The prompt token details that an output holds, if any.
pub open spec fn details_of<C>(output: Annotated<C>) -> Option<PromptTokensDetails> {
    match output.data {
        Some(data) => match data.completion_usage {
            Some(usage) => usage.prompt_tokens_details,
            None => None,
        },
        None => None,
    }
}

/// The prompt token details of the first output of a stream that holds any.
pub open spec fn first_details<C>(outputs: Seq<Annotated<C>>) -> Option<PromptTokensDetails>
    decreases outputs.len(),
{
    if outputs.len() == 0 {
        None
    } else if details_of(outputs[0]) is Some {
        details_of(outputs[0])
    } else {
        first_details(outputs.drop_first())
    }
}

/// The prefill worker and its rank, from what was read under their keys. A rank is cut to its low
/// 32 bits; a missing one is zero.
pub open spec fn worker_info(worker_id: Option<u64>, dp_rank: Option<u64>) -> Option<(u64, u32)> {
    match worker_id {
        Some(id) => Some(
            (
                id,
                match dp_rank {
                    Some(rank) => (rank % 0x1_0000_0000) as u32,
                    None => 0u32,
                },
            ),
        ),
        None => None,
    }
}

/// The unsigned integer that a JSON object holds under `key`, if any.
pub open spec fn u64_member(value: Value, key: Seq<char>) -> Option<u64> {
    if json_members(value).contains_key(key) {
        json_u64(json_members(value)[key])
    } else {
        None
    }
}

/// The prefill worker and its rank that disaggregated params name, if they name a worker.
pub open spec fn named_worker(params: Value) -> Option<(u64, u32)> {
    if json_members(params).contains_key("worker_id"@) {
        let ids = json_members(params)["worker_id"@];
        worker_info(u64_member(ids, "prefill_worker_id"@), u64_member(ids, "prefill_dp_rank"@))
    } else {
        None
    }
}

/// What a prefill whose whole output stream is `outputs` comes to.
pub open spec fn prefill_answer<C>(outputs: Seq<Annotated<C>>) -> Result<
    (PrefillResult, Option<(u64, u32)>),
    PrefillErrorView<C>,
> {
    if outputs.len() == 0 {
        Err(
            PrefillErrorView::PrefillError(
                "Prefill router returned no output (stream ended)"@,
                None,
            ),
        )
    } else {
        match (outputs[0].error, outputs[0].data) {
            (Some(error), _) => Err(
                PrefillErrorView::PrefillError(
                    "Prefill router returned error in output"@,
                    Some(error),
                ),
            ),
            (None, None) => Err(
                PrefillErrorView::NoDisaggregatedParams(
                    "Prefill router output has no data field"@,
                ),
            ),
            (None, Some(data)) => match data.disaggregated_params {
                None => Err(
                    PrefillErrorView::NoDisaggregatedParams(
                        "Prefill router output missing disaggregated_params"@,
                    ),
                ),
                Some(params) => Ok(
                    (
                        PrefillResult {
                            disaggregated_params: params,
                            prompt_tokens_details: first_details(outputs),
                        },
                        named_worker(params),
                    ),
                ),
            },
        }
    }
}

/// The prefill worker and its rank, from what was read under their keys.
pub fn prefill_worker_info(worker_id: Option<u64>, dp_rank: Option<u64>) -> (info: Option<
    (u64, u32),
>)
    ensures
        info == worker_info(worker_id, dp_rank),
{
    match worker_id {
        Some(id) => {
            let rank: u32 = match dp_rank {
                Some(rank) => {
                    assert(rank as u32 == (rank % 0x1_0000_0000) as u32) by (bit_vector);
                    #[verifier::truncate]
                    (rank as u32)
                },
                None => 0,
            };
            Some((id, rank))
        },
        None => None,
    }
}

/// The unsigned integer that a JSON object holds under `key`, if any.
fn read_u64(value: &Value, key: &str) -> (number: Option<u64>)
    ensures
        number == u64_member(*value, key@),
{
    match member(value, key) {
        Some(held) => as_u64(held),
        None => None,
    }
}

/// The prefill worker and its rank that disaggregated params name, if they name a worker.
pub fn read_prefill_worker(params: &Value) -> (info: Option<(u64, u32)>)
    ensures
        info == named_worker(*params),
{
    match member(params, "worker_id") {
        Some(ids) => {
            let worker_id = read_u64(ids, "prefill_worker_id");
            let dp_rank = read_u64(ids, "prefill_dp_rank");
            prefill_worker_info(worker_id, dp_rank)
        },
        None => None,
    }
}

/// The prompt token details that an output holds, if any.
fn read_details<C>(output: &Annotated<C>) -> (details: Option<PromptTokensDetails>)
    ensures
        details == details_of(*output),
{
    match &output.data {
        Some(data) => match &data.completion_usage {
            Some(usage) => usage.prompt_tokens_details,
            None => None,
        },
        None => None,
    }
}

/// What was found in the outputs read so far, and those outputs.
struct Found<C> {
    prompt_tokens_details: Option<PromptTokensDetails>,
    outputs: Ghost<Seq<Annotated<C>>>,
}

/// A prefill output stream that is being read.
pub struct PrefillStream<C> {
    data: Option<LLMEngineOutput>,
    found: Found<C>,
}

impl<C> PrefillStream<C> {
    /// The outputs that were read so far, in order.
    pub closed spec fn outputs(self) -> Seq<Annotated<C>> {
        self.found.outputs@
    }

    #[verifier::type_invariant]
    spec fn summarizes_its_outputs(self) -> bool {
        &&& self.outputs().len() > 0
        &&& self.outputs()[0].error is None
        &&& self.data == self.outputs()[0].data
        &&& self.found.prompt_tokens_details == first_details(self.outputs())
    }

    /// Reads the first output of the stream; `None` says that the stream ended before it.
    ///
    /// The reading ends with an error here where the stream held nothing or began with an error:
    /// whatever might have followed, the prefill would come to that error.
    ///
    /// The permit that kept the request in its prefill phase is taken and dropped, so that the
    /// request can enter its decode phase before the rest of the stream is read. What dropping it
    /// sets free is up to its type, and no clause speaks of it.
    pub fn begin<P>(first: Option<Annotated<C>>, phase_permit: Option<P>) -> (begun: Result<
        PrefillStream<C>,
        PrefillError<C>,
    >)
        ensures
            match first {
                None => {
                    &&& begun is Err
                    &&& prefill_answer(Seq::<Annotated<C>>::empty()) == Err::<
                        (PrefillResult, Option<(u64, u32)>),
                        PrefillErrorView<C>,
                    >(begun->Err_0@)
                },
                Some(output) => match begun {
                    Ok(stream) => {
                        &&& output.error is None
                        &&& stream.outputs() == seq![output]
                    },
                    Err(error) => {
                        &&& output.error is Some
                        &&& forall|rest: Seq<Annotated<C>>|
                            #[trigger] prefill_answer(seq![output] + rest) == Err::<
                                (PrefillResult, Option<(u64, u32)>),
                                PrefillErrorView<C>,
                            >(error@)
                    },
                },
            },
    {
        match first {
            None => Err(
                PrefillError::PrefillError(
                    text("Prefill router returned no output (stream ended)"),
                    None,
                ),
            ),
            Some(output) => {
                let ghost whole = output;
                let prompt_tokens_details = read_details(&output);
                match output.error {
                    Some(error) => {
                        proof {
                            assert forall|rest: Seq<Annotated<C>>|
                                (#[trigger] (seq![whole] + rest))[0] == whole by {}
                        }
                        Err(
                            PrefillError::PrefillError(
                                text("Prefill router returned error in output"),
                                Some(error),
                            ),
                        )
                    },
                    None => {
                        let ghost outputs = seq![whole];
                        proof {
                            reveal_with_fuel(first_details, 2);
                        }
                        let found = Found { prompt_tokens_details, outputs: Ghost(outputs) };
                        Ok(PrefillStream { data: output.data, found })
                    },
                }
            },
        }
    }

    /// Reads one more output of the stream. Of later outputs only the prompt token details count,
    /// and only while none were found.
    pub fn read(&mut self, next: Annotated<C>)
        ensures
            final(self).outputs() == old(self).outputs().push(next),
    {
        proof {
            use_type_invariant(&*self);
            lemma_first_details_push(self.outputs(), next);
        }
        let ghost outputs = self.outputs().push(next);
        let prompt_tokens_details = if self.found.prompt_tokens_details.is_none() {
            read_details(&next)
        } else {
            self.found.prompt_tokens_details
        };
        self.found = Found { prompt_tokens_details, outputs: Ghost(outputs) };
    }

    /// Ends the reading: the stream held nothing more.
    pub fn finish(self) -> (answer: Result<(PrefillResult, Option<(u64, u32)>), PrefillError<C>>)
        ensures
            seen(answer) == prefill_answer(self.outputs()),
    {
        proof {
            use_type_invariant(&self);
        }
        let prompt_tokens_details = self.found.prompt_tokens_details;
        match self.data {
            None => Err(
                PrefillError::NoDisaggregatedParams(
                    text("Prefill router output has no data field"),
                ),
            ),
            Some(data) => match data.disaggregated_params {
                None => Err(
                    PrefillError::NoDisaggregatedParams(
                        text("Prefill router output missing disaggregated_params"),
                    ),
                ),
                Some(disaggregated_params) => {
                    let info = read_prefill_worker(&disaggregated_params);
                    Ok((PrefillResult { disaggregated_params, prompt_tokens_details }, info))
                },
            },
        }
    }
}

/// One more output changes the details found only if none were found before it.
proof fn lemma_first_details_push<C>(outputs: Seq<Annotated<C>>, next: Annotated<C>)
    ensures
        first_details(outputs.push(next)) == if first_details(outputs) is Some {
            first_details(outputs)
        } else {
            details_of(next)
        },
    decreases outputs.len(),
{
    if outputs.len() == 0 {
        reveal_with_fuel(first_details, 2);
    } else {
        assert(outputs.push(next)[0] == outputs[0]);
        assert(outputs.push(next).drop_first() =~= outputs.drop_first().push(next));
        lemma_first_details_push(outputs.drop_first(), next);
    }
}

/// The details of a stream are those of its first output that holds any: `at` is such an output
/// and none before it is one.
pub proof fn law_first_details<C>(outputs: Seq<Annotated<C>>, at: int)
    requires
        0 <= at < outputs.len(),
        details_of(outputs[at]) is Some,
        forall|i: int| 0 <= i < at ==> details_of(#[trigger] outputs[i]) is None,
    ensures
        first_details(outputs) == details_of(outputs[at]),
    decreases outputs.len(),
{
    if at > 0 {
        let rest = outputs.drop_first();
        assert(details_of(outputs[0]) is None);
        assert forall|i: int| 0 <= i < at - 1 implies details_of(#[trigger] rest[i]) is None by {
            assert(rest[i] == outputs[i + 1]);
        }
        law_first_details(rest, at - 1);
    }
}

/// A stream of which no output holds details has none.
pub proof fn law_no_details<C>(outputs: Seq<Annotated<C>>)
    requires
        forall|i: int| 0 <= i < outputs.len() ==> details_of(#[trigger] outputs[i]) is None,
    ensures
        first_details(outputs) is None,
    decreases outputs.len(),
{
    if outputs.len() > 0 {
        let rest = outputs.drop_first();
        assert(details_of(outputs[0]) is None);
        assert forall|i: int| 0 <= i < rest.len() implies details_of(#[trigger] rest[i]) is None by {
            assert(rest[i] == outputs[i + 1]);
        }
        law_no_details(rest);
    }
}

/// The first output decides what a prefill comes to. Whatever follows, even an error, changes
/// nothing but the prompt token details, and those only where the first output has none.
pub proof fn law_first_output_decides<C>(first: Annotated<C>, rest: Seq<Annotated<C>>)
    ensures
        match (prefill_answer(seq![first]), prefill_answer(seq![first] + rest)) {
            (Ok((alone, info)), Ok((result, also_info))) => {
                &&& result.disaggregated_params == alone.disaggregated_params
                &&& also_info == info
                &&& alone.prompt_tokens_details is Some ==> result == alone
            },
            (Err(alone), Err(error)) => error == alone,
            _ => false,
        },
{
    assert((seq![first] + rest)[0] == first);
    reveal_with_fuel(first_details, 2);
}

/// A prefill begins with an error exactly if there is no inner router, whether or not a worker is
/// asked for. A KV-aware router always generates itself; a simple router sends straight to the
/// worker that is asked for, and to one of its own choice where none is.
pub proof fn law_prefill_begins_on_every_router<D: RouterTypes>(
    router: Option<InnerPrefillRouter<D>>,
    target_worker: Option<u64>,
)
    ensures
        router is None <==> begin_prefill(router, target_worker) is Err,
        begin_prefill(router, target_worker) matches Err(error) ==> error is NotActivated,
        router matches Some(inner) ==> (begin_prefill(router, target_worker) matches Ok(dispatch)
            && dispatch == inner.dispatch(target_worker)),
        router matches Some(InnerPrefillRouter::KvRouter(kv)) ==> (begin_prefill(
            router,
            target_worker,
        ) matches Ok(Dispatch::KvGenerate(called)) && called == kv),
        router matches Some(InnerPrefillRouter::SimpleRouter(push)) ==> match target_worker {
            None => begin_prefill(router, target_worker) matches Ok(
                Dispatch::SimpleGenerate(called),
            ) && called == push,
            Some(asked_for) => begin_prefill(router, target_worker) matches Ok(
                Dispatch::SimpleDirect { router: called, worker_id },
            ) && called == push && worker_id == asked_for,
        },
{
}

/// An output holds token details exactly if it has data with a usage that has details, and then it
/// holds those. Neither an error beside the data nor the params play a part.
pub proof fn law_details_come_with_the_usage<C>(output: Annotated<C>, details: PromptTokensDetails)
    ensures
        output.data is None ==> details_of(output) is None,
        output.data matches Some(data) ==> match data.completion_usage {
            None => details_of(output) is None,
            Some(usage) => details_of(output) == Some(details) <==> usage.prompt_tokens_details
                == Some(details),
        },
{
}

/// A prefill succeeds exactly if its stream has a first output, without an error, that holds
/// disaggregated params. Whatever else that output holds and whatever follows, the result has these
/// params, the token details that the stream has first, and the worker that the params name.
pub proof fn law_prefill_succeeds_with_params<C>(outputs: Seq<Annotated<C>>)
    ensures
        prefill_answer(outputs) is Ok <==> {
            &&& outputs.len() > 0
            &&& outputs[0].error is None
            &&& outputs[0].data matches Some(data)
            &&& data.disaggregated_params is Some
        },
        prefill_answer(outputs) matches Ok((result, info)) ==> {
            &&& outputs[0].data matches Some(data)
            &&& data.disaggregated_params == Some(result.disaggregated_params)
            &&& result.prompt_tokens_details == first_details(outputs)
            &&& info == named_worker(result.disaggregated_params)
        },
{
}

/// A failed prefill says which of these held, the first that did: its stream was empty, began with
/// an error, had no data in its first output, or had data without params.
pub proof fn law_prefill_failure_says_why<C>(outputs: Seq<Annotated<C>>)
    ensures
        outputs.len() == 0 ==> (prefill_answer(outputs) matches Err(
            PrefillErrorView::PrefillError(what, cause),
        ) && what == "Prefill router returned no output (stream ended)"@ && cause is None),
        outputs.len() > 0 && outputs[0].error is Some ==> (prefill_answer(outputs) matches Err(
            PrefillErrorView::PrefillError(what, cause),
        ) && what == "Prefill router returned error in output"@ && cause == outputs[0].error),
        outputs.len() > 0 && outputs[0].error is None && outputs[0].data is None ==> (
        prefill_answer(outputs) matches Err(PrefillErrorView::NoDisaggregatedParams(what)) && what
            == "Prefill router output has no data field"@),
        outputs.len() > 0 && outputs[0].error is None && outputs[0].data is Some
            && outputs[0].data->0.disaggregated_params is None ==> (prefill_answer(
            outputs,
        ) matches Err(PrefillErrorView::NoDisaggregatedParams(what)) && what
            == "Prefill router output missing disaggregated_params"@),
{
}

/// A worker is known exactly if its id was read, and it is the one with that id. Its rank is what
/// was read for it, up to multiples of two to the thirty-second, and zero where nothing was.
pub proof fn law_rank_never_hides_the_worker(worker_id: Option<u64>, dp_rank: Option<u64>)
    ensures
        worker_id is None <==> worker_info(worker_id, dp_rank) is None,
        worker_info(worker_id, dp_rank) matches Some((id, rank)) ==> {
            &&& worker_id == Some(id)
            &&& dp_rank is None ==> rank == 0
            &&& dp_rank matches Some(read) ==> {
                &&& rank as int == read as int % 0x1_0000_0000
                &&& read < 0x1_0000_0000 ==> rank == read
            }
        },
{
}

/// Params name a worker exactly if they hold, under `worker_id`, an object whose
/// `prefill_worker_id` is an unsigned integer. That is the worker; its rank is the integer under
/// `prefill_dp_rank` of the same object, or zero where there is none.
pub proof fn law_params_name_the_worker(params: Value)
    ensures
        ({
            let held = json_members(params);
            let ids = json_members(held["worker_id"@]);
            let id = json_u64(ids["prefill_worker_id"@]);
            let rank = json_u64(ids["prefill_dp_rank"@]);
            &&& named_worker(params) is Some <==> held.contains_key("worker_id"@)
                && ids.contains_key("prefill_worker_id"@) && id is Some
            &&& named_worker(params) matches Some((named, at_rank)) ==> {
                &&& id == Some(named)
                &&& ids.contains_key("prefill_dp_rank"@) && rank is Some ==> at_rank as int
                    == rank->0 as int % 0x1_0000_0000
                &&& !ids.contains_key("prefill_dp_rank"@) || rank is None ==> at_rank == 0
            }
        }),
{
}

/// A member of an object is read as an integer exactly where the object holds it and it is one.
pub proof fn law_members_are_read_by_their_key(value: Value, key: Seq<char>)
    ensures
        json_members(value).contains_key(key) ==> u64_member(value, key) == json_u64(
            json_members(value)[key],
        ),
        !json_members(value).contains_key(key) ==> u64_member(value, key) is None,
{
}

} // verus!
