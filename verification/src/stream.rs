//! The streamed answer: chunks of an array body go in, and one result for
//! each element of the array comes out, as soon as the element is complete.

use vstd::prelude::*;

use crate::client::{outcome_view, parsed_view, usable, validated, SCHEMA_MISMATCH, STATUS_OK};
use crate::errors::{GemError, GemErrorView};
use crate::framing::{frames_view, ArrayDecoder, Framing};
use crate::json::{parse_json, parsed_json, JsonTree};
use crate::response::{GenerateContentResponse, ResponseView};
use crate::wire::{decode_response, response_of};

verus! {

/// The detail of the failure that ends a stream whose bytes stop inside an
/// element.
pub const TRUNCATED: &'static str = "the stream ended inside an element";

/// The detail of the failure that ends a stream whose bytes do not frame an
/// array.
pub const MALFORMED: &'static str = "the stream does not frame an array";

/// What to do after an element that cannot be decoded.
#[derive(Debug, Clone, Copy, PartialEq, Eq, Structural)]
pub enum FailurePolicy {
    /// Report the failure and end the sequence there.
    Abort,
    /// Report the failure and go on with the next element.
    Continue,
}

/// The result for one element.
pub type Outcome = Result<ResponseView, GemErrorView>;

/// What an element means, given what the JSON parser made of its bytes: a
/// decode failure where it is no JSON or no response, else the response,
/// validated as that of a single call is.
pub open spec fn element_reading(parsed: Result<JsonTree, Seq<char>>) -> Outcome {
    match parsed {
        Err(detail) => Err(GemErrorView::StreamElementDecodeFailure(detail)),
        Ok(tree) => match response_of(tree) {
            None => Err(GemErrorView::StreamElementDecodeFailure(SCHEMA_MISMATCH@)),
            Some(response) => validated(response),
        },
    }
}

/// What the bytes of one element mean.
pub open spec fn element(frame: Seq<u8>) -> Outcome {
    element_reading(parsed_json(frame))
}

/// Whether a result says that an element could not be decoded.
pub open spec fn is_decode_failure(outcome: Outcome) -> bool {
    outcome matches Err(GemErrorView::StreamElementDecodeFailure(_))
}

/// The results for a run of elements, and whether the sequence has ended
/// after them. Each element gives one result, in order, until one cannot be
/// decoded under the policy `Abort`: its failure is the last result.
pub open spec fn deliver(policy: FailurePolicy, ended: bool, frames: Seq<Seq<u8>>) -> (
    bool,
    Seq<Outcome>,
)
    decreases frames.len(),
{
    if frames.len() == 0 {
        (ended, Seq::empty())
    } else {
        let (before, outcomes) = deliver(policy, ended, frames.drop_last());
        if before {
            (true, outcomes)
        } else {
            let outcome = element(frames.last());
            (policy == FailurePolicy::Abort && is_decode_failure(outcome), outcomes.push(outcome))
        }
    }
}

/// Where a stream stands.
pub enum Phase {
    /// Elements are still read; the scan of the body stands here.
    Reading(Framing),
    /// The sequence has ended; what arrives now is ignored.
    Ended,
}

/// What a stream holds.
pub struct StreamView {
    pub policy: FailurePolicy,
    pub phase: Phase,
}

impl StreamView {
    /// A stream that has read nothing.
    pub open spec fn start(policy: FailurePolicy) -> StreamView {
        StreamView { policy, phase: Phase::Reading(Framing::start()) }
    }

    /// Takes the next chunk: the stream after it, and the results that it
    /// gives rise to. The elements that the chunk completes are delivered in
    /// order. Where the bytes stop framing an array, one decode failure
    /// follows and the sequence ends.
    pub open spec fn advance(self, chunk: Seq<u8>) -> (StreamView, Seq<Outcome>) {
        match self.phase {
            Phase::Ended => (self, Seq::empty()),
            Phase::Reading(framing) => {
                let (scanned, frames) = framing.run(chunk);
                let (ended, outcomes) = deliver(self.policy, false, frames);
                if ended {
                    (StreamView { phase: Phase::Ended, ..self }, outcomes)
                } else if scanned.broken {
                    (
                        StreamView { phase: Phase::Ended, ..self },
                        outcomes.push(Err(GemErrorView::StreamElementDecodeFailure(MALFORMED@))),
                    )
                } else {
                    (StreamView { phase: Phase::Reading(scanned), ..self }, outcomes)
                }
            },
        }
    }

    /// The failure with which the sequence ends when the transport signals
    /// the end of the body, if it ends with one: the bytes stopped inside an
    /// element.
    pub open spec fn closing(self) -> Option<GemErrorView> {
        match self.phase {
            Phase::Ended => None,
            Phase::Reading(framing) => if framing.settled() {
                None
            } else if framing.broken {
                Some(GemErrorView::StreamElementDecodeFailure(MALFORMED@))
            } else {
                Some(GemErrorView::StreamElementDecodeFailure(TRUNCATED@))
            },
        }
    }
}

/// Once the sequence has ended, elements give no results.
pub proof fn lemma_deliver_ended(policy: FailurePolicy, frames: Seq<Seq<u8>>)
    ensures
        deliver(policy, true, frames) == (true, Seq::<Outcome>::empty()),
    decreases frames.len(),
{
    if frames.len() > 0 {
        lemma_deliver_ended(policy, frames.drop_last());
    }
}

/// Delivering two runs of elements one after the other is delivering them
/// as one run.
pub proof fn lemma_deliver_concat(
    policy: FailurePolicy,
    ended: bool,
    first: Seq<Seq<u8>>,
    second: Seq<Seq<u8>>,
)
    ensures
        deliver(policy, ended, first + second).0 == deliver(
            policy,
            deliver(policy, ended, first).0,
            second,
        ).0,
        deliver(policy, ended, first + second).1 == deliver(policy, ended, first).1 + deliver(
            policy,
            deliver(policy, ended, first).0,
            second,
        ).1,
    decreases second.len(),
{
    if second.len() > 0 {
        assert((first + second).drop_last() =~= first + second.drop_last());
        lemma_deliver_concat(policy, ended, first, second.drop_last());
    }
}

/// Where a body is cut into chunks does not matter: taking two chunks one
/// after the other leaves the stream where taking them as one chunk leaves
/// it, and gives the same results in the same order.
pub proof fn lemma_advance_concat(stream: StreamView, first: Seq<u8>, second: Seq<u8>)
    ensures
        stream.advance(first + second).0 == stream.advance(first).0.advance(second).0,
        stream.advance(first + second).1 == stream.advance(first).1 + stream.advance(
            first,
        ).0.advance(second).1,
{
    if let Phase::Reading(framing) = stream.phase {
        framing.lemma_run_concat(first, second);
        let (scanned, frames) = framing.run(first);
        let (_, more) = scanned.run(second);
        lemma_deliver_concat(stream.policy, false, frames, more);
        if deliver(stream.policy, false, frames).0 {
            lemma_deliver_ended(stream.policy, more);
        } else if scanned.broken {
            scanned.lemma_broken_is_final(second);
        }
    }
}

/// What a list of results holds.
pub open spec fn outcomes_view(outcomes: Seq<Result<GenerateContentResponse, GemError>>) -> Seq<
    Outcome,
> {
    outcomes.map_values(|outcome: Result<GenerateContentResponse, GemError>| outcome_view(outcome))
}

/// Reads one element, given what the JSON parser made of its bytes.
pub fn read_element(parsed: Result<serde_json::Value, String>) -> (outcome: Result<
    GenerateContentResponse,
    GemError,
>)
    ensures
        outcome_view(outcome) == element_reading(parsed_view(parsed)),
{
    match parsed {
        Err(detail) => Err(GemError::StreamElementDecodeFailure(detail)),
        Ok(value) => match decode_response(&value) {
            Some(response) => usable(response),
            None => Err(GemError::StreamElementDecodeFailure(SCHEMA_MISMATCH.to_owned())),
        },
    }
}

fn decode_failed(outcome: &Result<GenerateContentResponse, GemError>) -> (failed: bool)
    ensures
        failed == is_decode_failure(outcome_view(*outcome)),
{
    match outcome {
        Err(GemError::StreamElementDecodeFailure(_)) => true,
        _ => false,
    }
}

/// The lazy sequence of results of one streamed call. The transport drives
/// it: each chunk that it reads goes in, and the results that are ready come
/// out.
pub struct ResponseStream {
    decoder: ArrayDecoder,
    policy: FailurePolicy,
    ended: bool,
}

impl View for ResponseStream {
    type V = StreamView;

    closed spec fn view(&self) -> StreamView {
        StreamView {
            policy: self.policy,
            phase: if self.ended {
                Phase::Ended
            } else {
                Phase::Reading(self.decoder@)
            },
        }
    }
}

impl ResponseStream {
    /// A stream that has read nothing.
    pub fn new(policy: FailurePolicy) -> (stream: ResponseStream)
        ensures
            stream@ == StreamView::start(policy),
    {
        ResponseStream { decoder: ArrayDecoder::new(), policy, ended: false }
    }

    /// Opens the stream of a call that the service answered with `status`:
    /// a fresh stream for status 200, none for any other.
    pub fn open(status: u16, policy: FailurePolicy) -> (stream: Option<ResponseStream>)
        ensures
            match stream {
                Some(opened) => status == STATUS_OK && opened@ == StreamView::start(policy),
                None => status != STATUS_OK,
            },
    {
        if status == STATUS_OK {
            Some(ResponseStream::new(policy))
        } else {
            None
        }
    }

    /// The error of a streamed call that the service answered with another
    /// status than 200, given the body that came with it.
    pub fn rejected(status: u16, body: String) -> (error: GemError)
        ensures
            error@ == (GemErrorView::StreamSetupFailure { status, body: body@ }),
    {
        GemError::StreamSetupFailure { status, body }
    }

    /// Whether the sequence has ended.
    pub fn has_ended(&self) -> (ended: bool)
        ensures
            ended == (self@.phase is Ended),
    {
        self.ended
    }

    /// Takes the next chunk of the body and returns the results that are
    /// ready, in order.
    pub fn push_chunk(&mut self, chunk: &[u8]) -> (outcomes: Vec<
        Result<GenerateContentResponse, GemError>,
    >)
        ensures
            final(self)@ == old(self)@.advance(chunk@).0,
            outcomes_view(outcomes@) == old(self)@.advance(chunk@).1,
    {
        let mut outcomes: Vec<Result<GenerateContentResponse, GemError>> = Vec::new();
        if self.ended {
            return outcomes;
        }
        let frames = self.decoder.feed(chunk);
        let ghost all = frames_view(frames@);
        let policy = self.policy;
        let mut ended = false;
        let mut i: usize = 0;
        while i < frames.len()
            invariant
                i <= frames.len(),
                all == frames_view(frames@),
                ended == deliver(policy, false, all.subrange(0, i as int)).0,
                outcomes_view(outcomes@) == deliver(policy, false, all.subrange(0, i as int)).1,
            decreases frames.len() - i,
        {
            assert(all.subrange(0, i + 1).drop_last() =~= all.subrange(0, i as int));
            if !ended {
                let outcome = read_element(parse_json(frames[i].as_slice()));
                ended = policy == FailurePolicy::Abort && decode_failed(&outcome);
                outcomes.push(outcome);
            }
            i += 1;
        }
        assert(all.subrange(0, i as int) =~= all);
        if !ended && self.decoder.is_broken() {
            let failure: Result<GenerateContentResponse, GemError> = Err(
                GemError::StreamElementDecodeFailure(MALFORMED.to_owned()),
            );
            outcomes.push(failure);
            ended = true;
        }
        self.ended = ended;
        outcomes
    }

    /// Ends the sequence when the transport signals the end of the body.
    /// Returns the failure with which the sequence ends, if it ends with
    /// one; after this call the stream ignores what arrives.
    pub fn finish(&mut self) -> (failure: Option<GemError>)
        ensures
            failure.deep_view() == old(self)@.closing(),
            final(self)@ == (StreamView { phase: Phase::Ended, ..old(self)@ }),
    {
        if self.ended {
            return None;
        }
        self.ended = true;
        if self.decoder.is_settled() {
            None
        } else if self.decoder.is_broken() {
            Some(GemError::StreamElementDecodeFailure(MALFORMED.to_owned()))
        } else {
            Some(GemError::StreamElementDecodeFailure(TRUNCATED.to_owned()))
        }
    }
}

} // verus!
