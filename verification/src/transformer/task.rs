//! The partition worker: one transform engine behind a bounded FIFO request
//! queue and a bounded FIFO response queue.
//!
//! The worker is modelled directly: `submit` appends to the request queue
//! when there is room, `process_one` moves the oldest request through the
//! engine onto the response queue, `next_response` hands the oldest
//! response out. Two ghost logs record every payload ever submitted and
//! every response ever handed out; well-formedness ties the queues to the
//! logs, so the FIFO pairing of responses with submissions is an invariant,
//! not a convention.

use vstd::prelude::*;

verus! {

use vstd::utf8::valid_utf8;
use crate::transformer::js::JsTransformer;
use crate::transformer::{
    get_transformer, invalid_input_err, TransformError, Transformer, TransformerConfig,
};

/// One payload awaiting transformation; immutable once created.
#[derive(Clone)]
pub struct TransformRequest {
    pub payload: Vec<u8>,
}

/// One successfully transformed payload.
#[derive(Clone)]
pub struct TransformResponse {
    pub payload: Vec<u8>,
}

/// How a worker is built: which transform, for which partition, and the
/// shared bound on both of its queues.
pub struct TransformTaskConfig {
    pub transformer_config: TransformerConfig,
    pub partition: i32,
    pub channel_capacity: usize,
}

impl TransformTaskConfig {
    /// A worker configuration with an explicit queue bound.
    pub fn with_channel_capacity(
        transformer_config: TransformerConfig,
        partition: i32,
        channel_capacity: usize,
    ) -> (r: Self)
        requires
            channel_capacity >= 1,
        ensures
            r.transformer_config == transformer_config,
            r.partition == partition,
            r.channel_capacity == channel_capacity,
    {
        TransformTaskConfig { transformer_config, partition, channel_capacity }
    }

    /// A worker configuration with the default queue bound of 100.
    pub fn new(transformer_config: TransformerConfig, partition: i32) -> (r: Self)
        ensures
            r.transformer_config == transformer_config,
            r.partition == partition,
            r.channel_capacity == 100,
    {
        TransformTaskConfig { transformer_config, partition, channel_capacity: 100 }
    }
}

/// What a worker's answer must say about the payload it answers: a payload
/// that was not valid UTF-8 text is always answered with an `InvalidInput`
/// failure, no answer is ever a `Definition` failure, and a successful
/// answer always carries valid UTF-8 text.
pub open spec fn answers(r: Result<TransformResponse, TransformError>, payload: Seq<u8>) -> bool {
    &&& (!valid_utf8(payload) ==> invalid_input_err(r))
    &&& (r matches Err(e) ==> !(e is Definition))
    &&& (r matches Ok(resp) ==> valid_utf8(resp.payload@))
}

/// The worker for one partition. `submitted` logs every payload ever
/// accepted, oldest first; `delivered` logs every response ever handed
/// out. The queues hold the work in between, strictly in order.
pub struct TransformTask {
    pub transformer: JsTransformer,
    pub requests: Vec<TransformRequest>,
    pub responses: Vec<Result<TransformResponse, TransformError>>,
    pub capacity: usize,
    pub partition: i32,
    pub closed: bool,
    pub submitted: Ghost<Seq<Seq<u8>>>,
    pub delivered: Ghost<Seq<Result<TransformResponse, TransformError>>>,
}

impl TransformTask {
    /// Number of submissions whose answer has not been handed out yet.
    pub open spec fn in_flight(&self) -> nat {
        self.requests@.len() + self.responses@.len()
    }

    /// A closed worker with queued work left: it accepts nothing new but
    /// keeps answering what it already accepted.
    pub open spec fn draining(&self) -> bool {
        self.closed && self.in_flight() > 0
    }

    /// A closed worker with nothing left to do.
    pub open spec fn stopped(&self) -> bool {
        self.closed && self.in_flight() == 0
    }

    /// Well-formedness: both queues bounded by the capacity, the logs and
    /// queues consistent, every produced answer answering its submission.
    pub open spec fn wf(&self) -> bool {
        &&& self.capacity >= 1
        &&& self.requests@.len() <= self.capacity
        &&& self.responses@.len() <= self.capacity
        &&& self.submitted@.len() == self.delivered@.len() + self.in_flight()
        &&& (forall|i: int|
            0 <= i < self.delivered@.len() ==> answers(
                self.delivered@[i],
                self.submitted@[i],
            ))
        &&& (forall|i: int|
            0 <= i < self.responses@.len() ==> answers(
                self.responses@[i],
                self.submitted@[self.delivered@.len() + i],
            ))
        &&& (forall|i: int|
            0 <= i < self.requests@.len() ==> self.requests@[i].payload@ == self.submitted@[
                self.delivered@.len() + self.responses@.len() + i
            ])
    }

    /// Builds the worker for one partition: the engine is instantiated from
    /// the configured transform, both queues start empty. Every failure is
    /// a `Definition` failure and no worker exists.
    pub fn new(config: TransformTaskConfig) -> (r: Result<Self, TransformError>)
        requires
            config.channel_capacity >= 1,
        ensures
            r matches Ok(t) ==> {
                &&& t.wf()
                &&& t.capacity == config.channel_capacity
                &&& t.partition == config.partition
                &&& t.submitted@ == Seq::<Seq<u8>>::empty()
                &&& t.delivered@ == Seq::<
                    Result<TransformResponse, TransformError>,
                >::empty()
                &&& t.requests@.len() == 0
                &&& t.responses@.len() == 0
                &&& !t.closed
            },
            r matches Err(e) ==> e is Definition,
    {
        let transformer = match get_transformer(config.transformer_config) {
            Ok(t) => t,
            Err(e) => {
                return Err(e);
            }
        };
        Ok(TransformTask {
            transformer,
            requests: Vec::new(),
            responses: Vec::new(),
            capacity: config.channel_capacity,
            partition: config.partition,
            closed: false,
            submitted: Ghost(Seq::empty()),
            delivered: Ghost(Seq::empty()),
        })
    }

    /// Accepts a request if the worker is open and the request queue has
    /// room, else hands it back untouched: the caller must drain before it
    /// may enqueue more, which is how backpressure reaches the producer.
    pub fn submit(&mut self, request: TransformRequest) -> (r: Result<(), TransformRequest>)
        requires
            old(self).wf(),
        ensures
            final(self).wf(),
            r is Ok <==> !old(self).closed && old(self).requests@.len() < old(self).capacity,
            r matches Ok(_) ==> {
                &&& final(self).requests@ == old(self).requests@.push(request)
                &&& final(self).submitted@ == old(self).submitted@.push(request.payload@)
                &&& final(self).responses == old(self).responses
                &&& final(self).delivered == old(self).delivered
                &&& final(self).capacity == old(self).capacity
                &&& final(self).partition == old(self).partition
                &&& final(self).closed == old(self).closed
                &&& final(self).transformer == old(self).transformer
            },
            r matches Err(returned) ==> returned == request && *final(self) == *old(self),
    {
        if !self.closed && self.requests.len() < self.capacity {
            proof {
                self.submitted@ = self.submitted@.push(request.payload@);
            }
            self.requests.push(request);
            Ok(())
        } else {
            Err(request)
        }
    }

    /// Takes the oldest request through the engine and appends the answer
    /// to the response queue. Does nothing when there is no request to
    /// take or no room for the answer; an engine failure becomes a failed
    /// response for that one request, never a stopped worker.
    pub fn process_one(&mut self) -> (r: bool)
        requires
            old(self).wf(),
        ensures
            final(self).wf(),
            r == (old(self).requests@.len() > 0 && old(self).responses@.len() < old(
                self,
            ).capacity),
            r ==> {
                &&& final(self).requests@ == old(self).requests@.drop_first()
                &&& final(self).responses@.len() == old(self).responses@.len() + 1
                &&& final(self).responses@.take(old(self).responses@.len() as int) == old(
                    self,
                ).responses@
                &&& answers(final(self).responses@.last(), old(self).requests@[0].payload@)
                &&& final(self).submitted == old(self).submitted
                &&& final(self).delivered == old(self).delivered
                &&& final(self).capacity == old(self).capacity
                &&& final(self).partition == old(self).partition
                &&& final(self).closed == old(self).closed
            },
            !r ==> *final(self) == *old(self),
    {
        if self.requests.len() > 0 && self.responses.len() < self.capacity {
            let request = self.requests.remove(0);
            let response = match self.transformer.transform(request.payload.as_slice()) {
                Ok(payload) => Ok(TransformResponse { payload }),
                Err(e) => Err(e),
            };
            self.responses.push(response);
            proof {
                assert(self.requests@ =~= old(self).requests@.drop_first());
                assert(self.responses@.take(old(self).responses@.len() as int) =~= old(
                    self,
                ).responses@);
            }
            true
        } else {
            false
        }
    }

    /// Hands out the oldest response, if any, and logs it as delivered.
    pub fn next_response(&mut self) -> (r: Option<
        Result<TransformResponse, TransformError>,
    >)
        requires
            old(self).wf(),
        ensures
            final(self).wf(),
            r is Some <==> old(self).responses@.len() > 0,
            r matches Some(response) ==> {
                &&& response == old(self).responses@[0]
                &&& answers(response, old(self).submitted@[old(self).delivered@.len() as int])
                &&& final(self).responses@ == old(self).responses@.drop_first()
                &&& final(self).delivered@ == old(self).delivered@.push(response)
                &&& final(self).requests == old(self).requests
                &&& final(self).submitted == old(self).submitted
                &&& final(self).capacity == old(self).capacity
                &&& final(self).partition == old(self).partition
                &&& final(self).closed == old(self).closed
                &&& final(self).transformer == old(self).transformer
            },
            r is None ==> *final(self) == *old(self),
    {
        if self.responses.len() > 0 {
            let response = self.responses.remove(0);
            proof {
                self.delivered@ = self.delivered@.push(response);
                assert(self.responses@ =~= old(self).responses@.drop_first());
            }
            Some(response)
        } else {
            None
        }
    }

    /// Closes the request queue: no later submission is ever accepted, but
    /// everything already accepted stays queued and is still processed and
    /// handed out, so the worker drains rather than discards. Once the
    /// queues are empty the worker is stopped.
    pub fn close(&mut self)
        requires
            old(self).wf(),
        ensures
            final(self).wf(),
            final(self).closed,
            final(self).requests == old(self).requests,
            final(self).responses == old(self).responses,
            final(self).submitted == old(self).submitted,
            final(self).delivered == old(self).delivered,
            final(self).capacity == old(self).capacity,
            final(self).partition == old(self).partition,
            final(self).transformer == old(self).transformer,
    {
        self.closed = true;
    }
}

/// Law: a worker answers submissions strictly in the order they arrived.
/// The i-th response it ever handed out answers the i-th payload it ever
/// accepted: responses leave in exactly the order their requests came in.
pub proof fn lemma_fifo_order(task: &TransformTask)
    requires
        task.wf(),
    ensures
        task.delivered@.len() <= task.submitted@.len(),
        forall|i: int|
            0 <= i < task.delivered@.len() ==> answers(task.delivered@[i], task.submitted@[i]),
{
}

/// Law: a submission that was not valid UTF-8 is answered with an
/// `InvalidInput` failure for that one record; the submissions before and
/// after it in the log are each answered on their own terms.
pub proof fn lemma_invalid_input_is_per_record(task: &TransformTask, i: int)
    requires
        task.wf(),
        0 <= i < task.delivered@.len(),
    ensures
        !valid_utf8(task.submitted@[i]) ==> invalid_input_err(task.delivered@[i]),
{
}

} // verus!
