//! The dispatch side of the pipeline: one worker per partition, created on
//! the first record seen for it; requests enter each worker in arrival
//! order and completed records leave paired with the key they arrived
//! under, strictly in submission order.

use vstd::prelude::*;

verus! {

use crate::transformer::task::{
    answers, TransformRequest, TransformResponse, TransformTask, TransformTaskConfig,
};
use crate::transformer::{TransformError, TransformerConfig};

/// A mutable borrow of one registry entry, with the rest of the registry
/// pinned unchanged.
fn entry_at_mut(entries: &mut Vec<PartitionEntry>, i: usize) -> (element: &mut PartitionEntry)
    requires
        i < old(entries)@.len(),
    ensures
        *element == old(entries)@[i as int],
        final(entries)@ == old(entries)@.update(i as int, *final(element)),
{
    &mut entries[i]
}

/// What to do with a record that has a key but no payload: forward it to
/// the output unchanged, or drop it. The transform engine is never invoked
/// for such a record either way.
#[derive(Debug, Clone, Copy, PartialEq, Eq, Structural)]
pub enum TombstonePolicy {
    Forward,
    Drop,
}

/// Everything the pipeline for one topic pair needs: transport names, the
/// transform, the record-without-payload policy, and the per-worker queue
/// bound.
pub struct TopicProcessorConfig {
    pub kafka_brokers: String,
    pub kafka_group_id: String,
    pub input_topic: String,
    pub output_topic: String,
    pub transformer_config: TransformerConfig,
    pub tombstone_policy: TombstonePolicy,
    pub channel_capacity: usize,
}

/// True when a processor's observable state is the same in `post` as in
/// `pre`: same configuration, same registry entries.
pub open spec fn state_unchanged(pre: &TopicProcessor, post: &TopicProcessor) -> bool {
    &&& post.config == pre.config
    &&& post.entries@ == pre.entries@
}

/// True when `post` is `pre`'s entry with its worker closed and nothing
/// else touched: same partition, same queues, same logs, same pending keys.
pub open spec fn closed_in_place(pre: PartitionEntry, post: PartitionEntry) -> bool {
    &&& post.task.closed
    &&& post.partition == pre.partition
    &&& post.task.transformer == pre.task.transformer
    &&& post.task.requests == pre.task.requests
    &&& post.task.responses == pre.task.responses
    &&& post.task.capacity == pre.task.capacity
    &&& post.task.partition == pre.task.partition
    &&& post.task.submitted == pre.task.submitted
    &&& post.task.delivered == pre.task.delivered
    &&& post.pending_keys == pre.pending_keys
    &&& post.key_log == pre.key_log
}

/// A record key as the specification sees it: absent, or its bytes.
pub open spec fn key_view(key: Option<Vec<u8>>) -> Option<Seq<u8>> {
    match key {
        Some(bytes) => Some(bytes@),
        None => None,
    }
}

/// One partition's worker together with the keys of its in-flight records.
/// `pending_keys` holds, oldest first, the key of every record submitted to
/// the worker and not yet collected; `key_log` records the key of every
/// record ever submitted, in submission order.
pub struct PartitionEntry {
    pub partition: i32,
    pub task: TransformTask,
    pub pending_keys: Vec<Option<Vec<u8>>>,
    pub key_log: Ghost<Seq<Option<Seq<u8>>>>,
}

impl PartitionEntry {
    /// The entry is consistent: the worker is well-formed and belongs to
    /// this partition, and there is exactly one pending key per in-flight
    /// record, each equal to the key logged for that same submission.
    pub open spec fn wf(&self) -> bool {
        &&& self.task.wf()
        &&& self.task.partition == self.partition
        &&& self.pending_keys@.len() == self.task.in_flight()
        &&& self.key_log@.len() == self.task.submitted@.len()
        &&& (forall|i: int|
            0 <= i < self.pending_keys@.len() ==> key_view(#[trigger] self.pending_keys@[i])
                == self.key_log@[self.task.delivered@.len() + i])
    }
}

/// The outcome of handing one input record to the pipeline.
pub enum IngestOutcome {
    /// The record was queued for its partition's worker, found at `index`.
    Enqueued { index: usize },
    /// The partition's worker accepted nothing: its request queue is full
    /// (backpressure) or it is shutting down. Nothing changed, and the
    /// record comes back to be retried once the worker has drained.
    QueueFull { key: Option<Vec<u8>>, payload: Vec<u8> },
    /// A record without payload, forwarded unchanged under its key.
    TombstoneForwarded { key: Option<Vec<u8>> },
    /// A record without payload, dropped.
    TombstoneDropped,
}

/// The per-partition fan-out: a registry of workers keyed by partition,
/// grown lazily, never shrunk, with every record routed to the one worker
/// of its partition.
pub struct TopicProcessor {
    pub config: TopicProcessorConfig,
    pub entries: Vec<PartitionEntry>,
}

impl TopicProcessor {
    /// Well-formedness: every entry consistent, every worker bounded by the
    /// configured capacity, and no two entries for the same partition.
    pub open spec fn wf(&self) -> bool {
        &&& self.config.channel_capacity >= 1
        &&& (forall|i: int| 0 <= i < self.entries@.len() ==> (#[trigger] self.entries@[i]).wf())
        &&& (forall|i: int|
            0 <= i < self.entries@.len() ==> (#[trigger] self.entries@[i]).task.capacity
                == self.config.channel_capacity)
        &&& (forall|i: int, j: int|
            0 <= i < j < self.entries@.len() ==> (#[trigger] self.entries@[i]).partition != (
            #[trigger] self.entries@[j]).partition)
    }

    pub open spec fn has_partition(&self, partition: i32) -> bool {
        exists|i: int| 0 <= i < self.entries@.len() && (#[trigger] self.entries@[i]).partition
            == partition
    }

    /// A processor with no workers yet.
    pub fn new(config: TopicProcessorConfig) -> (r: TopicProcessor)
        requires
            config.channel_capacity >= 1,
        ensures
            r.wf(),
            r.config == config,
            r.entries@.len() == 0,
    {
        TopicProcessor { config, entries: Vec::new() }
    }

    /// The index of the partition's entry, if one exists.
    fn find_entry(&self, partition: i32) -> (r: Option<usize>)
        ensures
            r matches Some(i) ==> i < self.entries@.len() && self.entries@[i as int].partition
                == partition,
            r is None ==> !self.has_partition(partition),
    {
        let mut i: usize = 0;
        while i < self.entries.len()
            invariant
                i <= self.entries@.len(),
                forall|j: int|
                    0 <= j < i ==> (#[trigger] self.entries@[j]).partition != partition,
            decreases self.entries@.len() - i,
        {
            if self.entries[i].partition == partition {
                return Some(i);
            }
            i = i + 1;
        }
        None
    }

    /// Resolves the worker for a partition, creating it on the first record
    /// seen for that partition. An existing worker is returned untouched:
    /// a partition never gets a second worker. Creation fails only with a
    /// `Definition` failure, in which case no worker exists.
    pub fn get_or_create_task(&mut self, partition: i32) -> (r: Result<usize, TransformError>)
        requires
            old(self).wf(),
        ensures
            final(self).wf(),
            final(self).config == old(self).config,
            r matches Ok(i) ==> i < final(self).entries@.len() && final(self).entries@[
                i as int
            ].partition == partition,
            old(self).has_partition(partition) ==> r is Ok && *final(self) == *old(self),
            r matches Ok(i) ==> !old(self).has_partition(partition) ==> {
                &&& i == old(self).entries@.len()
                &&& final(self).entries@ == old(self).entries@.push(final(self).entries@.last())
                &&& final(self).entries@.last().task.submitted@ == Seq::<Seq<u8>>::empty()
                &&& final(self).entries@.last().task.requests@.len() == 0
                &&& final(self).entries@.last().task.responses@.len() == 0
                &&& !final(self).entries@.last().task.closed
                &&& final(self).entries@.last().key_log@ == Seq::<Option<Seq<u8>>>::empty()
            },
            r matches Err(e) ==> e is Definition && *final(self) == *old(self) && !old(
                self,
            ).has_partition(partition),
    {
        match self.find_entry(partition) {
            Some(i) => Ok(i),
            None => {
                let task_config = TransformTaskConfig::with_channel_capacity(
                    self.config.transformer_config.clone(),
                    partition,
                    self.config.channel_capacity,
                );
                let task = match TransformTask::new(task_config) {
                    Ok(t) => t,
                    Err(e) => {
                        return Err(e);
                    }
                };
                let entry = PartitionEntry {
                    partition,
                    task,
                    pending_keys: Vec::new(),
                    key_log: Ghost(Seq::empty()),
                };
                let i = self.entries.len();
                self.entries.push(entry);
                Ok(i)
            }
        }
    }

    /// Queues one record's payload for the worker at `index`, remembering
    /// its key for response pairing. When the worker's request queue is
    /// full, or the worker is closed for shutdown, nothing changes and the
    /// record comes back: the caller must drain before retrying, which is
    /// the backpressure path. No other entry is touched.
    pub fn submit_record(
        &mut self,
        index: usize,
        key: Option<Vec<u8>>,
        payload: Vec<u8>,
    ) -> (r: IngestOutcome)
        requires
            old(self).wf(),
            index < old(self).entries@.len(),
        ensures
            final(self).wf(),
            final(self).config == old(self).config,
            final(self).entries@.len() == old(self).entries@.len(),
            forall|j: int|
                0 <= j < old(self).entries@.len() && j != index ==> final(self).entries@[j]
                    == old(self).entries@[j],
            final(self).entries@[index as int].partition == old(self).entries@[
                index as int
            ].partition,
            r matches IngestOutcome::Enqueued { index: i } ==> i == index,
            (r matches IngestOutcome::Enqueued { .. }) <==> (!old(self).entries@[
                index as int
            ].task.closed && old(self).entries@[index as int].task.requests@.len() < old(
                self,
            ).config.channel_capacity),
            r matches IngestOutcome::Enqueued { .. } ==> {
                &&& final(self).entries@[index as int].task.submitted@ == old(self).entries@[
                    index as int
                ].task.submitted@.push(payload@)
                &&& final(self).entries@[index as int].key_log@ == old(self).entries@[
                    index as int
                ].key_log@.push(key_view(key))
                &&& final(self).entries@[index as int].task.delivered@ == old(self).entries@[
                    index as int
                ].task.delivered@
                &&& final(self).entries@[index as int].task.responses@ == old(self).entries@[
                    index as int
                ].task.responses@
            },
            r matches IngestOutcome::QueueFull { key: rk, payload: rp } ==> rk == key && rp
                == payload && state_unchanged(old(self), final(self)),
            !(r matches IngestOutcome::TombstoneForwarded { .. }) && !(r
                matches IngestOutcome::TombstoneDropped),
    {
        let entry = entry_at_mut(&mut self.entries, index);
        let request = TransformRequest { payload };
        match entry.task.submit(request) {
            Ok(_) => {
                proof {
                    entry.key_log@ = entry.key_log@.push(key_view(key));
                }
                entry.pending_keys.push(key);
                IngestOutcome::Enqueued { index }
            }
            Err(returned) => {
                let r = IngestOutcome::QueueFull { key, payload: returned.payload };
                proof {
                    assert(self.entries@ =~= old(self).entries@);
                }
                r
            }
        }
    }

    /// Routes one input record: resolves (or creates) the partition's
    /// worker and queues the payload under the record's key. A record with
    /// no payload never reaches a worker: it is forwarded unchanged or
    /// dropped, as configured.
    pub fn ingest(
        &mut self,
        partition: i32,
        key: Option<Vec<u8>>,
        payload: Option<Vec<u8>>,
    ) -> (r: Result<IngestOutcome, TransformError>)
        requires
            old(self).wf(),
        ensures
            final(self).wf(),
            final(self).config == old(self).config,
            forall|j: int|
                0 <= j < old(self).entries@.len() && old(self).entries@[j].partition != partition
                    ==> final(self).entries@[j] == old(self).entries@[j],
            payload is None ==> *final(self) == *old(self) && (match old(
                self,
            ).config.tombstone_policy {
                TombstonePolicy::Forward => r == Ok::<IngestOutcome, TransformError>(
                    IngestOutcome::TombstoneForwarded { key },
                ),
                TombstonePolicy::Drop => r == Ok::<IngestOutcome, TransformError>(
                    IngestOutcome::TombstoneDropped,
                ),
            }),
            payload matches Some(p) ==> match r {
                Ok(IngestOutcome::Enqueued { index }) => {
                    &&& index <= old(self).entries@.len()
                    &&& index < final(self).entries@.len()
                    &&& final(self).entries@[index as int].partition == partition
                    &&& (index < old(self).entries@.len() ==> {
                        &&& old(self).entries@[index as int].partition == partition
                        &&& final(self).entries@.len() == old(self).entries@.len()
                        &&& final(self).entries@[index as int].task.submitted@ == old(
                            self,
                        ).entries@[index as int].task.submitted@.push(p@)
                        &&& final(self).entries@[index as int].key_log@ == old(self).entries@[
                            index as int
                        ].key_log@.push(key_view(key))
                    })
                    &&& (index == old(self).entries@.len() ==> {
                        &&& !old(self).has_partition(partition)
                        &&& final(self).entries@.len() == old(self).entries@.len() + 1
                        &&& final(self).entries@[index as int].task.submitted@ == Seq::<
                            Seq<u8>,
                        >::empty().push(p@)
                        &&& final(self).entries@[index as int].key_log@ == Seq::<
                            Option<Seq<u8>>,
                        >::empty().push(key_view(key))
                    })
                },
                Ok(IngestOutcome::QueueFull { key: rk, payload: rp }) => {
                    &&& rk == key
                    &&& rp == p
                    &&& state_unchanged(old(self), final(self))
                    &&& old(self).has_partition(partition)
                    &&& (forall|j: int|
                        0 <= j < old(self).entries@.len() && old(self).entries@[j].partition
                            == partition ==> ((#[trigger] old(self).entries@[j]).task.requests@.len()
                            >= old(self).config.channel_capacity || old(
                            self,
                        ).entries@[j].task.closed))
                },
                Ok(IngestOutcome::TombstoneForwarded { .. }) => false,
                Ok(IngestOutcome::TombstoneDropped) => false,
                Err(e) => e is Definition && state_unchanged(old(self), final(self)) && !old(
                    self,
                ).has_partition(partition),
            },
    {
        let p = match payload {
            Some(p) => p,
            None => {
                match self.config.tombstone_policy {
                    TombstonePolicy::Forward => {
                        return Ok(IngestOutcome::TombstoneForwarded { key });
                    }
                    TombstonePolicy::Drop => {
                        return Ok(IngestOutcome::TombstoneDropped);
                    }
                }
            }
        };
        let index = match self.get_or_create_task(partition) {
            Ok(i) => i,
            Err(e) => {
                return Err(e);
            }
        };
        let outcome = self.submit_record(index, key, p);
        proof {
            if index < old(self).entries@.len() {
                assert forall|j: int|
                    0 <= j < old(self).entries@.len() && old(self).entries@[j].partition
                        == partition implies j == index as int by {
                    if j < index as int {
                        assert(old(self).entries@[j].partition != old(self).entries@[
                            index as int
                        ].partition);
                    } else if j > index as int {
                        assert(old(self).entries@[index as int].partition != old(self).entries@[
                            j
                        ].partition);
                    }
                }
            }
        }
        Ok(outcome)
    }

    /// Lets the worker at `index` take its oldest queued request through
    /// the engine. Returns whether any work was done; no other entry is
    /// touched.
    pub fn process_partition(&mut self, index: usize) -> (r: bool)
        requires
            old(self).wf(),
            index < old(self).entries@.len(),
        ensures
            final(self).wf(),
            final(self).config == old(self).config,
            final(self).entries@.len() == old(self).entries@.len(),
            forall|j: int|
                0 <= j < old(self).entries@.len() && j != index ==> final(self).entries@[j]
                    == old(self).entries@[j],
            final(self).entries@[index as int].partition == old(self).entries@[
                index as int
            ].partition,
            final(self).entries@[index as int].task.submitted@ == old(self).entries@[
                index as int
            ].task.submitted@,
            final(self).entries@[index as int].key_log@ == old(self).entries@[
                index as int
            ].key_log@,
            final(self).entries@[index as int].pending_keys@ == old(self).entries@[
                index as int
            ].pending_keys@,
            r == (old(self).entries@[index as int].task.requests@.len() > 0 && old(
                self,
            ).entries@[index as int].task.responses@.len() < old(self).config.channel_capacity),
            !r ==> state_unchanged(old(self), final(self)),
    {
        let entry = entry_at_mut(&mut self.entries, index);
        let worked = entry.task.process_one();
        proof {
            if !worked {
                assert(self.entries@ =~= old(self).entries@);
            }
        }
        worked
    }

    /// Begins shutdown: closes every worker's request queue. Nothing
    /// already accepted is discarded; each partition's queued work stays
    /// in place to be processed and collected, and only new submissions
    /// are refused from here on.
    pub fn shutdown(&mut self)
        requires
            old(self).wf(),
        ensures
            final(self).wf(),
            final(self).config == old(self).config,
            final(self).entries@.len() == old(self).entries@.len(),
            forall|j: int|
                0 <= j < old(self).entries@.len() ==> closed_in_place(
                    old(self).entries@[j],
                    #[trigger] final(self).entries@[j],
                ),
    {
        let mut i: usize = 0;
        while i < self.entries.len()
            invariant
                old(self).wf(),
                self.config == old(self).config,
                self.entries@.len() == old(self).entries@.len(),
                i <= self.entries@.len(),
                forall|j: int|
                    i <= j < self.entries@.len() ==> self.entries@[j] == old(self).entries@[j],
                forall|j: int|
                    0 <= j < i ==> closed_in_place(
                        old(self).entries@[j],
                        #[trigger] self.entries@[j],
                    ),
            decreases self.entries@.len() - i,
        {
            let entry = entry_at_mut(&mut self.entries, i);
            entry.task.close();
            i = i + 1;
        }
    }

    /// Takes the oldest completed response of the worker at `index`,
    /// paired with the key of the record that produced it. The pairing is
    /// exact: the response answers the oldest undelivered submission, and
    /// the key returned is the key logged for that very submission. No
    /// other entry is touched.
    pub fn collect_response(&mut self, index: usize) -> (r: Option<
        (Option<Vec<u8>>, Result<TransformResponse, TransformError>),
    >)
        requires
            old(self).wf(),
            index < old(self).entries@.len(),
        ensures
            final(self).wf(),
            final(self).config == old(self).config,
            final(self).entries@.len() == old(self).entries@.len(),
            forall|j: int|
                0 <= j < old(self).entries@.len() && j != index ==> final(self).entries@[j]
                    == old(self).entries@[j],
            final(self).entries@[index as int].partition == old(self).entries@[
                index as int
            ].partition,
            r is Some <==> old(self).entries@[index as int].task.responses@.len() > 0,
            r matches Some((k, response)) ==> {
                &&& response == old(self).entries@[index as int].task.responses@[0]
                &&& answers(
                    response,
                    old(self).entries@[index as int].task.submitted@[old(self).entries@[
                        index as int
                    ].task.delivered@.len() as int],
                )
                &&& key_view(k) == old(self).entries@[index as int].key_log@[old(
                    self,
                ).entries@[index as int].task.delivered@.len() as int]
                &&& final(self).entries@[index as int].task.delivered@ == old(self).entries@[
                    index as int
                ].task.delivered@.push(response)
                &&& final(self).entries@[index as int].task.submitted@ == old(self).entries@[
                    index as int
                ].task.submitted@
                &&& final(self).entries@[index as int].key_log@ == old(self).entries@[
                    index as int
                ].key_log@
            },
            r is None ==> state_unchanged(old(self), final(self)),
    {
        let entry = entry_at_mut(&mut self.entries, index);
        let r = match entry.task.next_response() {
            Some(response) => {
                let k = entry.pending_keys.remove(0);
                Some((k, response))
            }
            None => None,
        };
        proof {
            if r is None {
                assert(self.entries@ =~= old(self).entries@);
            }
        }
        r
    }
}

/// Law: within one partition, response pairing is positional and exact.
/// The i-th key still pending is the key logged for the i-th submission
/// not yet collected, so the single reader that drains the partition's
/// responses in FIFO order hands every response out under the key of the
/// very record that produced it, however many records are in flight.
pub proof fn lemma_response_key_pairing(entry: &PartitionEntry, i: int)
    requires
        entry.wf(),
        0 <= i < entry.pending_keys@.len(),
    ensures
        key_view(entry.pending_keys@[i]) == entry.key_log@[entry.task.delivered@.len() + i],
        entry.task.delivered@.len() + i < entry.key_log@.len(),
{
}

/// Law: the registry holds at most one worker per partition; two distinct
/// entries always serve two distinct partitions, so a record of one
/// partition can never reach another partition's worker.
pub proof fn lemma_one_worker_per_partition(processor: &TopicProcessor, i: int, j: int)
    requires
        processor.wf(),
        0 <= i < processor.entries@.len(),
        0 <= j < processor.entries@.len(),
        i != j,
    ensures
        processor.entries@[i].partition != processor.entries@[j].partition,
{
}

/// What the output stage must do with one completed record.
pub enum OutputAction {
    Publish { key: Vec<u8>, payload: Vec<u8> },
    DropFailure { message: String },
}

/// Decides the output action for one completed record: a successful
/// transform is published under the record's key (an absent key becomes
/// the empty key); a failed transform is dropped, carrying its description
/// for the log, and never reaches the output topic.
pub fn forward_decision(
    key: Option<Vec<u8>>,
    response: Result<TransformResponse, TransformError>,
) -> (r: OutputAction)
    ensures
        response matches Ok(resp) ==> (r matches OutputAction::Publish { key: k, payload: p }
            && p == resp.payload && (match key {
            Some(given) => k == given,
            None => k@ == Seq::<u8>::empty(),
        })),
        response matches Err(e) ==> (r matches OutputAction::DropFailure { message }
            && message@ == e.spec_message()),
{
    match response {
        Ok(resp) => {
            let k = match key {
                Some(given) => given,
                None => Vec::new(),
            };
            OutputAction::Publish { key: k, payload: resp.payload }
        }
        Err(e) => {
            let message = e.message().clone();
            OutputAction::DropFailure { message }
        }
    }
}

} // verus!
