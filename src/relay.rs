//! The per-request state machine that reads a multipart upload. The caller
//! performs the reads that `pull` asks for and hands each outcome back as an
//! `UploadEvent`; the machine answers with what to do next. In streaming mode
//! every chunk is handed on at once; in buffered mode it is kept until the
//! last field is done and then sent as one body.
use vstd::prelude::*;
use vstd::seq_lib::lemma_flatten_concat;
use bytes::Bytes;
use crate::buffer::{bytes_contents, BufferedBody, MAX_BUFFERED};
use crate::model::{buffered_body, streamed_body, streaming_matches_buffered};

verus! {

/// How the upload is forwarded.
#[derive(Clone, Copy, PartialEq, Eq, Debug, Structural)]
pub enum TransferMode {
    Buffered,
    Streaming,
}

/// Where the reading of an upload stands.
#[derive(Clone, Copy, PartialEq, Eq, Debug, Structural)]
pub enum Phase {
    AwaitingField,
    InField,
    Completed,
    Failed,
}

/// What the caller has to read next from the incoming body.
#[derive(Clone, Copy, PartialEq, Eq, Debug, Structural)]
pub enum Pull {
    NextField,
    NextChunk,
    Nothing,
}

/// The outcome of one read from the incoming body.
#[derive(Debug)]
pub enum UploadEvent {
    /// A new field begins.
    FieldOpened,
    /// There are no more fields.
    FieldsExhausted,
    /// The next chunk of the current field.
    Chunk(Vec<u8>),
    /// The current field has no more chunks.
    FieldEnded,
    /// The read failed; the text describes why.
    ReadFailed(String),
}

/// What the caller does next.
#[derive(Debug)]
pub enum RelayStep {
    /// Read what `pull` asks for.
    Continue,
    /// Hand this chunk on downstream, then read what `pull` asks for.
    Emit(Vec<u8>),
    /// The buffered body is complete: take it with `into_body` and send it.
    Send,
    /// The streamed body is complete: end the outgoing stream.
    Finished,
    /// The upload failed: end the outgoing stream, or the request, with this
    /// error.
    Fail(String),
}

/// Description of a failure caused by events that do not fit the phase.
pub const OUT_OF_ORDER: &'static str = "multipart body read out of order";

/// Description of a failure caused by a body too large to hold in memory.
pub const TOO_LARGE: &'static str = "multipart body too large to buffer";

/// Whether an event is one that the phase waits for.
pub open spec fn accepts(phase: Phase, event: UploadEvent) -> bool {
    match event {
        UploadEvent::FieldOpened | UploadEvent::FieldsExhausted => phase == Phase::AwaitingField,
        UploadEvent::Chunk(_) | UploadEvent::FieldEnded => phase == Phase::InField,
        UploadEvent::ReadFailed(_) => phase == Phase::AwaitingField || phase == Phase::InField,
    }
}

/// The upload with one more chunk at the end of its last field.
pub open spec fn with_chunk(fields: Seq<Seq<Seq<u8>>>, c: Seq<u8>) -> Seq<Seq<Seq<u8>>> {
    fields.update(fields.len() - 1, fields.last().push(c))
}

/// The bytes that a step hands downstream.
pub open spec fn step_bytes(step: RelayStep) -> Seq<u8> {
    match step {
        RelayStep::Emit(c) => c@,
        _ => Seq::empty(),
    }
}

proof fn lemma_streamed_with_chunk(fields: Seq<Seq<Seq<u8>>>, c: Seq<u8>)
    requires
        fields.len() > 0,
    ensures
        streamed_body(with_chunk(fields, c)) == streamed_body(fields) + c,
{
    let init = fields.drop_last();
    let last = fields.last();
    assert(fields =~= init.push(last));
    assert(with_chunk(fields, c) =~= init.push(last.push(c)));
    init.lemma_flatten_push(last);
    init.lemma_flatten_push(last.push(c));
    lemma_flatten_concat(init.flatten(), last);
    lemma_flatten_concat(init.flatten(), last.push(c));
    last.lemma_flatten_push(c);
    assert(streamed_body(with_chunk(fields, c)) =~= streamed_body(fields) + c);
}

proof fn lemma_streamed_new_field(fields: Seq<Seq<Seq<u8>>>)
    ensures
        streamed_body(fields.push(Seq::empty())) == streamed_body(fields),
{
    fields.lemma_flatten_push(Seq::empty());
    assert(fields.flatten() + Seq::<Seq<u8>>::empty() =~= fields.flatten());
}

/// Reader of one upload.
pub struct Relay {
    mode: TransferMode,
    phase: Phase,
    body: BufferedBody,
    fields: Ghost<Seq<Seq<Seq<u8>>>>,
}

impl Relay {
    pub closed spec fn mode(&self) -> TransferMode {
        self.mode
    }

    pub closed spec fn phase(&self) -> Phase {
        self.phase
    }

    /// The upload read so far: its fields, each a sequence of chunks.
    pub closed spec fn fields(&self) -> Seq<Seq<Seq<u8>>> {
        self.fields@
    }

    pub closed spec fn wf(&self) -> bool {
        &&& (self.phase == Phase::InField ==> self.fields@.len() > 0)
        &&& (self.mode == TransferMode::Buffered ==> self.body@ == streamed_body(self.fields@))
        &&& (self.mode == TransferMode::Streaming ==> self.body@.len() == 0)
    }

    /// A reader that waits for the first field.
    pub fn new(mode: TransferMode) -> (r: Relay)
        ensures
            r.wf(),
            r.mode() == mode,
            r.phase() == Phase::AwaitingField,
            r.fields() == Seq::<Seq<Seq<u8>>>::empty(),
    {
        let body = match mode {
            TransferMode::Buffered => BufferedBody::new(),
            TransferMode::Streaming => BufferedBody::with_capacity(0),
        };
        Relay { mode, phase: Phase::AwaitingField, body, fields: Ghost(Seq::empty()) }
    }

    /// Which read the caller performs next.
    pub fn pull(&self) -> (r: Pull)
        ensures
            r == match self.phase() {
                Phase::AwaitingField => Pull::NextField,
                Phase::InField => Pull::NextChunk,
                _ => Pull::Nothing,
            },
    {
        match self.phase {
            Phase::AwaitingField => Pull::NextField,
            Phase::InField => Pull::NextChunk,
            _ => Pull::Nothing,
        }
    }

    /// Takes the outcome of one read and says what to do next.
    pub fn on_event(&mut self, event: UploadEvent) -> (step: RelayStep)
        requires
            old(self).wf(),
        ensures
            final(self).wf(),
            final(self).mode() == old(self).mode(),
            !accepts(old(self).phase(), event) ==> {
                &&& final(self).phase() == Phase::Failed
                &&& final(self).fields() == old(self).fields()
                &&& step matches RelayStep::Fail(d) && d@ == OUT_OF_ORDER@
            },
            accepts(old(self).phase(), event) ==> match event {
                UploadEvent::FieldOpened => {
                    &&& final(self).phase() == Phase::InField
                    &&& final(self).fields() == old(self).fields().push(Seq::empty())
                    &&& step is Continue
                },
                UploadEvent::FieldsExhausted => {
                    &&& final(self).phase() == Phase::Completed
                    &&& final(self).fields() == old(self).fields()
                    &&& (old(self).mode() == TransferMode::Streaming ==> step is Finished)
                    &&& (old(self).mode() == TransferMode::Buffered ==> step is Send)
                },
                UploadEvent::Chunk(c) => if old(self).mode() == TransferMode::Buffered
                    && streamed_body(old(self).fields()).len() + c@.len() > MAX_BUFFERED {
                    &&& final(self).phase() == Phase::Failed
                    &&& final(self).fields() == old(self).fields()
                    &&& step matches RelayStep::Fail(d) && d@ == TOO_LARGE@
                } else {
                    &&& final(self).phase() == Phase::InField
                    &&& final(self).fields() == with_chunk(old(self).fields(), c@)
                    &&& (old(self).mode() == TransferMode::Streaming ==> (step matches RelayStep::Emit(e) && e@ == c@))
                    &&& (old(self).mode() == TransferMode::Buffered ==> step is Continue)
                },
                UploadEvent::FieldEnded => {
                    &&& final(self).phase() == Phase::AwaitingField
                    &&& final(self).fields() == old(self).fields()
                    &&& step is Continue
                },
                UploadEvent::ReadFailed(d) => {
                    &&& final(self).phase() == Phase::Failed
                    &&& final(self).fields() == old(self).fields()
                    &&& step matches RelayStep::Fail(e) && e@ == d@
                },
            },
            final(self).mode() == TransferMode::Streaming ==> streamed_body(final(self).fields())
                == streamed_body(old(self).fields()) + step_bytes(step),
    {
        if !self.accepts(&event) {
            self.phase = Phase::Failed;
            return RelayStep::Fail(String::from_str(OUT_OF_ORDER));
        }
        match event {
            UploadEvent::FieldOpened => {
                proof {
                    lemma_streamed_new_field(self.fields@);
                }
                self.fields = Ghost(self.fields@.push(Seq::empty()));
                self.phase = Phase::InField;
                RelayStep::Continue
            },
            UploadEvent::FieldsExhausted => {
                self.phase = Phase::Completed;
                match self.mode {
                    TransferMode::Streaming => RelayStep::Finished,
                    TransferMode::Buffered => RelayStep::Send,
                }
            },
            UploadEvent::Chunk(c) => {
                proof {
                    lemma_streamed_with_chunk(self.fields@, c@);
                }
                match self.mode {
                    TransferMode::Streaming => {
                        self.fields = Ghost(with_chunk(self.fields@, c@));
                        RelayStep::Emit(c)
                    },
                    TransferMode::Buffered => {
                        if !self.body.can_take(c.len()) {
                            self.phase = Phase::Failed;
                            return RelayStep::Fail(String::from_str(TOO_LARGE));
                        }
                        self.body.append(c.as_slice());
                        self.fields = Ghost(with_chunk(self.fields@, c@));
                        RelayStep::Continue
                    },
                }
            },
            UploadEvent::FieldEnded => {
                self.phase = Phase::AwaitingField;
                RelayStep::Continue
            },
            UploadEvent::ReadFailed(d) => {
                self.phase = Phase::Failed;
                RelayStep::Fail(d)
            },
        }
    }

    fn accepts(&self, event: &UploadEvent) -> (r: bool)
        ensures
            r == accepts(self.phase(), *event),
    {
        match event {
            UploadEvent::FieldOpened | UploadEvent::FieldsExhausted => self.phase == Phase::AwaitingField,
            UploadEvent::Chunk(_) | UploadEvent::FieldEnded => self.phase == Phase::InField,
            UploadEvent::ReadFailed(_) => self.phase == Phase::AwaitingField || self.phase == Phase::InField,
        }
    }

    /// The body held in buffered mode: every field's payload, joined in order.
    pub fn into_body(self) -> (r: Bytes)
        requires
            self.wf(),
        ensures
            self.mode() == TransferMode::Buffered ==> bytes_contents(r) == buffered_body(self.fields()),
    {
        proof {
            streaming_matches_buffered(self.fields@);
        }
        self.body.freeze()
    }
}

} // verus!
