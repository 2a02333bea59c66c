//! Mathematical model of an upload: a sequence of fields, each a sequence of
//! byte chunks in arrival order.
use vstd::prelude::*;
use vstd::seq_lib::lemma_flatten_concat;

verus! {

/// The payload of one field: its chunks joined in arrival order.
pub open spec fn field_payload(chunks: Seq<Seq<u8>>) -> Seq<u8> {
    chunks.flatten()
}

/// What the buffered forwarder sends: every field's payload, joined in order.
pub open spec fn buffered_body(fields: Seq<Seq<Seq<u8>>>) -> Seq<u8> {
    fields.map_values(|f: Seq<Seq<u8>>| field_payload(f)).flatten()
}

/// What the streaming forwarder sends: every chunk of every field, in order.
pub open spec fn streamed_body(fields: Seq<Seq<Seq<u8>>>) -> Seq<u8> {
    fields.flatten().flatten()
}

/// The two forwarding strategies send the same bytes for the same upload:
/// joining each field first and then the fields gives the same sequence as
/// joining all chunks of all fields at once.
pub proof fn streaming_matches_buffered(fields: Seq<Seq<Seq<u8>>>)
    ensures
        streamed_body(fields) == buffered_body(fields),
    decreases fields.len(),
{
    if fields.len() > 0 {
        let init = fields.drop_last();
        let last = fields.last();
        streaming_matches_buffered(init);
        assert(fields =~= init.push(last));
        init.lemma_flatten_push(last);
        lemma_flatten_concat(init.flatten(), last);
        let payloads = |f: Seq<Seq<u8>>| field_payload(f);
        assert(fields.map_values(payloads) =~= init.map_values(payloads).push(field_payload(last)));
        init.map_values(payloads).lemma_flatten_push(field_payload(last));
    }
}

} // verus!
