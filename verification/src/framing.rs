use vstd::prelude::*;

use crate::data::{Field, PartitionV, Schema, ShufflePartition};

verus! {

/// One element of the result stream a caller receives: the schema-only
/// message that opens every stream, or one data-batch message.
#[derive(Debug, Clone, PartialEq, Eq)]
pub enum Frame {
    Schema(Schema),
    Batch(Vec<u8>),
}

/// Mathematical value of a [`Frame`].
#[verifier::ext_equal]
pub ghost enum FrameV {
    Schema(Seq<crate::data::FieldV>),
    Batch(Seq<u8>),
}

impl View for Frame {
    type V = FrameV;

    open spec fn view(&self) -> FrameV {
        match self {
            Frame::Schema(s) => FrameV::Schema(s@),
            Frame::Batch(b) => FrameV::Batch(b@),
        }
    }
}

impl DeepView for Frame {
    type V = FrameV;

    open spec fn deep_view(&self) -> FrameV {
        self.view()
    }
}

/// How a result snapshot is framed for the caller: first the schema-only
/// message, then one message per data batch, in stored order. An empty
/// result set yields just the schema message.
pub open spec fn frames_of(p: PartitionV) -> Seq<FrameV> {
    seq![FrameV::Schema(p.schema)] + p.data.map_values(|b: Seq<u8>| FrameV::Batch(b))
}

/// A fresh byte vector holding the same bytes.
fn copy_bytes(src: &Vec<u8>) -> (r: Vec<u8>)
    ensures
        r@ == src@,
{
    let mut out: Vec<u8> = Vec::new();
    let mut i: usize = 0;
    while i < src.len()
        invariant
            i <= src.len(),
            out@ =~= src@.take(i as int),
        decreases src.len() - i,
    {
        out.push(src[i]);
        i = i + 1;
    }
    proof {
        assert(src@.take(src@.len() as int) =~= src@);
    }
    out
}

/// A fresh schema holding the same fields.
pub fn copy_schema(src: &Schema) -> (r: Schema)
    ensures
        r@ == src@,
{
    let mut fields: Vec<Field> = Vec::new();
    let mut i: usize = 0;
    while i < src.fields.len()
        invariant
            i <= src.fields.len(),
            fields@ =~= src.fields@.take(i as int),
        decreases src.fields.len() - i,
    {
        let f = &src.fields[i];
        let copied = Field { name: f.name.clone(), data_type: f.data_type, nullable: f.nullable };
        fields.push(copied);
        i = i + 1;
    }
    proof {
        assert(fields@ =~= src.fields@);
    }
    Schema { fields }
}

/// Builds the framed stream for one result snapshot. Polling the same
/// snapshot again yields a stream with the very same mathematical value,
/// which is what makes re-polling a completed task idempotent.
pub fn frame_partition(p: &ShufflePartition) -> (r: Vec<Frame>)
    ensures
        r.deep_view() == frames_of(p@),
{
    let mut frames: Vec<Frame> = Vec::new();
    frames.push(Frame::Schema(copy_schema(&p.schema)));
    let mut i: usize = 0;
    while i < p.data.len()
        invariant
            i <= p.data.len(),
            frames.deep_view().len() == i + 1,
            frames.deep_view()[0] == FrameV::Schema(p@.schema),
            forall|j: int| 0 <= j < i ==> frames.deep_view()[j + 1] == FrameV::Batch(p@.data[j]),
        decreases p.data.len() - i,
    {
        frames.push(Frame::Batch(copy_bytes(&p.data[i])));
        i = i + 1;
    }
    proof {
        assert(frames.deep_view() =~= frames_of(p@));
    }
    frames
}

} // verus!
