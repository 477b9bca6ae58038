use vstd::prelude::*;

verus! {

/// Primitive type of one schema column.
#[derive(Clone, Copy, Debug, PartialEq, Eq, Structural)]
pub enum DataType {
    Boolean,
    Int64,
    UInt64,
    Utf8,
}

/// One named, typed column of a schema.
#[derive(Debug, Clone, PartialEq, Eq)]
pub struct Field {
    pub name: String,
    pub data_type: DataType,
    pub nullable: bool,
}

/// Mathematical value of a [`Field`].
#[verifier::ext_equal]
pub ghost struct FieldV {
    pub name: Seq<char>,
    pub data_type: DataType,
    pub nullable: bool,
}

impl View for Field {
    type V = FieldV;

    open spec fn view(&self) -> FieldV {
        FieldV { name: self.name@, data_type: self.data_type, nullable: self.nullable }
    }
}

impl Field {
    pub fn new(name: String, data_type: DataType, nullable: bool) -> (r: Self)
        ensures
            r == (Field { name, data_type, nullable }),
    {
        Field { name, data_type, nullable }
    }
}

impl DeepView for Field {
    type V = FieldV;

    open spec fn deep_view(&self) -> FieldV {
        self.view()
    }
}

/// An ordered list of named, typed fields describing one result's columns.
#[derive(Debug, Clone, PartialEq, Eq)]
pub struct Schema {
    pub fields: Vec<Field>,
}

impl View for Schema {
    type V = Seq<FieldV>;

    open spec fn view(&self) -> Seq<FieldV> {
        self.fields.deep_view()
    }
}

impl Schema {
    pub fn new(fields: Vec<Field>) -> (r: Self)
        ensures
            r@ == fields.deep_view(),
    {
        Schema { fields }
    }
}

/// An immutable result snapshot: a schema plus the ordered data batches a
/// completed task produced. The batch bytes themselves are opaque to this
/// library; their wire encoding belongs to the columnar-format collaborator.
#[derive(Debug, Clone, PartialEq, Eq)]
pub struct ShufflePartition {
    pub schema: Schema,
    pub data: Vec<Vec<u8>>,
}

/// Mathematical value of a [`ShufflePartition`].
#[verifier::ext_equal]
pub ghost struct PartitionV {
    pub schema: Seq<FieldV>,
    pub data: Seq<Seq<u8>>,
}

impl View for ShufflePartition {
    type V = PartitionV;

    open spec fn view(&self) -> PartitionV {
        PartitionV { schema: self.schema@, data: self.data.deep_view() }
    }
}

/// Identifier of a stored shuffle output, distinct from any task key.
#[derive(Clone, Copy, Debug, PartialEq, Eq, Hash, Structural)]
pub struct ShuffleId {
    pub job_id: u64,
    pub stage_id: u64,
    pub partition_id: u64,
}

/// Opaque description of a query, consumed by the planner and executor
/// collaborators; this library only carries it through.
#[derive(Debug, Clone, PartialEq, Eq)]
pub struct LogicalPlan {
    pub encoded: Vec<u8>,
}

/// A unit of schedulable work. The key is caller-derived and stable across
/// retries of the same logical request, so a retransmission is recognised
/// as a duplicate rather than admitted as a new task.
#[derive(Debug, Clone, PartialEq, Eq)]
pub struct Task {
    pub key: String,
    pub plan: LogicalPlan,
}

/// A decoded request: run a task, fetch a stored shuffle output, or run an
/// ad-hoc query in one round trip.
#[derive(Debug, Clone, PartialEq, Eq)]
pub enum Action {
    Execute(Task),
    FetchShuffle(ShuffleId),
    InteractiveQuery(LogicalPlan),
}

} // verus!
