use vstd::prelude::*;

verus! {

/// The database that scopes a metadata refresh.
pub struct Database {
    pub name: String,
}

/// The table whose metadata is being shown.
pub struct Table {
    pub name: String,
}

/// One provider-returned metadata record: the ordered field names it
/// exposes and the matching display cells, one cell per field.
pub struct MetadataRecord {
    pub fields: Vec<String>,
    pub cells: Vec<String>,
}

impl MetadataRecord {
    /// A record is well formed when it carries one cell per field.
    pub open spec fn wf(&self) -> bool {
        self.cells.len() == self.fields.len()
    }
}

/// A batch of records of one kind is coherent when every record is well
/// formed and all records expose the same field names as the first.
pub open spec fn coherent(records: Seq<MetadataRecord>) -> bool {
    forall|i: int|
        0 <= i < records.len() ==> (#[trigger] records[i]).wf() && records[i].fields@
            == records[0].fields@
}

/// The display rows of a batch, in order: each record's cells.
pub open spec fn cells_of(records: Seq<MetadataRecord>) -> Seq<Vec<String>> {
    records.map_values(|rec: MetadataRecord| rec.cells)
}

/// A failed metadata fetch.
#[derive(Debug)]
pub struct ProviderError {
    pub message: String,
}

/// The storage-metadata provider: one query per metadata kind, all
/// scoped to one (database, table) pair. Every query of an honest
/// provider hands back a coherent batch, since the records of one kind
/// all expose the same fixed field names.
pub trait Pool {
    /// Fetch the column records of the table.
    fn get_columns(&self, database: &Database, table: &Table) -> (r: Result<
        Vec<MetadataRecord>,
        ProviderError,
    >)
        ensures
            r matches Ok(records) ==> coherent(records@),
    ;

    /// Fetch the constraint records of the table.
    fn get_constraints(&self, database: &Database, table: &Table) -> (r: Result<
        Vec<MetadataRecord>,
        ProviderError,
    >)
        ensures
            r matches Ok(records) ==> coherent(records@),
    ;

    /// Fetch the foreign-key records of the table.
    fn get_foreign_keys(&self, database: &Database, table: &Table) -> (r: Result<
        Vec<MetadataRecord>,
        ProviderError,
    >)
        ensures
            r matches Ok(records) ==> coherent(records@),
    ;

    /// Fetch the index records of the table.
    fn get_indexes(&self, database: &Database, table: &Table) -> (r: Result<
        Vec<MetadataRecord>,
        ProviderError,
    >)
        ensures
            r matches Ok(records) ==> coherent(records@),
    ;
}

} // verus!
