use vstd::prelude::*;
use crate::value::SqlValue;

verus! {

/// What an entity type tells the library about the table it lives in.
pub trait Model: Sized {
    fn table_name() -> &'static str;

    fn primary_key() -> &'static str {
        "id"
    }

    /// The primary-key value of this instance; `None` while it is not persisted.
    fn get_key_value(&self) -> Option<SqlValue> {
        None
    }

    /// The value of column `column` on this instance; `None` when it has none.
    fn get_attribute(&self, column: &str) -> Option<SqlValue> {
        None
    }

    fn fillable() -> Vec<&'static str>;

    fn connection() -> &'static str {
        "default"
    }

    fn timestamps() -> bool {
        true
    }

    fn created_at_column() -> &'static str {
        "created_at"
    }

    fn updated_at_column() -> &'static str {
        "updated_at"
    }

    fn table() -> &'static str {
        Self::table_name()
    }

    fn get_key_name() -> &'static str {
        Self::primary_key()
    }
}

/// A model whose rows carry creation and update times.
pub trait HasTimestamps: Model {
    /// Marks the instance as updated now; the default does nothing.
    fn touch(&mut self) {
    }
}

/// A model whose rows are marked deleted rather than removed.
pub trait SoftDeletes: Model {
    fn deleted_at_column() -> &'static str {
        "deleted_at"
    }

    fn trashed(&self) -> bool;
}

/// The names a model type gives for its table and its primary-key column.
#[derive(Debug, Clone)]
pub struct TableInfo {
    pub table: String,
    pub primary_key: String,
}

pub struct TableView {
    pub table: Seq<char>,
    pub primary_key: Seq<char>,
}

impl View for TableInfo {
    type V = TableView;

    open spec fn view(&self) -> TableView {
        TableView { table: self.table@, primary_key: self.primary_key@ }
    }
}

impl TableInfo {
    pub fn new(table: &str, primary_key: &str) -> (r: Self)
        ensures
            r@ == (TableView { table: table@, primary_key: primary_key@ }),
    {
        TableInfo { table: String::from_str(table), primary_key: String::from_str(primary_key) }
    }

    /// The names that `T` gives.
    pub fn of<T: Model>() -> (r: Self) {
        TableInfo::new(T::table_name(), T::primary_key())
    }
}

} // verus!
