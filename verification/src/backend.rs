use vstd::prelude::*;

verus! {

/// The two on-disk storage representations a bag can be converted into.
#[derive(Clone, Copy, Debug, PartialEq, Eq, Structural)]
pub enum Backend {
    /// The embedded relational-database format.
    Sqlite3,
    /// The binary container format.
    Mcap,
}

impl Backend {
    /// The identifier under which the external conversion tool knows
    /// this backend.
    pub open spec fn storage_id_spec(self) -> Seq<char> {
        match self {
            Backend::Sqlite3 => "sqlite3"@,
            Backend::Mcap => "mcap"@,
        }
    }

    pub fn storage_id(self) -> (r: &'static str)
        ensures
            r@ == self.storage_id_spec(),
    {
        match self {
            Backend::Sqlite3 => "sqlite3",
            Backend::Mcap => "mcap",
        }
    }
}

} // verus!
