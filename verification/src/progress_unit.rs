//! Typed units for task progress counters.

use vstd::prelude::*;

use crate::text::same_text;

verus! {

/// The unit of measurement for progress counters.
#[derive(Debug, Clone, Copy, PartialEq, Eq, Structural, Hash, PartialOrd, Ord)]
pub enum ProgressUnit {
    /// Progress measured in RDF quads.
    Quads,
    /// Progress measured in bytes.
    Bytes,
    /// Progress measured in result rows.
    Rows,
    /// Progress measured in generic items.
    Items,
}

impl ProgressUnit {
    pub open spec fn label(self) -> Seq<char> {
        match self {
            ProgressUnit::Quads => "quads"@,
            ProgressUnit::Bytes => "bytes"@,
            ProgressUnit::Rows => "rows"@,
            ProgressUnit::Items => "items"@,
        }
    }

    /// Stable lowercase string form (the inverse of `parse`).
    pub fn as_str(self) -> (r: &'static str)
        ensures
            r@ == self.label(),
    {
        match self {
            ProgressUnit::Quads => "quads",
            ProgressUnit::Bytes => "bytes",
            ProgressUnit::Rows => "rows",
            ProgressUnit::Items => "items",
        }
    }

    /// The label as owned text (what `Display` prints).
    pub fn to_string(self) -> (r: String)
        ensures
            r@ == self.label(),
    {
        String::from_str(self.as_str())
    }

    /// Parse a unit from its stable string form.
    pub fn parse(s: &str) -> (r: Result<Self, ()>)
        ensures
            r matches Ok(u) ==> u.label() == s@,
            r is Err <==> (forall|u: ProgressUnit| u.label() != s@),
    {
        if same_text(s, "quads") {
            assert(ProgressUnit::Quads.label() == s@);
            Ok(ProgressUnit::Quads)
        } else if same_text(s, "bytes") {
            assert(ProgressUnit::Bytes.label() == s@);
            Ok(ProgressUnit::Bytes)
        } else if same_text(s, "rows") {
            assert(ProgressUnit::Rows.label() == s@);
            Ok(ProgressUnit::Rows)
        } else if same_text(s, "items") {
            assert(ProgressUnit::Items.label() == s@);
            Ok(ProgressUnit::Items)
        } else {
            assert forall|u: ProgressUnit| u.label() != s@ by {
                match u {
                    ProgressUnit::Quads => {},
                    ProgressUnit::Bytes => {},
                    ProgressUnit::Rows => {},
                    ProgressUnit::Items => {},
                }
            }
            Err(())
        }
    }
}

impl core::str::FromStr for ProgressUnit {
    type Err = ();

    fn from_str(s: &str) -> (r: Result<Self, Self::Err>)
        ensures
            r matches Ok(u) ==> u.label() == s@,
            r is Err <==> (forall|u: ProgressUnit| u.label() != s@),
    {
        ProgressUnit::parse(s)
    }
}

/// Unit labels are distinct, so a label names at most one unit.
pub proof fn lemma_unit_labels_distinct(a: ProgressUnit, b: ProgressUnit)
    requires
        a != b,
    ensures
        a.label() != b.label(),
{
    reveal_strlit("quads");
    reveal_strlit("bytes");
    reveal_strlit("rows");
    reveal_strlit("items");
    if a.label() == b.label() {
        assert(a.label().len() == b.label().len());
        assert(a.label()[0] == b.label()[0]);
    }
}

} // verus!
