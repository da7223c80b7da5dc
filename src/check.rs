//! Checks, the catalog that holds them, and loading a catalog from plain rule records.
use vstd::prelude::*;

use crate::pattern::{compile, regex_accepts, Pattern};

verus! {

/// Ordinal severity of a check.
#[derive(Clone, Copy, Debug, PartialEq, Eq, Structural)]
pub enum RiskLevel {
    Low,
    Medium,
    High,
}

impl RiskLevel {
    /// Position of the level in the order `Low < Medium < High`.
    pub open spec fn rank(self) -> nat {
        match self {
            RiskLevel::Low => 0,
            RiskLevel::Medium => 1,
            RiskLevel::High => 2,
        }
    }

    /// Whether `self` is at least as severe as `other`.
    pub fn at_least(&self, other: &RiskLevel) -> (r: bool)
        ensures
            r == (self.rank() >= other.rank()),
    {
        let a: u8 = match self {
            RiskLevel::Low => 0,
            RiskLevel::Medium => 1,
            RiskLevel::High => 2,
        };
        let b: u8 = match other {
            RiskLevel::Low => 0,
            RiskLevel::Medium => 1,
            RiskLevel::High => 2,
        };
        a >= b
    }
}

/// One rule as written in a rule definition: the pattern is still plain text.
#[derive(Debug)]
pub struct CheckDef {
    pub id: u64,
    pub pattern: String,
    pub description: String,
    pub risk: RiskLevel,
    pub category: String,
}

/// The model of a check: every field as a plain value.
pub struct CheckView {
    pub id: u64,
    pub pattern: Seq<char>,
    pub description: Seq<char>,
    pub risk: RiskLevel,
    pub category: Seq<char>,
}

impl View for CheckDef {
    type V = CheckView;

    open spec fn view(&self) -> CheckView {
        CheckView {
            id: self.id,
            pattern: self.pattern@,
            description: self.description@,
            risk: self.risk,
            category: self.category@,
        }
    }
}

/// A rule whose pattern has been compiled.
pub struct Check {
    pub id: u64,
    pub pattern: Pattern,
    pub description: String,
    pub risk: RiskLevel,
    pub category: String,
}

impl View for Check {
    type V = CheckView;

    open spec fn view(&self) -> CheckView {
        CheckView {
            id: self.id,
            pattern: self.pattern@,
            description: self.description@,
            risk: self.risk,
            category: self.category@,
        }
    }
}

impl Check {
    /// A copy of the check.
    pub fn duplicate(&self) -> (r: Check)
        ensures
            r@ == self@,
    {
        Check {
            id: self.id,
            pattern: self.pattern.duplicate(),
            description: self.description.clone(),
            risk: self.risk,
            category: self.category.clone(),
        }
    }
}

/// The views of a sequence of checks.
pub open spec fn views(s: Seq<Check>) -> Seq<CheckView> {
    s.map_values(|c: Check| c@)
}

/// No two entries share an id.
pub open spec fn ids_unique(s: Seq<CheckView>) -> bool {
    forall|i: int, j: int| 0 <= i < s.len() && 0 <= j < s.len() && i != j ==> s[i].id != s[j].id
}

/// Entry `i` of a rule list is acceptable: its pattern compiles and no earlier entry
/// has its id.
pub open spec fn entry_ok(defs: Seq<CheckView>, i: int) -> bool {
    &&& regex_accepts(defs[i].pattern)
    &&& forall|j: int| 0 <= j < i ==> defs[j].id != defs[i].id
}

/// All entries before `i` are acceptable.
pub open spec fn prefix_ok(defs: Seq<CheckView>, i: int) -> bool {
    forall|j: int| 0 <= j < i ==> entry_ok(defs, j)
}

/// Why a rule list could not become a catalog.
#[derive(Clone, Copy, Debug, PartialEq, Eq, Structural)]
pub enum CatalogError {
    /// The pattern of the rule with this id is not a valid regular expression.
    PatternCompile { id: u64 },
    /// A rule with this id appears a second time.
    DuplicateId { id: u64 },
}

/// The full, immutable set of checks, in the order of their definitions.
pub struct Catalog {
    checks: Vec<Check>,
}

impl View for Catalog {
    type V = Seq<CheckView>;

    closed spec fn view(&self) -> Seq<CheckView> {
        views(self.checks@)
    }
}

impl Catalog {
    /// Every valid catalog has unique ids and patterns that compiled.
    pub open spec fn wf(&self) -> bool {
        &&& ids_unique(self@)
        &&& forall|i: int| 0 <= i < self@.len() ==> regex_accepts(#[trigger] self@[i].pattern)
    }

    /// Builds the catalog from rule definitions, checking each entry in order: its
    /// pattern must compile and its id must not have appeared before. The first entry
    /// that fails decides the error.
    pub fn load(defs: &Vec<CheckDef>) -> (r: Result<Catalog, CatalogError>)
        ensures
            r is Ok <==> prefix_ok(defs@.map_values(|d: CheckDef| d@), defs@.len() as int),
            r matches Ok(c) ==> c@ == defs@.map_values(|d: CheckDef| d@) && c.wf(),
            r matches Err(CatalogError::PatternCompile { id }) ==> exists|i: int|
                0 <= i < defs@.len() && prefix_ok(defs@.map_values(|d: CheckDef| d@), i)
                    && !regex_accepts(#[trigger] defs@[i].pattern@) && defs@[i].id == id,
            r matches Err(CatalogError::DuplicateId { id }) ==> exists|i: int|
                0 <= i < defs@.len() && prefix_ok(defs@.map_values(|d: CheckDef| d@), i)
                    && regex_accepts(#[trigger] defs@[i].pattern@) && defs@[i].id == id
                    && exists|j: int| 0 <= j < i && defs@[j].id == id,
    {
        let ghost dv = defs@.map_values(|d: CheckDef| d@);
        let mut checks: Vec<Check> = Vec::new();
        let mut i: usize = 0;
        while i < defs.len()
            invariant
                dv == defs@.map_values(|d: CheckDef| d@),
                i <= defs@.len(),
                checks@.len() == i,
                views(checks@) == dv.subrange(0, i as int),
                prefix_ok(dv, i as int),
            decreases defs@.len() - i,
        {
            let d = &defs[i];
            let p = match compile(d.pattern.as_str()) {
                Ok(p) => p,
                Err(_) => {
                    assert(!entry_ok(dv, i as int));
                    return Err(CatalogError::PatternCompile { id: d.id });
                },
            };
            let mut j: usize = 0;
            while j < i
                invariant
                    j <= i,
                    i < defs@.len(),
                    forall|k: int| 0 <= k < j ==> defs@[k].id != defs@[i as int].id,
                    regex_accepts(defs@[i as int].pattern@),
                    dv == defs@.map_values(|d: CheckDef| d@),
                    prefix_ok(dv, i as int),
                    d == defs@[i as int],
                decreases i - j,
            {
                if defs[j].id == d.id {
                    assert(dv[j as int].id == dv[i as int].id);
                    assert(!entry_ok(dv, i as int));
                    return Err(CatalogError::DuplicateId { id: d.id });
                }
                j = j + 1;
            }
            checks.push(
                Check {
                    id: d.id,
                    pattern: p,
                    description: d.description.clone(),
                    risk: d.risk,
                    category: d.category.clone(),
                },
            );
            assert(views(checks@) =~= dv.subrange(0, i + 1));
            assert(entry_ok(dv, i as int));
            i = i + 1;
        }
        assert(dv.subrange(0, i as int) =~= dv);
        let c = Catalog { checks };
        assert(ids_unique(c@)) by {
            assert forall|a: int, b: int|
                0 <= a < c@.len() && 0 <= b < c@.len() && a != b implies c@[a].id != c@[b].id by {
                if a < b {
                    assert(entry_ok(dv, b));
                } else {
                    assert(entry_ok(dv, a));
                }
            }
        }
        assert forall|k: int| 0 <= k < c@.len() implies regex_accepts(#[trigger] c@[k].pattern) by {
            assert(entry_ok(dv, k));
        }
        Ok(c)
    }

    /// The checks, in definition order.
    pub fn checks(&self) -> (r: &Vec<Check>)
        ensures
            views(r@) == self@,
    {
        &self.checks
    }

    /// Number of checks.
    pub fn len(&self) -> (r: usize)
        ensures
            r == self@.len(),
    {
        self.checks.len()
    }
}

/// No two checks of a valid catalog share an id.
pub proof fn lemma_catalog_ids_unique(c: Catalog, i: int, j: int)
    requires
        c.wf(),
        0 <= i < c@.len(),
        0 <= j < c@.len(),
        i != j,
    ensures
        c@[i].id != c@[j].id,
{
}

} // verus!
