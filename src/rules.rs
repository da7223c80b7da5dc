//! The rule definitions bundled with the library, and the catalog built from them.
use vstd::prelude::*;

use crate::check::{entry_ok, prefix_ok, Catalog, CatalogError, CheckDef, CheckView, RiskLevel};
use crate::pattern::regex_accepts;

verus! {

fn rule(id: u64, pattern: &str, description: &str, risk: RiskLevel, category: &str) -> (r: CheckDef)
    ensures
        r.id == id,
        r.pattern@ == pattern@,
        r.description@ == description@,
        r.risk == risk,
        r.category@ == category@,
{
    CheckDef {
        id,
        pattern: String::from_str(pattern),
        description: String::from_str(description),
        risk,
        category: String::from_str(category),
    }
}

/// The bundled rules, in order; rule `i` (from 0) has id `i + 1`.
pub open spec fn bundled_rules() -> Seq<CheckView> {
    seq![
        CheckView {
            id: 1,
            pattern: r"rm\s+(-[a-zA-Z]*[rR][a-zA-Z]*\s+)+(/|~|\*|\.\.?)(\s|$)"@,
            description: "Recursively delete the root, the home directory, the parent directory or everything here"@,
            risk: RiskLevel::High,
            category: "fs"@,
        },
        CheckView {
            id: 2,
            pattern: r"rm\s+(.*\s)?-[a-zA-Z]*[rR]"@,
            description: "Recursively delete files and directories"@,
            risk: RiskLevel::Medium,
            category: "fs"@,
        },
        CheckView {
            id: 3,
            pattern: r"dd\s+.*of=/dev/"@,
            description: "Write raw data over a device"@,
            risk: RiskLevel::High,
            category: "fs"@,
        },
        CheckView {
            id: 4,
            pattern: r"mkfs(\.[a-z0-9]+)?\s"@,
            description: "Create a new file system on a device"@,
            risk: RiskLevel::High,
            category: "fs"@,
        },
        CheckView {
            id: 5,
            pattern: r"chmod\s+(.*\s)?-[a-zA-Z]*R"@,
            description: "Change permissions recursively"@,
            risk: RiskLevel::Medium,
            category: "fs"@,
        },
        CheckView {
            id: 6,
            pattern: r"git\s+reset\s+(.*\s)?--hard"@,
            description: "Discard local changes with a hard reset"@,
            risk: RiskLevel::High,
            category: "git"@,
        },
        CheckView {
            id: 7,
            pattern: r"git\s+push\s+(.*\s)?(-f|--force)(\s|$)"@,
            description: "Force-push over the remote history"@,
            risk: RiskLevel::Medium,
            category: "git"@,
        },
        CheckView {
            id: 8,
            pattern: r"git\s+branch\s+(.*\s)?-D"@,
            description: "Delete a branch without checking that it was merged"@,
            risk: RiskLevel::Low,
            category: "git"@,
        },
        CheckView {
            id: 9,
            pattern: r"git\s+clean\s+(.*\s)?-[a-zA-Z]*f"@,
            description: "Delete untracked files"@,
            risk: RiskLevel::Medium,
            category: "git"@,
        },
        CheckView {
            id: 10,
            pattern: r"kubectl\s+delete\s+(ns|namespace)(\s|$)"@,
            description: "Delete a whole namespace"@,
            risk: RiskLevel::High,
            category: "kubernetes"@,
        },
    ]
}

/// The bundled rule definitions.
pub fn default_definitions() -> (r: Vec<CheckDef>)
    ensures
        r@.map_values(|d: CheckDef| d@) == bundled_rules(),
{
    let mut r: Vec<CheckDef> = Vec::new();
    r.push(rule(1, r"rm\s+(-[a-zA-Z]*[rR][a-zA-Z]*\s+)+(/|~|\*|\.\.?)(\s|$)",
        "Recursively delete the root, the home directory, the parent directory or everything here",
        RiskLevel::High, "fs"));
    r.push(rule(2, r"rm\s+(.*\s)?-[a-zA-Z]*[rR]",
        "Recursively delete files and directories", RiskLevel::Medium, "fs"));
    r.push(rule(3, r"dd\s+.*of=/dev/", "Write raw data over a device", RiskLevel::High, "fs"));
    r.push(rule(4, r"mkfs(\.[a-z0-9]+)?\s", "Create a new file system on a device",
        RiskLevel::High, "fs"));
    r.push(rule(5, r"chmod\s+(.*\s)?-[a-zA-Z]*R", "Change permissions recursively",
        RiskLevel::Medium, "fs"));
    r.push(rule(6, r"git\s+reset\s+(.*\s)?--hard", "Discard local changes with a hard reset",
        RiskLevel::High, "git"));
    r.push(rule(7, r"git\s+push\s+(.*\s)?(-f|--force)(\s|$)", "Force-push over the remote history",
        RiskLevel::Medium, "git"));
    r.push(rule(8, r"git\s+branch\s+(.*\s)?-D", "Delete a branch without checking that it was merged",
        RiskLevel::Low, "git"));
    r.push(rule(9, r"git\s+clean\s+(.*\s)?-[a-zA-Z]*f", "Delete untracked files",
        RiskLevel::Medium, "git"));
    r.push(rule(10, r"kubectl\s+delete\s+(ns|namespace)(\s|$)", "Delete a whole namespace",
        RiskLevel::High, "kubernetes"));
    assert(r@.map_values(|d: CheckDef| d@) =~= bundled_rules());
    r
}

/// The catalog of the bundled rules. It loads exactly when every bundled pattern
/// compiles; the ids are distinct, so the only possible error is `PatternCompile`.
pub fn default_catalog() -> (r: Result<Catalog, CatalogError>)
    ensures
        r is Ok <==> forall|i: int| 0 <= i < 10 ==> regex_accepts(#[trigger] bundled_rules()[i].pattern),
        r matches Ok(c) ==> c@ == bundled_rules() && c.wf(),
        r is Err ==> r->Err_0 is PatternCompile,
{
    let defs = default_definitions();
    let ghost b = bundled_rules();
    assert(b.len() == 10);
    assert forall|i: int| 0 <= i < 10 implies #[trigger] b[i].id == i + 1 by {
        assert(b[0].id == 1 && b[1].id == 2 && b[2].id == 3 && b[3].id == 4 && b[4].id == 5);
        assert(b[5].id == 6 && b[6].id == 7 && b[7].id == 8 && b[8].id == 9 && b[9].id == 10);
    }
    let r = Catalog::load(&defs);
    proof {
        assert(defs@.map_values(|d: CheckDef| d@) == b);
        assert forall|i: int| 0 <= i < 10 implies (#[trigger] entry_ok(b, i) <==> regex_accepts(
            b[i].pattern,
        )) by {
            assert forall|j: int| 0 <= j < i implies b[j].id != b[i].id by {}
        }
        match r {
            Err(CatalogError::DuplicateId { id }) => {
                let i = choose|i: int|
                    0 <= i < defs@.len() && prefix_ok(defs@.map_values(|d: CheckDef| d@), i)
                        && regex_accepts(#[trigger] defs@[i].pattern@) && defs@[i].id == id
                        && exists|j: int| 0 <= j < i && defs@[j].id == id;
                let j = choose|j: int| 0 <= j < i && defs@[j].id == id;
                assert(defs@[j]@ == b[j] && defs@[i]@ == b[i]);
                assert(false);
            },
            Err(CatalogError::PatternCompile { id }) => {
                let i = choose|i: int|
                    0 <= i < defs@.len() && prefix_ok(defs@.map_values(|d: CheckDef| d@), i)
                        && !regex_accepts(#[trigger] defs@[i].pattern@) && defs@[i].id == id;
                assert(defs@[i]@ == b[i]);
                assert(!regex_accepts(b[i].pattern));
            },
            Ok(_) => {
                assert forall|i: int| 0 <= i < 10 implies regex_accepts(#[trigger] b[i].pattern) by {
                    assert(entry_ok(b, i));
                }
            },
        }
    }
    r
}

} // verus!
