//! User settings and the active check set they select from a catalog.
use vstd::prelude::*;

use crate::check::{views, Catalog, Check, CheckView, RiskLevel};

verus! {

broadcast use vstd::seq_lib::group_filter_ensures;

/// Persisted user configuration.
pub struct Settings {
    /// Checks with these ids are never evaluated.
    pub ignored_ids: Vec<u64>,
    /// Checks in these categories are never evaluated.
    pub disabled_categories: Vec<String>,
    /// Number of characters of a challenge token.
    pub challenge_length: usize,
    /// When set, checks below this risk level are never evaluated.
    pub risk_threshold: Option<RiskLevel>,
}

/// Number of characters of the challenge token in the default settings.
pub const DEFAULT_CHALLENGE_LENGTH: usize = 6;

impl Settings {
    /// A usable configuration asks for a token of at least one character.
    pub open spec fn wf(&self) -> bool {
        self.challenge_length > 0
    }

    /// The default settings: nothing ignored or disabled, no risk threshold, and tokens of
    /// `DEFAULT_CHALLENGE_LENGTH` characters.
    pub fn new_default() -> (r: Settings)
        ensures
            r.ignored_ids@.len() == 0,
            r.disabled_categories@.len() == 0,
            r.challenge_length == DEFAULT_CHALLENGE_LENGTH,
            r.risk_threshold is None,
            r.wf(),
    {
        Settings {
            ignored_ids: Vec::new(),
            disabled_categories: Vec::new(),
            challenge_length: DEFAULT_CHALLENGE_LENGTH,
            risk_threshold: None,
        }
    }

    /// Whether the configuration is usable.
    pub fn is_valid(&self) -> (r: bool)
        ensures
            r == self.wf(),
    {
        self.challenge_length > 0
    }
    /// The disabled categories as character sequences.
    pub open spec fn disabled(&self) -> Seq<Seq<char>> {
        self.disabled_categories@.map_values(|s: String| s@)
    }

    /// Whether a check stays active under these settings.
    pub open spec fn keeps(&self, c: CheckView) -> bool {
        &&& !self.ignored_ids@.contains(c.id)
        &&& !self.disabled().contains(c.category)
        &&& match self.risk_threshold {
            Some(t) => c.risk.rank() >= t.rank(),
            None => true,
        }
    }

    /// Whether the check `c` stays active under these settings.
    pub fn is_active(&self, c: &Check) -> (r: bool)
        ensures
            r == self.keeps(c@),
    {
        let mut k: usize = 0;
        while k < self.ignored_ids.len()
            invariant
                k <= self.ignored_ids@.len(),
                forall|m: int| 0 <= m < k ==> self.ignored_ids@[m] != c.id,
            decreases self.ignored_ids@.len() - k,
        {
            if self.ignored_ids[k] == c.id {
                assert(self.ignored_ids@[k as int] == c.id);
                return false;
            }
            k = k + 1;
        }
        let mut k: usize = 0;
        while k < self.disabled_categories.len()
            invariant
                k <= self.disabled_categories@.len(),
                forall|m: int| 0 <= m < k ==> self.disabled()[m] != c.category@,
            decreases self.disabled_categories@.len() - k,
        {
            if self.disabled_categories[k] == c.category {
                assert(self.disabled()[k as int] == c.category@);
                return false;
            }
            k = k + 1;
        }
        match &self.risk_threshold {
            Some(t) => c.risk.at_least(t),
            None => true,
        }
    }
}

/// The checks of `catalog` that the settings keep, in catalog order.
pub open spec fn active_set(catalog: Seq<CheckView>, settings: &Settings) -> Seq<CheckView> {
    catalog.filter(|c: CheckView| settings.keeps(c))
}

/// The active check set: the catalog without the checks whose id is ignored, whose
/// category is disabled, or whose risk is below the threshold. Ids and categories in
/// the settings that no check has change nothing.
pub fn resolve(catalog: &Catalog, settings: &Settings) -> (r: Vec<Check>)
    ensures
        views(r@) == active_set(catalog@, settings),
{
    let all = catalog.checks();
    let ghost cv = catalog@;
    let ghost f = |c: CheckView| settings.keeps(c);
    let mut r: Vec<Check> = Vec::new();
    let mut i: usize = 0;
    while i < all.len()
        invariant
            i <= all@.len(),
            views(all@) == cv,
            f == (|c: CheckView| settings.keeps(c)),
            views(r@) == cv.subrange(0, i as int).filter(f),
        decreases all@.len() - i,
    {
        let ghost s1 = cv.subrange(0, i + 1);
        proof {
            reveal(Seq::filter);
        }
        assert(s1.drop_last() =~= cv.subrange(0, i as int));
        assert(s1.last() == all@[i as int]@);
        if settings.is_active(&all[i]) {
            let ghost r0 = r@;
            r.push(all[i].duplicate());
            assert(views(r@) =~= views(r0).push(all@[i as int]@));
        }
        i = i + 1;
    }
    assert(cv.subrange(0, i as int) =~= cv);
    r
}

/// The active check set holds only checks of the catalog, each kept by the settings.
pub proof fn lemma_active_subset(catalog: Seq<CheckView>, settings: &Settings, c: CheckView)
    requires
        active_set(catalog, settings).contains(c),
    ensures
        catalog.contains(c),
        settings.keeps(c),
{
    lemma_filter_within(catalog, |v: CheckView| settings.keeps(v), c);
}

proof fn lemma_filter_within(s: Seq<CheckView>, f: spec_fn(CheckView) -> bool, c: CheckView)
    requires
        s.filter(f).contains(c),
    ensures
        s.contains(c),
        f(c),
    decreases s.len(),
{
    reveal(Seq::filter);
    if s.len() > 0 {
        let t = s.drop_last().filter(f);
        if f(s.last()) && c == s.last() {
            assert(s[s.len() - 1] == c);
        } else {
            if f(s.last()) {
                let k = choose|k: int| 0 <= k < s.filter(f).len() && s.filter(f)[k] == c;
                assert(t.push(s.last())[k] == c);
                assert(k < t.len());
                assert(t[k] == c);
            }
            lemma_filter_within(s.drop_last(), f, c);
            let m = choose|m: int| 0 <= m < s.drop_last().len() && s.drop_last()[m] == c;
            assert(s[m] == c);
        }
    }
}

} // verus!
