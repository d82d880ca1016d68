use vstd::prelude::*;

use crate::bytes::str_eq;

verus! {

/// The strings of a vector, as a set.
pub open spec fn string_set(v: Seq<String>) -> Set<Seq<char>> {
    string_views(v).to_set()
}

/// The strings of a vector, in order.
pub open spec fn string_views(v: Seq<String>) -> Seq<Seq<char>> {
    v.map_values(|s: String| s@)
}

/// What a profile resolution is checked against: the model that would run,
/// the capabilities required and selected, and what the profile's own
/// resolution check (a rule of the domain, run by the caller) said: `None`
/// when it accepted the resolution, otherwise the reason it refused it.
pub struct ProfileSelection {
    pub actual_model: String,
    pub required_capabilities: Vec<String>,
    pub actual_capabilities: Vec<String>,
    pub resolution_refusal: Option<String>,
}

/// Why the host cannot honour a profile.
#[derive(Debug, Clone, PartialEq, Eq)]
pub enum ProfileRefusal {
    /// `host does not support actual execution profile model; provide a
    /// supported fallback`.
    UnsupportedModel,
    /// `host lacks a required execution profile capability; provide an
    /// actionable fallback`.
    MissingRequiredCapability,
    /// `actual execution capability is not in the host inventory; select a
    /// supported fallback`.
    UnknownActualCapability,
    /// The profile's own resolution check refused it, for this reason.
    ResolutionRefused { reason: String },
}

impl ProfileRefusal {
    /// What the refusal tells the caller to do.
    pub fn reason(&self) -> (r: String)
        ensures
            r@ == match self {
                ProfileRefusal::UnsupportedModel => "host does not support actual execution profile model; provide a supported fallback"@,
                ProfileRefusal::MissingRequiredCapability => "host lacks a required execution profile capability; provide an actionable fallback"@,
                ProfileRefusal::UnknownActualCapability => "actual execution capability is not in the host inventory; select a supported fallback"@,
                ProfileRefusal::ResolutionRefused { reason } => reason@,
            },
    {
        match self {
            ProfileRefusal::UnsupportedModel => "host does not support actual execution profile model; provide a supported fallback".to_owned(),
            ProfileRefusal::MissingRequiredCapability => "host lacks a required execution profile capability; provide an actionable fallback".to_owned(),
            ProfileRefusal::UnknownActualCapability => "actual execution capability is not in the host inventory; select a supported fallback".to_owned(),
            ProfileRefusal::ResolutionRefused { reason } => reason.clone(),
        }
    }
}

/// Host adapter for a finite model and capability inventory.
pub struct StaticExecutionProfileResolver {
    models: Vec<String>,
    capabilities: Vec<String>,
}

proof fn lemma_string_set_push(v: Seq<String>, s: String)
    ensures
        string_set(v.push(s)) == string_set(v).insert(s@),
        string_views(v.push(s)) == string_views(v).push(s@),
{
    let a = string_views(v.push(s));
    let b = string_views(v);
    assert(a =~= b.push(s@));
    assert forall|x: Seq<char>| a.contains(x) <==> (b.contains(x) || x == s@) by {
        if a.contains(x) {
            let i = choose|i: int| 0 <= i < a.len() && a[i] == x;
            if i < b.len() {
                assert(b[i] == x);
            }
        }
        if b.contains(x) {
            let i = choose|i: int| 0 <= i < b.len() && b[i] == x;
            assert(a[i] == x);
        }
        if x == s@ {
            assert(a[b.len() as int] == x);
        }
    }
    assert(string_set(v.push(s)) =~= string_set(v).insert(s@));
}

/// Adds `s` to `set` unless it is already there.
fn insert_unique(set: &mut Vec<String>, s: String)
    ensures
        string_set(final(set)@) == string_set(old(set)@).insert(s@),
        string_views(old(set)@).no_duplicates() ==> string_views(final(set)@).no_duplicates(),
{
    if !contains(set, s.as_str()) {
        let ghost before = set@;
        let ghost sv = s@;
        proof {
            lemma_string_set_push(before, s);
        }
        set.push(s);
        assert(string_views(set@).drop_last() =~= string_views(before));
        assert(string_views(set@).last() == sv);
    } else {
        assert(string_set(set@).contains(s@));
        assert(string_set(set@) =~= string_set(set@).insert(s@));
    }
}

/// Whether `s` is one of the strings.
fn contains(set: &Vec<String>, s: &str) -> (b: bool)
    ensures
        b == string_set(set@).contains(s@),
{
    let mut i: usize = 0;
    while i < set.len()
        invariant
            i <= set.len(),
            forall|j: int| 0 <= j < i ==> set@[j]@ != s@,
        decreases set.len() - i,
    {
        if str_eq(set[i].as_str(), s) {
            assert(string_views(set@)[i as int] == s@);
            return true;
        }
        i = i + 1;
    }
    assert forall|x: Seq<char>| string_views(set@).contains(x) implies x != s@ by {
        let j = choose|j: int| 0 <= j < set@.len() && #[trigger] string_views(set@)[j] == x;
        assert(set@[j]@ == x);
    }
    false
}

/// Whether every string of `wanted` is in `inventory`.
fn all_in(wanted: &Vec<String>, inventory: &Vec<String>) -> (b: bool)
    ensures
        b == string_set(wanted@).subset_of(string_set(inventory@)),
{
    let mut i: usize = 0;
    while i < wanted.len()
        invariant
            i <= wanted.len(),
            forall|j: int| 0 <= j < i ==> string_set(inventory@).contains(#[trigger] wanted@[j]@),
        decreases wanted.len() - i,
    {
        if !contains(inventory, wanted[i].as_str()) {
            assert(string_set(wanted@).contains(wanted@[i as int]@)) by {
                assert(string_views(wanted@)[i as int] == wanted@[i as int]@);
            }
            return false;
        }
        i = i + 1;
    }
    assert forall|x: Seq<char>| string_set(wanted@).contains(x) implies string_set(inventory@).contains(x) by {
        let j = choose|j: int| 0 <= j < wanted@.len() && #[trigger] string_views(wanted@)[j] == x;
        assert(wanted@[j]@ == x);
    }
    true
}

fn collect_unique(items: Vec<String>) -> (v: Vec<String>)
    ensures
        string_set(v@) == string_set(items@),
        string_views(v@).no_duplicates(),
{
    let mut v: Vec<String> = Vec::new();
    assert(string_set(v@) =~= string_set(items@.take(0)));
    let mut i: usize = 0;
    while i < items.len()
        invariant
            i <= items.len(),
            string_set(v@) == string_set(items@.take(i as int)),
            string_views(v@).no_duplicates(),
        decreases items.len() - i,
    {
        let c = items[i].clone();
        insert_unique(&mut v, c);
        proof {
            lemma_string_set_push(items@.take(i as int), items@[i as int]);
            assert(items@.take(i + 1) =~= items@.take(i as int).push(items@[i as int]));
        }
        i = i + 1;
    }
    assert(items@.take(items.len() as int) =~= items@);
    v
}

impl StaticExecutionProfileResolver {
    /// The models the host can run.
    pub closed spec fn model_set(&self) -> Set<Seq<char>> {
        string_set(self.models@)
    }

    /// The capabilities the host has.
    pub closed spec fn capability_set(&self) -> Set<Seq<char>> {
        string_set(self.capabilities@)
    }

    /// A resolver for a finite inventory; each name is kept once.
    pub fn new(models: Vec<String>, capabilities: Vec<String>) -> (r: Self)
        ensures
            r.model_set() == string_set(models@),
            r.capability_set() == string_set(capabilities@),
    {
        StaticExecutionProfileResolver { models: collect_unique(models), capabilities: collect_unique(capabilities) }
    }

    /// Checks a profile against the inventory, in order: the actual model,
    /// then the required capabilities, then the selected ones; a profile the
    /// inventory admits is then refused if its own resolution check refused
    /// it.
    pub fn resolve(&self, profile: &ProfileSelection) -> (r: Result<(), ProfileRefusal>)
        ensures
            !self.model_set().contains(profile.actual_model@)
                ==> r == Err::<(), ProfileRefusal>(ProfileRefusal::UnsupportedModel),
            self.model_set().contains(profile.actual_model@)
                && !string_set(profile.required_capabilities@).subset_of(self.capability_set())
                ==> r == Err::<(), ProfileRefusal>(ProfileRefusal::MissingRequiredCapability),
            self.model_set().contains(profile.actual_model@)
                && string_set(profile.required_capabilities@).subset_of(self.capability_set())
                && !string_set(profile.actual_capabilities@).subset_of(self.capability_set())
                ==> r == Err::<(), ProfileRefusal>(ProfileRefusal::UnknownActualCapability),
            self.model_set().contains(profile.actual_model@)
                && string_set(profile.required_capabilities@).subset_of(self.capability_set())
                && string_set(profile.actual_capabilities@).subset_of(self.capability_set())
                ==> r == match profile.resolution_refusal {
                    None => Ok::<(), ProfileRefusal>(()),
                    Some(reason) => Err(ProfileRefusal::ResolutionRefused { reason }),
                },
    {
        if !contains(&self.models, profile.actual_model.as_str()) {
            return Err(ProfileRefusal::UnsupportedModel);
        }
        if !all_in(&profile.required_capabilities, &self.capabilities) {
            return Err(ProfileRefusal::MissingRequiredCapability);
        }
        if !all_in(&profile.actual_capabilities, &self.capabilities) {
            return Err(ProfileRefusal::UnknownActualCapability);
        }
        match &profile.resolution_refusal {
            None => Ok(()),
            Some(reason) => Err(ProfileRefusal::ResolutionRefused { reason: reason.clone() }),
        }
    }
}

} // verus!
