use vstd::prelude::*;

use crate::bytes::str_eq;

verus! {

/// What an authorization grant or request reaches. Identifiers are held as
/// the strings the wire carries.
#[derive(Debug, PartialEq, Eq)]
pub enum AuthorizationScope {
    Global,
    Ceremony { ceremony_id: String },
    CeremonyTree { root_id: String },
    ResolvedCeremony { ceremony_id: String, root_id: String },
    Definition { name: String, version: Option<String> },
    Artifact { artifact_id: String },
    Council { council_id: String },
    Budget { account_id: String },
}

/// An authorization scope on the wire: a kind word and the fields it uses.
#[derive(Debug, PartialEq, Eq, Default)]
pub struct WireAuthorizationScope {
    pub kind: String,
    pub ceremony_id: Option<String>,
    pub root_id: Option<String>,
    pub definition_name: Option<String>,
    pub definition_version: Option<String>,
    pub artifact_id: Option<String>,
    pub council_id: Option<String>,
    pub budget_account_id: Option<String>,
}

/// A field a scope kind needs.
#[derive(Debug, Clone, Copy, PartialEq, Eq, Structural)]
pub enum ScopeField {
    CeremonyId,
    RootId,
    DefinitionName,
    ArtifactId,
    CouncilId,
    BudgetAccountId,
}

/// Why a wire scope was refused.
#[derive(Debug, PartialEq, Eq)]
pub enum ScopeError {
    /// The kind needs this field and it is absent (`NotFound`).
    Missing(ScopeField),
    /// `unknown authorization scope`: the kind is none a grant can name.
    UnknownKind { kind: String },
}

/// A scope as values.
pub enum ScopeView {
    Global,
    Ceremony { ceremony_id: Seq<char> },
    CeremonyTree { root_id: Seq<char> },
    ResolvedCeremony { ceremony_id: Seq<char>, root_id: Seq<char> },
    Definition { name: Seq<char>, version: Option<Seq<char>> },
    Artifact { artifact_id: Seq<char> },
    Council { council_id: Seq<char> },
    Budget { account_id: Seq<char> },
}

/// A wire scope as values.
pub struct WireScopeView {
    pub kind: Seq<char>,
    pub ceremony_id: Option<Seq<char>>,
    pub root_id: Option<Seq<char>>,
    pub definition_name: Option<Seq<char>>,
    pub definition_version: Option<Seq<char>>,
    pub artifact_id: Option<Seq<char>>,
    pub council_id: Option<Seq<char>>,
    pub budget_account_id: Option<Seq<char>>,
}

pub enum ScopeErrorView {
    Missing(ScopeField),
    UnknownKind(Seq<char>),
}

pub open spec fn opt_view(o: Option<String>) -> Option<Seq<char>> {
    match o {
        Some(s) => Some(s@),
        None => None,
    }
}

pub open spec fn scope_view(s: AuthorizationScope) -> ScopeView {
    match s {
        AuthorizationScope::Global => ScopeView::Global,
        AuthorizationScope::Ceremony { ceremony_id } => ScopeView::Ceremony { ceremony_id: ceremony_id@ },
        AuthorizationScope::CeremonyTree { root_id } => ScopeView::CeremonyTree { root_id: root_id@ },
        AuthorizationScope::ResolvedCeremony { ceremony_id, root_id } => ScopeView::ResolvedCeremony {
            ceremony_id: ceremony_id@,
            root_id: root_id@,
        },
        AuthorizationScope::Definition { name, version } => ScopeView::Definition { name: name@, version: opt_view(version) },
        AuthorizationScope::Artifact { artifact_id } => ScopeView::Artifact { artifact_id: artifact_id@ },
        AuthorizationScope::Council { council_id } => ScopeView::Council { council_id: council_id@ },
        AuthorizationScope::Budget { account_id } => ScopeView::Budget { account_id: account_id@ },
    }
}

pub open spec fn wire_scope_view(w: WireAuthorizationScope) -> WireScopeView {
    WireScopeView {
        kind: w.kind@,
        ceremony_id: opt_view(w.ceremony_id),
        root_id: opt_view(w.root_id),
        definition_name: opt_view(w.definition_name),
        definition_version: opt_view(w.definition_version),
        artifact_id: opt_view(w.artifact_id),
        council_id: opt_view(w.council_id),
        budget_account_id: opt_view(w.budget_account_id),
    }
}

pub open spec fn scope_error_view(e: ScopeError) -> ScopeErrorView {
    match e {
        ScopeError::Missing(f) => ScopeErrorView::Missing(f),
        ScopeError::UnknownKind { kind } => ScopeErrorView::UnknownKind(kind@),
    }
}

pub open spec fn required_field(value: Option<Seq<char>>, field: ScopeField, make: spec_fn(Seq<char>) -> ScopeView) -> Result<ScopeView, ScopeErrorView> {
    match value {
        Some(v) => Ok(make(v)),
        None => Err(ScopeErrorView::Missing(field)),
    }
}

/// How a wire scope reads: the kind word picks the variant, which takes
/// the fields it needs and refuses their absence; a resolved ceremony, or
/// any other word, is not a kind a grant can name.
pub open spec fn scope_reading(w: WireScopeView) -> Result<ScopeView, ScopeErrorView> {
    if w.kind == "global"@ {
        Ok(ScopeView::Global)
    } else if w.kind == "ceremony"@ {
        required_field(w.ceremony_id, ScopeField::CeremonyId, |v: Seq<char>| ScopeView::Ceremony { ceremony_id: v })
    } else if w.kind == "ceremony_tree"@ {
        required_field(w.root_id, ScopeField::RootId, |v: Seq<char>| ScopeView::CeremonyTree { root_id: v })
    } else if w.kind == "definition"@ {
        required_field(w.definition_name, ScopeField::DefinitionName, |v: Seq<char>| ScopeView::Definition {
            name: v,
            version: w.definition_version,
        })
    } else if w.kind == "artifact"@ {
        required_field(w.artifact_id, ScopeField::ArtifactId, |v: Seq<char>| ScopeView::Artifact { artifact_id: v })
    } else if w.kind == "council"@ {
        required_field(w.council_id, ScopeField::CouncilId, |v: Seq<char>| ScopeView::Council { council_id: v })
    } else if w.kind == "budget"@ {
        required_field(w.budget_account_id, ScopeField::BudgetAccountId, |v: Seq<char>| ScopeView::Budget { account_id: v })
    } else {
        Err(ScopeErrorView::UnknownKind(w.kind))
    }
}

pub open spec fn empty_wire(kind: Seq<char>) -> WireScopeView {
    WireScopeView {
        kind,
        ceremony_id: None,
        root_id: None,
        definition_name: None,
        definition_version: None,
        artifact_id: None,
        council_id: None,
        budget_account_id: None,
    }
}

/// The wire form of a scope: its kind word and exactly the fields it has.
pub open spec fn scope_wire(s: ScopeView) -> WireScopeView {
    match s {
        ScopeView::Global => empty_wire("global"@),
        ScopeView::Ceremony { ceremony_id } => WireScopeView { ceremony_id: Some(ceremony_id), ..empty_wire("ceremony"@) },
        ScopeView::CeremonyTree { root_id } => WireScopeView { root_id: Some(root_id), ..empty_wire("ceremony_tree"@) },
        ScopeView::ResolvedCeremony { ceremony_id, root_id } => WireScopeView {
            ceremony_id: Some(ceremony_id),
            root_id: Some(root_id),
            ..empty_wire("resolved_ceremony"@)
        },
        ScopeView::Definition { name, version } => WireScopeView {
            definition_name: Some(name),
            definition_version: version,
            ..empty_wire("definition"@)
        },
        ScopeView::Artifact { artifact_id } => WireScopeView { artifact_id: Some(artifact_id), ..empty_wire("artifact"@) },
        ScopeView::Council { council_id } => WireScopeView { council_id: Some(council_id), ..empty_wire("council"@) },
        ScopeView::Budget { account_id } => WireScopeView { budget_account_id: Some(account_id), ..empty_wire("budget"@) },
    }
}

fn required(value: Option<String>, field: ScopeField) -> (r: Result<String, ScopeError>)
    ensures
        match value {
            Some(v) => r matches Ok(s) && s@ == v@,
            None => r == Err::<String, ScopeError>(ScopeError::Missing(field)),
        },
{
    match value {
        Some(v) => Ok(v),
        None => Err(ScopeError::Missing(field)),
    }
}

/// Reads a wire scope.
pub fn authorization_scope_from_wire(w: WireAuthorizationScope) -> (r: Result<AuthorizationScope, ScopeError>)
    ensures
        match (r, scope_reading(wire_scope_view(w))) {
            (Ok(s), Ok(v)) => scope_view(s) == v,
            (Err(e), Err(v)) => scope_error_view(e) == v,
            _ => false,
        },
        w.kind@ == "artifact"@ && w.artifact_id is Some ==> (r matches Ok(AuthorizationScope::Artifact { artifact_id })
            && artifact_id@ == w.artifact_id->0@),
        w.kind@ == "budget"@ && w.budget_account_id is Some ==> (r matches Ok(AuthorizationScope::Budget { account_id })
            && account_id@ == w.budget_account_id->0@),
        w.kind@ == "council"@ && w.council_id is Some ==> (r matches Ok(AuthorizationScope::Council { council_id })
            && council_id@ == w.council_id->0@),
        w.kind@ == "ceremony"@ && w.ceremony_id is Some ==> (r matches Ok(AuthorizationScope::Ceremony { ceremony_id })
            && ceremony_id@ == w.ceremony_id->0@),
        w.kind@ == "ceremony_tree"@ && w.root_id is Some ==> (r matches Ok(AuthorizationScope::CeremonyTree { root_id })
            && root_id@ == w.root_id->0@),
        w.kind@ == "global"@ ==> r matches Ok(AuthorizationScope::Global),
{
    proof {
        law_scope_reading_by_kind(wire_scope_view(w));
    }
    let ghost wv = wire_scope_view(w);
    let kind = w.kind.as_str();
    if str_eq(kind, "global") {
        Ok(AuthorizationScope::Global)
    } else if str_eq(kind, "ceremony") {
        let ceremony_id = required(w.ceremony_id, ScopeField::CeremonyId)?;
        Ok(AuthorizationScope::Ceremony { ceremony_id })
    } else if str_eq(kind, "ceremony_tree") {
        let root_id = required(w.root_id, ScopeField::RootId)?;
        Ok(AuthorizationScope::CeremonyTree { root_id })
    } else if str_eq(kind, "definition") {
        let name = required(w.definition_name, ScopeField::DefinitionName)?;
        Ok(AuthorizationScope::Definition { name, version: w.definition_version })
    } else if str_eq(kind, "artifact") {
        let artifact_id = required(w.artifact_id, ScopeField::ArtifactId)?;
        Ok(AuthorizationScope::Artifact { artifact_id })
    } else if str_eq(kind, "council") {
        let council_id = required(w.council_id, ScopeField::CouncilId)?;
        Ok(AuthorizationScope::Council { council_id })
    } else if str_eq(kind, "budget") {
        let account_id = required(w.budget_account_id, ScopeField::BudgetAccountId)?;
        Ok(AuthorizationScope::Budget { account_id })
    } else {
        Err(ScopeError::UnknownKind { kind: w.kind })
    }
}

fn blank(kind: &str) -> (w: WireAuthorizationScope)
    ensures
        wire_scope_view(w) == empty_wire(kind@),
{
    WireAuthorizationScope {
        kind: kind.to_owned(),
        ceremony_id: None,
        root_id: None,
        definition_name: None,
        definition_version: None,
        artifact_id: None,
        council_id: None,
        budget_account_id: None,
    }
}

/// Writes a scope.
pub fn authorization_scope_to_wire(s: AuthorizationScope) -> (w: WireAuthorizationScope)
    ensures
        wire_scope_view(w) == scope_wire(scope_view(s)),
        s is Global ==> w.kind@ == "global"@,
        s is Ceremony ==> w.kind@ == "ceremony"@,
        s is CeremonyTree ==> w.kind@ == "ceremony_tree"@,
        s is ResolvedCeremony ==> w.kind@ == "resolved_ceremony"@,
        s is Definition ==> w.kind@ == "definition"@,
        s is Artifact ==> w.kind@ == "artifact"@,
        s is Council ==> w.kind@ == "council"@,
        s is Budget ==> w.kind@ == "budget"@,
{
    match s {
        AuthorizationScope::Global => blank("global"),
        AuthorizationScope::Ceremony { ceremony_id } => WireAuthorizationScope { ceremony_id: Some(ceremony_id), ..blank("ceremony") },
        AuthorizationScope::CeremonyTree { root_id } => WireAuthorizationScope { root_id: Some(root_id), ..blank("ceremony_tree") },
        AuthorizationScope::ResolvedCeremony { ceremony_id, root_id } => WireAuthorizationScope {
            ceremony_id: Some(ceremony_id),
            root_id: Some(root_id),
            ..blank("resolved_ceremony")
        },
        AuthorizationScope::Definition { name, version } => WireAuthorizationScope {
            definition_name: Some(name),
            definition_version: version,
            ..blank("definition")
        },
        AuthorizationScope::Artifact { artifact_id } => WireAuthorizationScope { artifact_id: Some(artifact_id), ..blank("artifact") },
        AuthorizationScope::Council { council_id } => WireAuthorizationScope { council_id: Some(council_id), ..blank("council") },
        AuthorizationScope::Budget { account_id } => WireAuthorizationScope { budget_account_id: Some(account_id), ..blank("budget") },
    }
}

/// Every scope a grant can name reads back from its wire form as itself. A
/// resolved ceremony is written but refused on reading: a caller cannot
/// claim a resolution the engine has to make.
pub proof fn law_scope_round_trip(s: ScopeView)
    ensures
        !(s is ResolvedCeremony) ==> scope_reading(scope_wire(s)) == Ok::<ScopeView, ScopeErrorView>(s),
        s is ResolvedCeremony ==> scope_reading(scope_wire(s)) == Err::<ScopeView, ScopeErrorView>(ScopeErrorView::UnknownKind("resolved_ceremony"@)),
{
    reveal_strlit("global");
    reveal_strlit("ceremony");
    reveal_strlit("ceremony_tree");
    reveal_strlit("resolved_ceremony");
    reveal_strlit("definition");
    reveal_strlit("artifact");
    reveal_strlit("council");
    reveal_strlit("budget");
    assert("global"@.len() == 6);
    assert("ceremony"@.len() == 8);
    assert("ceremony_tree"@.len() == 13);
    assert("resolved_ceremony"@.len() == 17);
    assert("definition"@.len() == 10);
    assert("artifact"@.len() == 8);
    assert("council"@.len() == 7);
    assert("budget"@.len() == 6);
    assert("ceremony"@[0] != "artifact"@[0]);
    assert("global"@[0] != "budget"@[0]);
    match s {
        ScopeView::Ceremony { ceremony_id } => {
            assert(scope_reading(scope_wire(s)) == Ok::<ScopeView, ScopeErrorView>(ScopeView::Ceremony { ceremony_id }));
        },
        _ => {},
    }
}

/// Makes the kind words known, and tells them apart.
proof fn lemma_kind_words()
    ensures
        "global"@ =~= seq!['g', 'l', 'o', 'b', 'a', 'l'],
        "ceremony"@ =~= seq!['c', 'e', 'r', 'e', 'm', 'o', 'n', 'y'],
        "ceremony_tree"@ =~= seq!['c', 'e', 'r', 'e', 'm', 'o', 'n', 'y', '_', 't', 'r', 'e', 'e'],
        "resolved_ceremony"@ =~= seq!['r', 'e', 's', 'o', 'l', 'v', 'e', 'd', '_', 'c', 'e', 'r', 'e', 'm', 'o', 'n', 'y'],
        "definition"@ =~= seq!['d', 'e', 'f', 'i', 'n', 'i', 't', 'i', 'o', 'n'],
        "artifact"@ =~= seq!['a', 'r', 't', 'i', 'f', 'a', 'c', 't'],
        "council"@ =~= seq!['c', 'o', 'u', 'n', 'c', 'i', 'l'],
        "budget"@ =~= seq!['b', 'u', 'd', 'g', 'e', 't'],
{
    reveal_strlit("global");
    reveal_strlit("ceremony");
    reveal_strlit("ceremony_tree");
    reveal_strlit("resolved_ceremony");
    reveal_strlit("definition");
    reveal_strlit("artifact");
    reveal_strlit("council");
    reveal_strlit("budget");
}

/// Each scope is written under its own kind word, with its identifier in
/// its own field: `global`, `ceremony`, `ceremony_tree`,
/// `resolved_ceremony`, `definition`, `artifact`, `council`, `budget`.
pub proof fn law_scope_kind_words(s: ScopeView)
    ensures
        s is Global ==> scope_wire(s).kind == "global"@,
        s matches ScopeView::Ceremony { ceremony_id } ==> scope_wire(s).kind == "ceremony"@ && scope_wire(s).ceremony_id == Some(ceremony_id),
        s matches ScopeView::CeremonyTree { root_id } ==> scope_wire(s).kind == "ceremony_tree"@ && scope_wire(s).root_id == Some(root_id),
        s is ResolvedCeremony ==> scope_wire(s).kind == "resolved_ceremony"@,
        s matches ScopeView::Definition { name, version } ==> scope_wire(s).kind == "definition"@
            && scope_wire(s).definition_name == Some(name) && scope_wire(s).definition_version == version,
        s matches ScopeView::Artifact { artifact_id } ==> scope_wire(s).kind == "artifact"@ && scope_wire(s).artifact_id == Some(artifact_id),
        s matches ScopeView::Council { council_id } ==> scope_wire(s).kind == "council"@ && scope_wire(s).council_id == Some(council_id),
        s matches ScopeView::Budget { account_id } ==> scope_wire(s).kind == "budget"@ && scope_wire(s).budget_account_id == Some(account_id),
{
}

/// Reading a wire scope: the kind word names the variant, and the variant
/// takes its identifier from its own field; a known kind without that field
/// names the missing field; `resolved_ceremony` and unknown words are
/// refused as unknown kinds.
pub proof fn law_scope_reading_by_kind(w: WireScopeView)
    ensures
        w.kind == "global"@ ==> scope_reading(w) == Ok::<ScopeView, ScopeErrorView>(ScopeView::Global),
        w.kind == "ceremony"@ ==> scope_reading(w) == match w.ceremony_id {
            Some(v) => Ok::<ScopeView, ScopeErrorView>(ScopeView::Ceremony { ceremony_id: v }),
            None => Err(ScopeErrorView::Missing(ScopeField::CeremonyId)),
        },
        w.kind == "ceremony_tree"@ ==> scope_reading(w) == match w.root_id {
            Some(v) => Ok::<ScopeView, ScopeErrorView>(ScopeView::CeremonyTree { root_id: v }),
            None => Err(ScopeErrorView::Missing(ScopeField::RootId)),
        },
        w.kind == "definition"@ ==> scope_reading(w) == match w.definition_name {
            Some(v) => Ok::<ScopeView, ScopeErrorView>(ScopeView::Definition { name: v, version: w.definition_version }),
            None => Err(ScopeErrorView::Missing(ScopeField::DefinitionName)),
        },
        w.kind == "artifact"@ ==> scope_reading(w) == match w.artifact_id {
            Some(v) => Ok::<ScopeView, ScopeErrorView>(ScopeView::Artifact { artifact_id: v }),
            None => Err(ScopeErrorView::Missing(ScopeField::ArtifactId)),
        },
        w.kind == "council"@ ==> scope_reading(w) == match w.council_id {
            Some(v) => Ok::<ScopeView, ScopeErrorView>(ScopeView::Council { council_id: v }),
            None => Err(ScopeErrorView::Missing(ScopeField::CouncilId)),
        },
        w.kind == "budget"@ ==> scope_reading(w) == match w.budget_account_id {
            Some(v) => Ok::<ScopeView, ScopeErrorView>(ScopeView::Budget { account_id: v }),
            None => Err(ScopeErrorView::Missing(ScopeField::BudgetAccountId)),
        },
        w.kind == "resolved_ceremony"@ ==> scope_reading(w) == Err::<ScopeView, ScopeErrorView>(
            ScopeErrorView::UnknownKind(w.kind),
        ),
{
    lemma_kind_words();
    assert("ceremony"@.len() == 8);
    assert("ceremony_tree"@.len() == 13);
    assert("resolved_ceremony"@.len() == 17);
    assert("global"@.len() == 6);
    assert("budget"@.len() == 6);
    assert("artifact"@.len() == 8);
    assert("council"@.len() == 7);
    assert("definition"@.len() == 10);
}

} // verus!
