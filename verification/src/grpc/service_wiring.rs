//! Which dependency a service being wired is missing first, and how that
//! is reported.

use vstd::prelude::*;

verus! {

/// The first dependency, in wiring order, that was not provided; `None`
/// when every one was.
pub fn first_missing(provided: &Vec<bool>) -> (r: Option<usize>)
    ensures
        match r {
            None => forall|j: int| 0 <= j < provided@.len() ==> provided@[j],
            Some(i) => i < provided@.len() && !provided@[i as int] && forall|j: int| 0 <= j < i ==> provided@[j],
        },
{
    let mut i: usize = 0;
    while i < provided.len()
        invariant
            i <= provided@.len(),
            forall|j: int| 0 <= j < i ==> provided@[j],
        decreases provided.len() - i,
    {
        if !provided[i] {
            return Some(i);
        }
        i = i + 1;
    }
    None
}

/// The reason a missing dependency is reported with: `grpc: <field>
/// <kind> is required`, where the kind is `use case`, `port` or `service`.
pub fn required_reason(field: &str, kind: &str) -> (m: String)
    ensures
        m@ == "grpc: "@ + field@ + " "@ + kind@ + " is required"@,
{
    let mut m = "grpc: ".to_owned();
    m.append(field);
    m.append(" ");
    m.append(kind);
    m.append(" is required");
    m
}

} // verus!
