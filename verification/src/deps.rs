//! The dependency check: which of the executables that the program needs the
//! search path does not resolve.

use vstd::prelude::*;

verus! {

/// What looking up one executable on the search path came to.
#[derive(Debug, PartialEq, Eq)]
pub struct Probe {
    /// The name of the executable.
    pub name: String,
    /// Whether the search path resolves it.
    pub found: bool,
}

/// An executable that the program needs and the search path does not
/// resolve.
#[derive(Debug, PartialEq, Eq)]
pub struct MissingDependency {
    /// The name of the executable.
    pub name: String,
}

/// Mathematical model of a [`Probe`].
pub ghost struct ProbeView {
    pub name: Seq<char>,
    pub found: bool,
}

impl View for Probe {
    type V = ProbeView;

    open spec fn view(&self) -> ProbeView {
        ProbeView { name: self.name@, found: self.found }
    }
}

impl DeepView for Probe {
    type V = ProbeView;

    open spec fn deep_view(&self) -> ProbeView {
        self@
    }
}

impl View for MissingDependency {
    type V = Seq<char>;

    open spec fn view(&self) -> Seq<char> {
        self.name@
    }
}

/// The executables that the program needs, in the order in which they are
/// checked.
pub open spec fn required() -> Seq<Seq<char>> {
    seq!["tmux"@]
}

/// Whether some probe found the executable `name`.
pub open spec fn resolved(probes: Seq<ProbeView>, name: Seq<char>) -> bool {
    exists|i: int| 0 <= i < probes.len() && (#[trigger] probes[i]).name == name && probes[i].found
}

/// Whether `wanted[at]` is the first of the wanted executables that no probe
/// found.
pub open spec fn first_unresolved(
    wanted: Seq<Seq<char>>,
    probes: Seq<ProbeView>,
    at: int,
) -> bool {
    &&& 0 <= at < wanted.len()
    &&& !resolved(probes, wanted[at])
    &&& forall|k: int| 0 <= k < at ==> resolved(probes, #[trigger] wanted[k])
}

/// Whether some probe found each of the wanted executables.
pub open spec fn all_resolved(wanted: Seq<Seq<char>>, probes: Seq<ProbeView>) -> bool {
    forall|k: int| 0 <= k < wanted.len() ==> resolved(probes, #[trigger] wanted[k])
}

/// The text of the fatal message about a missing executable.
pub open spec fn missing_message(name: Seq<char>) -> Seq<char> {
    name + " is not installed"@
}

impl MissingDependency {
    /// The fatal message that names the missing executable.
    pub fn message(&self) -> (text: String)
        ensures
            text@ == missing_message(self@),
    {
        self.name.clone().concat(" is not installed")
    }
}

/// The executables that the program needs, in the order in which they are
/// checked.
pub fn required_dependencies() -> (names: Vec<String>)
    ensures
        names.deep_view() == required(),
{
    let mut names: Vec<String> = Vec::new();
    names.push("tmux".to_owned());
    assert(names.deep_view() =~= required());
    names
}

/// Whether some probe found the executable `name`.
fn is_resolved(probes: &Vec<Probe>, name: &String) -> (found: bool)
    ensures
        found == resolved(probes.deep_view(), name@),
{
    let mut i: usize = 0;
    while i < probes.len()
        invariant
            i <= probes.len(),
            forall|k: int|
                0 <= k < i ==> !((#[trigger] probes.deep_view()[k]).name == name@
                    && probes.deep_view()[k].found),
        decreases probes.len() - i,
    {
        if probes[i].found && probes[i].name == *name {
            assert(probes.deep_view()[i as int].name == name@);
            return true;
        }
        i += 1;
    }
    false
}

/// Checks that every executable in `wanted` was found by some probe, and
/// reports the first one that was not.
pub fn check_dependencies(wanted: &Vec<String>, probes: &Vec<Probe>) -> (result: Result<
    (),
    MissingDependency,
>)
    ensures
        match result {
            Ok(()) => all_resolved(wanted.deep_view(), probes.deep_view()),
            Err(missing) => exists|at: int| #[trigger]
                first_unresolved(wanted.deep_view(), probes.deep_view(), at)
                    && wanted.deep_view()[at] == missing@,
        },
{
    let mut i: usize = 0;
    while i < wanted.len()
        invariant
            i <= wanted.len(),
            forall|k: int|
                0 <= k < i ==> resolved(probes.deep_view(), #[trigger] wanted.deep_view()[k]),
        decreases wanted.len() - i,
    {
        if !is_resolved(probes, &wanted[i]) {
            assert(first_unresolved(wanted.deep_view(), probes.deep_view(), i as int));
            return Err(MissingDependency { name: wanted[i].clone() });
        }
        i += 1;
    }
    Ok(())
}

/// Checks that every executable that the program needs was found by some
/// probe, and reports the first one that was not.
pub fn ensure_dependencies(probes: &Vec<Probe>) -> (result: Result<(), MissingDependency>)
    ensures
        match result {
            Ok(()) => all_resolved(required(), probes.deep_view()),
            Err(missing) => exists|at: int| #[trigger]
                first_unresolved(required(), probes.deep_view(), at) && required()[at]
                    == missing@,
        },
{
    let wanted = required_dependencies();
    check_dependencies(&wanted, probes)
}

} // verus!
