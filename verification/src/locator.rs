//! Finding the gateway executable on this machine.
//!
//! The search asks the shell's command lookup first and then tries a fixed
//! list of places where package managers install the executable; it ends
//! without a result only where none of them exists. Like the
//! supervisor it never touches the system itself: each step says what the
//! caller is to find out, and the next step takes the answer.

use vstd::prelude::*;
use vstd::string::*;
use vstd::utf8::{decode_utf8, valid_utf8};
use crate::text::{decode_lossy, text_view, trim, trimmed, utf8_lossy};

verus! {

/// A command whose output names the executable, if the shell knows it.
#[derive(Debug, PartialEq, Eq)]
pub struct Lookup {
    pub program: String,
    pub args: Vec<String>,
}

/// What a `Lookup` holds, as plain values.
pub struct LookupView {
    pub program: Seq<char>,
    pub args: Seq<Seq<char>>,
}

impl View for Lookup {
    type V = LookupView;

    open spec fn view(&self) -> LookupView {
        LookupView { program: self.program@, args: self.args.deep_view() }
    }
}

/// What the lookup command left behind: whether it reported success, and
/// what it wrote to its standard output.
#[derive(Debug, PartialEq, Eq)]
pub struct LookupOutput {
    pub success: bool,
    pub stdout: Vec<u8>,
}

/// What the caller does next while looking for the executable.
#[derive(Debug, PartialEq, Eq)]
pub enum LocateStep {
    /// Run the lookup command; continue with `locate_resolved`.
    Resolve(Lookup),
    /// Read the path of the user's home directory; continue with
    /// `locate_home`.
    ReadHome,
    /// Test whether the candidate at `index` exists; continue with
    /// `locate_probed`.
    Probe { candidates: Vec<String>, index: usize },
    /// The search is over with this answer.
    Done(Option<String>),
}

/// What a `LocateStep` holds, as plain values.
pub enum LocateStepView {
    Resolve(LookupView),
    ReadHome,
    Probe { candidates: Seq<Seq<char>>, index: int },
    Done(Option<Seq<char>>),
}

impl View for LocateStep {
    type V = LocateStepView;

    open spec fn view(&self) -> LocateStepView {
        match self {
            LocateStep::Resolve(lookup) => LocateStepView::Resolve(lookup@),
            LocateStep::ReadHome => LocateStepView::ReadHome,
            LocateStep::Probe { candidates, index } => LocateStepView::Probe {
                candidates: candidates.deep_view(),
                index: *index as int,
            },
            LocateStep::Done(path) => LocateStepView::Done(text_view(*path)),
        }
    }
}

/// The shell's lookup of the gateway executable by its name.
pub open spec fn lookup_command() -> LookupView {
    LookupView { program: "which"@, args: seq!["openclaw"@] }
}

/// The system directories in which the executable is looked for, in the
/// order in which they are tried. They need no home directory.
pub open spec fn system_candidates() -> Seq<Seq<char>> {
    seq!["/usr/local/bin/openclaw"@, "/opt/homebrew/bin/openclaw"@]
}

/// The places where the executable is looked for when the shell does not
/// know it and the user's home directory is `home`, in the order in which
/// they are tried: two below the home directory, then the system
/// directories.
pub open spec fn install_candidates(home: Seq<char>) -> Seq<Seq<char>> {
    seq![home + "/.npm-global/bin/openclaw"@, home + "/node_modules/.bin/openclaw"@]
        + system_candidates()
}

/// The places that are probed when the shell does not know the executable:
/// all install locations where a home directory is known, and the system
/// directories alone where none is.
pub open spec fn searched_candidates(home: Option<Seq<char>>) -> Seq<Seq<char>> {
    match home {
        None => system_candidates(),
        Some(dir) => install_candidates(dir),
    }
}

/// How the search goes on from the lookup's answer in `text`: a successful
/// lookup whose answer is more than white space ends the search with the
/// answer, trimmed; otherwise the home directory is asked for.
pub open spec fn after_answer(success: bool, text: Seq<char>) -> LocateStepView {
    if success && trimmed(text).len() > 0 {
        LocateStepView::Done(Some(trimmed(text)))
    } else {
        LocateStepView::ReadHome
    }
}

/// How the search goes on once the lookup command has been tried: a
/// command that could not even be run has given no answer, and the search
/// turns to the install locations as it does after an answer of no use.
pub open spec fn after_resolve(ran: Option<(bool, Seq<char>)>) -> LocateStepView {
    match ran {
        None => LocateStepView::ReadHome,
        Some((success, text)) => after_answer(success, text),
    }
}

/// How the search goes on once the home directory has been asked for: the
/// first candidate is probed, of all install locations where a home
/// directory is known and of the system directories alone where none is.
pub open spec fn after_home(home: Option<Seq<char>>) -> LocateStepView {
    match home {
        None => LocateStepView::Probe { candidates: system_candidates(), index: 0 },
        Some(dir) => LocateStepView::Probe { candidates: install_candidates(dir), index: 0 },
    }
}

/// How the search goes on once the candidate at `index` has been probed: one
/// that exists ends the search; otherwise the next one is probed, and after
/// the last one the search ends without a result.
pub open spec fn after_probe(candidates: Seq<Seq<char>>, index: int, present: bool) -> LocateStepView {
    if index < 0 || index >= candidates.len() {
        LocateStepView::Done(None)
    } else if present {
        LocateStepView::Done(Some(candidates[index]))
    } else if index + 1 < candidates.len() {
        LocateStepView::Probe { candidates, index: index + 1 }
    } else {
        LocateStepView::Done(None)
    }
}

/// The text of what the lookup command wrote, where it ran.
pub open spec fn lookup_view(ran: Option<LookupOutput>) -> Option<(bool, Seq<char>)> {
    match ran {
        None => None,
        Some(output) => Some((output.success, utf8_lossy(output.stdout@))),
    }
}

/// Begins the search: the shell is asked first.
pub fn locate() -> (step: LocateStep)
    ensures
        step@ == LocateStepView::Resolve(lookup_command()),
{
    let mut args: Vec<String> = Vec::new();
    args.push(String::from_str("openclaw"));
    let lookup = Lookup { program: String::from_str("which"), args };
    assert(lookup@.args =~= lookup_command().args);
    LocateStep::Resolve(lookup)
}

/// Continues the search with the lookup's answer as text.
pub fn locate_answered(success: bool, text: &str) -> (step: LocateStep)
    ensures
        step@ == after_answer(success, text@),
{
    if success {
        let path = trim(text);
        if path.as_str().unicode_len() > 0 {
            return LocateStep::Done(Some(path));
        }
    }
    LocateStep::ReadHome
}

/// Continues the search with what the lookup command left behind, or with
/// nothing where it could not be run. Its output is read as UTF-8, with the
/// replacement character for what is none: output that is valid UTF-8 is
/// read as the text that it encodes.
pub fn locate_resolved(ran: Option<LookupOutput>) -> (step: LocateStep)
    ensures
        step@ == after_resolve(lookup_view(ran)),
        ran matches Some(output) ==> (valid_utf8(output.stdout@) ==> step@ == after_answer(
            output.success,
            decode_utf8(output.stdout@),
        )),
{
    match ran {
        None => LocateStep::ReadHome,
        Some(output) => {
            let text = decode_lossy(&output.stdout);
            locate_answered(output.success, text.as_str())
        },
    }
}

/// Continues the search with the user's home directory, if there is one.
/// Without one the system directories are still probed.
pub fn locate_home(home: Option<String>) -> (step: LocateStep)
    ensures
        step@ == after_home(text_view(home)),
{
    let mut candidates: Vec<String> = Vec::new();
    match home {
        None => {},
        Some(dir) => {
            candidates.push(dir.clone().concat("/.npm-global/bin/openclaw"));
            candidates.push(dir.concat("/node_modules/.bin/openclaw"));
        },
    }
    candidates.push(String::from_str("/usr/local/bin/openclaw"));
    candidates.push(String::from_str("/opt/homebrew/bin/openclaw"));
    assert(candidates.deep_view() =~= searched_candidates(text_view(home)));
    LocateStep::Probe { candidates, index: 0 }
}

/// Continues the search with the answer to whether the candidate at `index`
/// exists.
pub fn locate_probed(candidates: Vec<String>, index: usize, present: bool) -> (step: LocateStep)
    ensures
        step@ == after_probe(candidates.deep_view(), index as int, present),
{
    if index >= candidates.len() {
        LocateStep::Done(None)
    } else if present {
        LocateStep::Done(Some(candidates[index].clone()))
    } else if index + 1 < candidates.len() {
        LocateStep::Probe { candidates, index: index + 1 }
    } else {
        LocateStep::Done(None)
    }
}

/// What the system would answer during one search.
pub struct LocateWorld {
    /// Whether the lookup command reports success and the text it writes,
    /// or nothing where it cannot be run.
    pub ran: Option<(bool, Seq<char>)>,
    /// The user's home directory, if there is one.
    pub home: Option<Seq<char>>,
    /// The paths that exist.
    pub present: Set<Seq<char>>,
}

/// The probing of `candidates` from `index` on, step by step.
pub open spec fn probe_outcome(
    candidates: Seq<Seq<char>>,
    index: int,
    present: Set<Seq<char>>,
) -> Option<Seq<char>>
    decreases candidates.len() - index,
{
    if index < 0 || index >= candidates.len() {
        None
    } else {
        match after_probe(candidates, index, present.contains(candidates[index])) {
            LocateStepView::Probe { candidates: rest, index: next } => {
                if rest == candidates && next == index + 1 {
                    probe_outcome(rest, next, present)
                } else {
                    None
                }
            },
            LocateStepView::Done(found) => found,
            _ => None,
        }
    }
}

/// A search in `world`, step by step.
pub open spec fn locate_outcome(world: LocateWorld) -> Option<Seq<char>> {
    match after_resolve(world.ran) {
        LocateStepView::Done(found) => found,
        _ => match after_home(world.home) {
            LocateStepView::Probe { candidates, index } => probe_outcome(
                candidates,
                index,
                world.present,
            ),
            LocateStepView::Done(found) => found,
            _ => None,
        },
    }
}

/// Whether `path` is the first of `candidates`, from `index` on, that
/// exists.
pub open spec fn is_first_existing(
    candidates: Seq<Seq<char>>,
    index: int,
    present: Set<Seq<char>>,
    path: Seq<char>,
) -> bool {
    exists|at: int|
        index <= at < candidates.len() && #[trigger] candidates[at] == path && present.contains(path)
            && forall|before: int| index <= before < at ==> !present.contains(#[trigger] candidates[before])
}

/// Probing ends with the first candidate that exists, and without a result
/// exactly where none exists.
pub proof fn lemma_probe_finds_first(
    candidates: Seq<Seq<char>>,
    index: int,
    present: Set<Seq<char>>,
)
    requires
        0 <= index <= candidates.len(),
    ensures
        match probe_outcome(candidates, index, present) {
            Some(path) => is_first_existing(candidates, index, present, path),
            None => forall|at: int|
                index <= at < candidates.len() ==> !present.contains(#[trigger] candidates[at]),
        },
    decreases candidates.len() - index,
{
    if index < candidates.len() {
        if present.contains(candidates[index]) {
            assert(is_first_existing(candidates, index, present, candidates[index]));
        } else if index + 1 < candidates.len() {
            lemma_probe_finds_first(candidates, index + 1, present);
            match probe_outcome(candidates, index + 1, present) {
                Some(path) => {
                    let at = choose|at: int|
                        index + 1 <= at < candidates.len() && #[trigger] candidates[at] == path
                            && present.contains(path) && forall|before: int|
                            index + 1 <= before < at ==> !present.contains(#[trigger] candidates[before]);
                    assert(candidates[at] == path);
                    assert(is_first_existing(candidates, index, present, path));
                },
                None => {},
            }
        }
    }
}

/// Whether the shell's lookup gave an answer that can be used: it ran,
/// reported success and wrote more than white space.
pub open spec fn usable_answer(ran: Option<(bool, Seq<char>)>) -> bool {
    ran matches Some((success, text)) && success && trimmed(text).len() > 0
}

/// What a search comes to. A usable answer of the shell's lookup is the
/// result, trimmed. In every other case, whether the lookup ran or not and
/// whether a home directory is known or not, the result is the first of
/// the searched candidates that exists, and there is no result exactly
/// where none of them exists.
pub proof fn lemma_locate_outcome(world: LocateWorld)
    ensures
        usable_answer(world.ran) ==> locate_outcome(world) == Some(trimmed(world.ran->Some_0.1)),
        !usable_answer(world.ran) ==> match locate_outcome(world) {
            Some(path) => is_first_existing(
                searched_candidates(world.home),
                0,
                world.present,
                path,
            ),
            None => forall|at: int|
                0 <= at < searched_candidates(world.home).len() ==> !world.present.contains(
                    #[trigger] searched_candidates(world.home)[at],
                ),
        },
        !usable_answer(world.ran) ==> (locate_outcome(world) is None <==> forall|at: int|
            0 <= at < searched_candidates(world.home).len() ==> !world.present.contains(
                #[trigger] searched_candidates(world.home)[at],
            )),
{
    lemma_probe_finds_first(searched_candidates(world.home), 0, world.present);
}

/// The system directories are searched whatever else is known: where the
/// lookup gave no usable answer and one of them exists, the search has a
/// result.
pub proof fn lemma_system_directories_are_searched(world: LocateWorld, at: int)
    requires
        !usable_answer(world.ran),
        0 <= at < system_candidates().len(),
        world.present.contains(system_candidates()[at]),
    ensures
        locate_outcome(world) is Some,
{
    lemma_locate_outcome(world);
    let searched = searched_candidates(world.home);
    let offset = searched.len() - system_candidates().len();
    assert(searched[offset + at] == system_candidates()[at]);
}

} // verus!
