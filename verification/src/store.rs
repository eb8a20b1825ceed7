//! Loading and saving the credential document: which file is read, what
//! is written where, and which leftover is removed. The file operations
//! themselves are the caller's.
//!
//! To load, the caller asks [`load_plan`] with what exists on disk, reads
//! the file the plan names, and hands what it read to [`load_outcome`],
//! which gives the document and the steps to carry out with the same
//! text, or the failure, after which nothing is written or removed. To
//! save, the caller takes the text from [`CredentialDocument::to_text`]
//! and carries out [`save_plan`]. After each step the caller asks
//! [`StoreStep::settle`] whether to go on. Two flows that save at the
//! same time each write a whole document, so the later write wins: a
//! flow loads, changes its own part, and saves.

use vstd::prelude::*;
use crate::document::{decode_document, CredentialDocument, CredentialDocumentView};
use crate::error::AuthError;
use crate::json::parsed;
use crate::paths::{legacy_paths, mirror_path};

verus! {

/// A file that holds, or held, the credential document.
#[derive(Debug, Clone, Copy, PartialEq, Eq, Structural)]
pub enum Place {
    /// The one authoritative file, in the application-data directory.
    Canonical,
    /// The copy kept where the synchronisation process looks for it.
    Mirror,
    /// A location of an earlier version, by its position among the
    /// legacy candidates.
    Legacy(usize),
}

/// One file operation of a plan.
#[derive(Debug, Clone, Copy, PartialEq, Eq, Structural)]
pub enum StoreStep {
    /// Write the document's text in one piece, creating the directory
    /// first. Where `required`, a failure ends the plan with
    /// [`AuthError::Storage`]; otherwise it is passed over.
    Write { place: Place, required: bool },
    /// Remove the file; a failure is passed over.
    Remove { place: Place },
}

/// What to read, and what to do once it has been read and understood.
#[derive(Debug, Clone, PartialEq, Eq)]
pub struct LoadPlan {
    /// The file to read; `None` where there is no document on disk.
    pub source: Option<Place>,
    /// The operations that bring the disk to its canonical form.
    pub follow_up: Vec<StoreStep>,
}

/// How many legacy candidates there are.
pub open spec fn legacy_count() -> int {
    3
}

/// Whether legacy candidate `i` is the mirror itself, which is kept.
pub open spec fn is_mirror(i: int) -> bool {
    legacy_paths()[i] == mirror_path()
}

/// The first legacy candidate at or after `from` that is present. A
/// candidate without an entry in `present` counts as absent.
pub open spec fn first_present(present: Seq<bool>, from: int) -> Option<int>
    decreases legacy_count() - from,
{
    if from < 0 || from >= legacy_count() || from >= present.len() {
        None
    } else if present[from] {
        Some(from)
    } else {
        first_present(present, from + 1)
    }
}

/// The two writes of every save: the canonical file, which must succeed,
/// and the mirror, which is best effort.
pub open spec fn writes() -> Seq<StoreStep> {
    seq![
        StoreStep::Write { place: Place::Canonical, required: true },
        StoreStep::Write { place: Place::Mirror, required: false },
    ]
}

/// The removal of legacy candidate `i`, unless it is the mirror.
pub open spec fn removal(i: int) -> Seq<StoreStep> {
    if is_mirror(i) {
        Seq::empty()
    } else {
        seq![StoreStep::Remove { place: Place::Legacy(i as usize) }]
    }
}

/// The removals of the legacy candidates at or after `from` that are
/// present, in order.
pub open spec fn removals(present: Seq<bool>, from: int) -> Seq<StoreStep>
    decreases legacy_count() - from,
{
    if from < 0 || from >= legacy_count() || from >= present.len() {
        Seq::empty()
    } else if present[from] {
        removal(from) + removals(present, from + 1)
    } else {
        removals(present, from + 1)
    }
}

/// The source and the follow-up of a load.
pub open spec fn load_plan_of(canonical: bool, legacy: Seq<bool>) -> (Option<Place>, Seq<StoreStep>) {
    if canonical {
        (Some(Place::Canonical), Seq::empty())
    } else {
        match first_present(legacy, 0) {
            Some(i) => (Some(Place::Legacy(i as usize)), writes() + removal(i)),
            None => (None, Seq::empty()),
        }
    }
}

/// The operations of a save.
pub open spec fn save_plan_of(legacy: Seq<bool>) -> Seq<StoreStep> {
    writes() + removals(legacy, 0)
}

/// Of the legacy candidates, the first is the mirror and the others are
/// not.
pub proof fn lemma_mirror_among_legacy()
    ensures
        is_mirror(0),
        !is_mirror(1),
        !is_mirror(2),
{
    reveal_strlit("config.json");
    reveal_strlit("resources/config.json");
    reveal_strlit("src-tauri/resources/config.json");
    assert("config.json"@.len() == 11);
    assert("resources/config.json"@.len() == 21);
    assert("src-tauri/resources/config.json"@.len() == 31);
    assert(legacy_paths()[1][0] != mirror_path()[0]);
    assert(legacy_paths()[2][0] != mirror_path()[0]);
}

fn removal_of(i: usize) -> (r: Vec<StoreStep>)
    requires
        i < legacy_count(),
    ensures
        r@ == removal(i as int),
{
    proof {
        lemma_mirror_among_legacy();
    }
    let mut r: Vec<StoreStep> = Vec::new();
    if i != 0 {
        r.push(StoreStep::Remove { place: Place::Legacy(i) });
        assert(r@ =~= removal(i as int));
    }
    r
}

fn both_writes() -> (r: Vec<StoreStep>)
    ensures
        r@ == writes(),
{
    let mut r: Vec<StoreStep> = Vec::new();
    r.push(StoreStep::Write { place: Place::Canonical, required: true });
    r.push(StoreStep::Write { place: Place::Mirror, required: false });
    assert(r@ =~= writes());
    r
}

/// Decides what a load reads. `canonical_exists` says whether the
/// canonical file is there; `legacy_exists[i]` says whether legacy
/// candidate `i` is.
///
/// The canonical file is read where it exists. Otherwise the first
/// legacy candidate that exists is read, copied to the canonical file
/// and to the mirror, and removed unless it is the mirror. Where nothing
/// exists there is nothing to read, and the document is the default one.
pub fn load_plan(canonical_exists: bool, legacy_exists: &Vec<bool>) -> (r: LoadPlan)
    ensures
        (r.source, r.follow_up@) == load_plan_of(canonical_exists, legacy_exists@),
{
    if canonical_exists {
        return LoadPlan { source: Some(Place::Canonical), follow_up: Vec::new() };
    }
    let mut i: usize = 0;
    while i < 3 && i < legacy_exists.len()
        invariant
            i <= 3,
            !canonical_exists,
            first_present(legacy_exists@, 0) == first_present(legacy_exists@, i as int),
        decreases 3 - i,
    {
        if legacy_exists[i] {
            let mut follow_up = both_writes();
            let mut tail = removal_of(i);
            follow_up.append(&mut tail);
            return LoadPlan { source: Some(Place::Legacy(i)), follow_up };
        }
        i += 1;
    }
    LoadPlan { source: None, follow_up: Vec::new() }
}

/// Decides what a save does: it writes the canonical file and the
/// mirror, and removes every legacy candidate that exists and is not the
/// mirror, so that no second source of truth stays behind.
pub fn save_plan(legacy_exists: &Vec<bool>) -> (r: Vec<StoreStep>)
    ensures
        r@ == save_plan_of(legacy_exists@),
{
    let mut r = both_writes();
    let mut i: usize = 0;
    while i < 3 && i < legacy_exists.len()
        invariant
            i <= 3,
            r@ + removals(legacy_exists@, i as int) == save_plan_of(legacy_exists@),
        decreases 3 - i,
    {
        let ghost before = r@;
        if legacy_exists[i] {
            let mut tail = removal_of(i);
            r.append(&mut tail);
            assert(r@ + removals(legacy_exists@, i + 1) =~= before + removals(
                legacy_exists@,
                i as int,
            ));
        }
        i += 1;
    }
    assert(r@ + removals(legacy_exists@, i as int) =~= r@);
    r
}

/// What a load returns for the text that was read, if any: the default
/// document where there was no file, and otherwise the document that
/// the text holds. A text that is no document is a storage error, never
/// a default.
pub fn loaded_document(text: Option<&str>) -> (r: Result<CredentialDocument, AuthError>)
    ensures
        match text {
            None => r matches Ok(d) && d@ == CredentialDocumentView::empty(),
            Some(t) => match r {
                Ok(d) => parsed(t@) matches Some(j) && decode_document(j) == Some(d@),
                Err(e) => e == AuthError::Storage && (parsed(t@) matches Some(j)
                    ==> decode_document(j) is None),
            },
        },
{
    match text {
        None => Ok(CredentialDocument::new()),
        Some(t) => CredentialDocument::from_text(t),
    }
}

/// What a load comes to, given the source and the follow-up of its
/// plan and the text that was read from the source, `None` where the
/// read failed: the document and the steps to carry out, or a storage
/// failure after which no step is carried out. Without a source the
/// document is the default one.
pub open spec fn load_outcome_of(
    source: Option<Place>,
    follow_up: Seq<StoreStep>,
    text: Option<Seq<char>>,
) -> Result<(CredentialDocumentView, Seq<StoreStep>), AuthError> {
    match source {
        None => Ok((CredentialDocumentView::empty(), follow_up)),
        Some(_) => match text {
            None => Err(AuthError::Storage),
            Some(t) => match parsed(t) {
                Some(j) => match decode_document(j) {
                    Some(d) => Ok((d, follow_up)),
                    None => Err(AuthError::Storage),
                },
                None => Err(AuthError::Storage),
            },
        },
    }
}

/// Decides what a load comes to once the source of its plan was read.
/// `text` is what was read, and `None` where the plan names no source
/// or the source could not be read.
///
/// Where the text holds a document, the result is that document
/// together with the plan's follow-up, to be carried out with the same
/// text. A source that could not be read, or whose text is no document,
/// is [`AuthError::Storage`]: then no step is handed out, so that
/// nothing is copied and nothing is removed.
pub fn load_outcome(plan: &LoadPlan, text: Option<&str>) -> (r: Result<
    (CredentialDocument, Vec<StoreStep>),
    AuthError,
>)
    ensures
        match r {
            Ok(pair) => load_outcome_of(plan.source, plan.follow_up@, text.deep_view()) == Ok::<
                (CredentialDocumentView, Seq<StoreStep>),
                AuthError,
            >((pair.0@, pair.1@)),
            Err(e) => e == AuthError::Storage && load_outcome_of(
                plan.source,
                plan.follow_up@,
                text.deep_view(),
            ) is Err,
        },
{
    let document = match plan.source {
        None => CredentialDocument::new(),
        Some(_) => match text {
            None => { return Err(AuthError::Storage); },
            Some(t) => match CredentialDocument::from_text(t) {
                Ok(d) => d,
                Err(e) => { return Err(e); },
            },
        },
    };
    let mut steps: Vec<StoreStep> = Vec::new();
    let mut i: usize = 0;
    while i < plan.follow_up.len()
        invariant
            i <= plan.follow_up.len(),
            steps@ == plan.follow_up@.subrange(0, i as int),
        decreases plan.follow_up.len() - i,
    {
        steps.push(plan.follow_up[i]);
        assert(steps@ =~= plan.follow_up@.subrange(0, i + 1));
        i += 1;
    }
    assert(steps@ =~= plan.follow_up@);
    Ok((document, steps))
}

impl StoreStep {
    /// Whether a plan goes on after this step: it ends with a storage
    /// failure exactly where a required write did not succeed.
    pub open spec fn settled(self, succeeded: bool) -> Result<(), AuthError> {
        match self {
            StoreStep::Write { place, required } => if required && !succeeded {
                Err(AuthError::Storage)
            } else {
                Ok(())
            },
            StoreStep::Remove { place } => Ok(()),
        }
    }

    /// Decides whether a plan goes on after this step was tried, given
    /// whether it succeeded. A required write that failed ends the plan
    /// with [`AuthError::Storage`]; every other failure is passed over.
    pub fn settle(&self, succeeded: bool) -> (r: Result<(), AuthError>)
        ensures
            r == self.settled(succeeded),
    {
        match self {
            StoreStep::Write { place, required } => {
                if *required && !succeeded {
                    Err(AuthError::Storage)
                } else {
                    Ok(())
                }
            },
            StoreStep::Remove { place } => Ok(()),
        }
    }
}

/// After a load that failed, no step is left to carry out: whatever the
/// plan, a text that is no document gives no follow-up.
pub proof fn lemma_failed_load_touches_nothing(
    source: Place,
    follow_up: Seq<StoreStep>,
    text: Option<Seq<char>>,
)
    requires
        text matches Some(t) ==> (parsed(t) matches Some(j) ==> decode_document(j) is None),
    ensures
        load_outcome_of(Some(source), follow_up, text) == Err::<
            (CredentialDocumentView, Seq<StoreStep>),
            AuthError,
        >(AuthError::Storage),
{
}

/// Where no file exists, a load reads nothing and touches nothing.
pub proof fn lemma_load_of_nothing(legacy: Seq<bool>)
    requires
        forall|i: int| 0 <= i < legacy.len() ==> !legacy[i],
    ensures
        load_plan_of(false, legacy) == (None::<Place>, Seq::<StoreStep>::empty()),
{
    lemma_first_present_none(legacy, 0);
}

proof fn lemma_first_present_none(legacy: Seq<bool>, from: int)
    requires
        forall|i: int| 0 <= i < legacy.len() ==> !legacy[i],
        0 <= from,
    ensures
        first_present(legacy, from) is None,
    decreases legacy_count() - from,
{
    if from < legacy_count() && from < legacy.len() {
        lemma_first_present_none(legacy, from + 1);
    }
}

/// Migration: where the document is present only at legacy candidate
/// `i`, a load reads it there, writes its text to the canonical file
/// and to the mirror, and removes the legacy file, unless that file is
/// the mirror itself.
pub proof fn lemma_migration(legacy: Seq<bool>, i: int)
    requires
        0 <= i < legacy_count(),
        i < legacy.len(),
        legacy[i],
        forall|j: int| 0 <= j < legacy.len() && j != i ==> !legacy[j],
    ensures
        load_plan_of(false, legacy).0 == Some(Place::Legacy(i as usize)),
        load_plan_of(false, legacy).1 == if is_mirror(i) {
            writes()
        } else {
            writes().push(StoreStep::Remove { place: Place::Legacy(i as usize) })
        },
{
    lemma_first_present_at(legacy, i, 0);
    if is_mirror(i) {
        assert(writes() + removal(i) =~= writes());
    } else {
        assert(writes() + removal(i) =~= writes().push(
            StoreStep::Remove { place: Place::Legacy(i as usize) },
        ));
    }
}

proof fn lemma_first_present_at(legacy: Seq<bool>, i: int, from: int)
    requires
        0 <= from <= i < legacy_count(),
        i < legacy.len(),
        legacy[i],
        forall|j: int| from <= j < i ==> !legacy[j],
    ensures
        first_present(legacy, from) == Some(i),
    decreases i - from,
{
    if from < i {
        lemma_first_present_at(legacy, i, from + 1);
    }
}

} // verus!
