//! The decisions of the fetch stage.
//!
//! Talking to the browser is the caller's part. What is decided here is
//! what to ask of it next, given what it answered last: a `Fetch` names
//! the pending request, the caller carries it out and reports the answer
//! as a `FetchEvent`, and `Fetch::advance` moves on. A run ends with the
//! fragments of the page or with the error that stopped it, never with
//! both and never with a part of the fragments.

use crate::error::GatherError;
use vstd::prelude::*;
use vstd::string::*;
use vstd::utf8::{encode_utf8, encode_utf8_decode_utf8};

verus! {

/// Whether the browser session can still be used.
#[derive(Clone, Copy, Debug, PartialEq, Eq, Structural)]
pub enum SessionState {
    Open,
    Closed,
}

impl SessionState {
    /// Closes the session. The flag says whether there was one to tear
    /// down: closing a closed session does nothing.
    pub fn close(self) -> (out: (SessionState, bool))
        ensures
            out.0 == SessionState::Closed,
            out.1 == (self == SessionState::Open),
    {
        match self {
            SessionState::Open => (SessionState::Closed, true),
            SessionState::Closed => (SessionState::Closed, false),
        }
    }

    /// Passes an open session and turns a closed one down.
    pub fn require_open(self) -> (out: Result<(), GatherError>)
        ensures
            self == SessionState::Open ==> out == Ok::<(), GatherError>(()),
            self == SessionState::Closed ==> out == Err::<(), GatherError>(
                GatherError::SessionDropped(),
            ),
    {
        match self {
            SessionState::Open => Ok(()),
            SessionState::Closed => Err(GatherError::SessionDropped()),
        }
    }
}

/// Whether the session ended up somewhere else than it was sent: the
/// address it reports differs from the one requested. This is worth a
/// warning and no more: the run goes on either way.
pub fn diverged(requested: &str, current: &str) -> (moved: bool)
    ensures
        moved == (requested@ != current@),
{
    let wanted = requested.as_bytes();
    let got = current.as_bytes();
    if wanted.len() != got.len() {
        return true;
    }
    let mut i: usize = 0;
    while i < wanted.len()
        invariant
            i <= wanted.len(),
            wanted.len() == got.len(),
            wanted@ == encode_utf8(requested@),
            got@ == encode_utf8(current@),
            forall|k: int| 0 <= k < i ==> wanted[k] == got[k],
        decreases wanted.len() - i,
    {
        if wanted[i] != got[i] {
            return true;
        }
        i += 1;
    }
    proof {
        assert(wanted@ =~= got@);
        encode_utf8_decode_utf8(requested@);
        encode_utf8_decode_utf8(current@);
    }
    false
}

/// Which elements of the page are asked for.
#[derive(Clone, Copy, Debug, PartialEq, Eq, Structural)]
pub enum Selector {
    /// Every `article` element: the first choice.
    Article,
    /// The `body`: the fallback for a page without articles.
    Body,
}

impl Selector {
    /// The selector as the browser takes it.
    pub fn css(self) -> (css: &'static str)
        ensures
            self == Selector::Article ==> css@ == "article"@,
            self == Selector::Body ==> css@ == "body"@,
    {
        match self {
            Selector::Article => "article",
            Selector::Body => "body",
        }
    }
}

/// What the caller is to ask of the browser.
#[derive(Clone, Copy, Debug, PartialEq, Eq, Structural)]
pub enum FetchAction {
    /// Load the requested address.
    Navigate,
    /// Report the address that the session is at.
    ReadAddress,
    /// Locate the elements that the selector matches.
    Find(Selector),
    /// Read the outer markup of the located element with this index.
    ReadMarkup(usize),
    /// Nothing: the run is over.
    Stop,
}

/// What the browser answered.
#[derive(Debug)]
pub enum FetchEvent {
    /// The address was loaded, or could not be.
    Navigated(Result<(), fantoccini::error::CmdError>),
    /// The address that the session is at, or why it cannot be told.
    Address(Result<String, fantoccini::error::CmdError>),
    /// How many elements were located, or why none could be.
    Found(Result<usize, fantoccini::error::CmdError>),
    /// The markup of the element asked for, or why it could not be read.
    Markup(Result<String, fantoccini::error::CmdError>),
}

/// How far a fetch has come.
#[derive(Debug)]
pub enum Fetch {
    /// The address is being loaded.
    Navigating,
    /// The session is asked where it is.
    Addressing,
    /// Elements are being located.
    Finding(Selector),
    /// `found` elements were located and `fragments` holds the markup of
    /// the first of them.
    Reading { found: usize, fragments: Vec<String> },
    /// Every element was read.
    Done(Vec<String>),
    /// The run was stopped.
    Failed(GatherError),
}

/// A fetch with its texts as sequences of characters.
pub enum FetchModel {
    Navigating,
    Addressing,
    Finding(Selector),
    Reading { found: nat, fragments: Seq<Seq<char>> },
    Done(Seq<Seq<char>>),
    Failed(GatherError),
}

impl View for Fetch {
    type V = FetchModel;

    open spec fn view(&self) -> FetchModel {
        match *self {
            Fetch::Navigating => FetchModel::Navigating,
            Fetch::Addressing => FetchModel::Addressing,
            Fetch::Finding(selector) => FetchModel::Finding(selector),
            Fetch::Reading { found, fragments } => FetchModel::Reading {
                found: found as nat,
                fragments: fragments.deep_view(),
            },
            Fetch::Done(fragments) => FetchModel::Done(fragments.deep_view()),
            Fetch::Failed(error) => FetchModel::Failed(error),
        }
    }
}

/// The fragment that one read gives: the markup, or nothing where the
/// read failed. One element that cannot be read does not stop the run.
pub open spec fn fragment_of(read: Result<String, fantoccini::error::CmdError>) -> Seq<char> {
    match read {
        Ok(markup) => markup@,
        Err(_) => Seq::empty(),
    }
}

/// The state after `found` elements were located: reading starts, unless
/// there is nothing to read.
pub open spec fn located(found: nat) -> FetchModel {
    if found == 0 {
        FetchModel::Done(Seq::empty())
    } else {
        FetchModel::Reading { found, fragments: Seq::empty() }
    }
}

/// The state after one more fragment was read.
pub open spec fn collected(found: nat, fragments: Seq<Seq<char>>) -> FetchModel {
    if fragments.len() >= found {
        FetchModel::Done(fragments)
    } else {
        FetchModel::Reading { found, fragments }
    }
}

/// The state that follows `state` on `event`.
///
/// A failure to load the address, to tell the address or to locate
/// elements, articles or body, stops the run with that failure. The search
/// goes on to the body only where articles were looked for and none was
/// there. An answer to a question that was not asked changes nothing, and
/// nothing changes a run that is over.
pub open spec fn step(state: FetchModel, event: FetchEvent) -> FetchModel {
    match (state, event) {
        (FetchModel::Navigating, FetchEvent::Navigated(Ok(_))) => FetchModel::Addressing,
        (FetchModel::Navigating, FetchEvent::Navigated(Err(error))) => FetchModel::Failed(
            GatherError::CmdError(error),
        ),
        (FetchModel::Addressing, FetchEvent::Address(Ok(_))) => FetchModel::Finding(
            Selector::Article,
        ),
        (FetchModel::Addressing, FetchEvent::Address(Err(error))) => FetchModel::Failed(
            GatherError::CmdError(error),
        ),
        (FetchModel::Finding(Selector::Article), FetchEvent::Found(Ok(found))) => if found == 0 {
            FetchModel::Finding(Selector::Body)
        } else {
            located(found as nat)
        },
        (FetchModel::Finding(Selector::Body), FetchEvent::Found(Ok(found))) => located(
            found as nat,
        ),
        (FetchModel::Finding(_), FetchEvent::Found(Err(error))) => FetchModel::Failed(
            GatherError::CmdError(error),
        ),
        (FetchModel::Reading { found, fragments }, FetchEvent::Markup(read)) => collected(
            found,
            fragments.push(fragment_of(read)),
        ),
        _ => state,
    }
}

/// The request that is pending in `state`.
pub open spec fn pending(state: FetchModel) -> FetchAction {
    match state {
        FetchModel::Navigating => FetchAction::Navigate,
        FetchModel::Addressing => FetchAction::ReadAddress,
        FetchModel::Finding(selector) => FetchAction::Find(selector),
        FetchModel::Reading { found, fragments } => FetchAction::ReadMarkup(
            fragments.len() as usize,
        ),
        FetchModel::Done(_) => FetchAction::Stop,
        FetchModel::Failed(_) => FetchAction::Stop,
    }
}

/// What a run that is over has to show: the fragments or the error.
pub open spec fn result_of(state: FetchModel) -> Option<Result<Seq<Seq<char>>, GatherError>> {
    match state {
        FetchModel::Done(fragments) => Some(Ok(fragments)),
        FetchModel::Failed(error) => Some(Err(error)),
        _ => None,
    }
}

/// Whether `event` answers the question `action`.
pub open spec fn answers(event: FetchEvent, action: FetchAction) -> bool {
    match (action, event) {
        (FetchAction::Navigate, FetchEvent::Navigated(_)) => true,
        (FetchAction::ReadAddress, FetchEvent::Address(_)) => true,
        (FetchAction::Find(_), FetchEvent::Found(_)) => true,
        (FetchAction::ReadMarkup(_), FetchEvent::Markup(_)) => true,
        _ => false,
    }
}

/// While elements are read, some are still unread: the index that is
/// asked for next is the index of a located element.
pub open spec fn well_formed(state: FetchModel) -> bool {
    state matches FetchModel::Reading { found, fragments } ==> fragments.len() < found
}

/// How many stages a run has before it, the stage it is in included.
pub open spec fn stages_left(state: FetchModel) -> nat {
    match state {
        FetchModel::Navigating => 5,
        FetchModel::Addressing => 4,
        FetchModel::Finding(Selector::Article) => 3,
        FetchModel::Finding(Selector::Body) => 2,
        FetchModel::Reading { .. } => 1,
        FetchModel::Done(_) => 0,
        FetchModel::Failed(_) => 0,
    }
}

/// How many elements are still unread.
pub open spec fn unread(state: FetchModel) -> nat {
    match state {
        FetchModel::Reading { found, fragments } => if fragments.len() < found {
            (found - fragments.len()) as nat
        } else {
            0
        },
        _ => 0,
    }
}

/// A run that is over stays as it is, whatever is reported to it. So a
/// failure, once met, is all that the run has to show.
pub proof fn lemma_finished_run_stays(state: FetchModel, event: FetchEvent)
    requires
        result_of(state) is Some,
    ensures
        step(state, event) == state,
        pending(state) == FetchAction::Stop,
{
}

/// Every step leaves a run in order, and a run that starts is in order.
pub proof fn lemma_step_keeps_order(state: FetchModel, event: FetchEvent)
    requires
        well_formed(state),
    ensures
        well_formed(step(state, event)),
        well_formed(FetchModel::Navigating),
{
}

/// A run does not go on for ever: each answer to the pending question
/// takes the run to a later stage, or leaves fewer elements unread.
pub proof fn lemma_answer_makes_progress(state: FetchModel, event: FetchEvent)
    requires
        result_of(state) is None,
        answers(event, pending(state)),
    ensures
        stages_left(step(state, event)) < stages_left(state) || (stages_left(step(state, event))
            == stages_left(state) && unread(step(state, event)) < unread(state)),
{
}

/// The texts of an outcome.
pub open spec fn outcome_view(outcome: Option<Result<Vec<String>, GatherError>>) -> Option<
    Result<Seq<Seq<char>>, GatherError>,
> {
    match outcome {
        Some(Ok(fragments)) => Some(Ok(fragments.deep_view())),
        Some(Err(error)) => Some(Err(error)),
        None => None,
    }
}

impl Fetch {
    /// Starts a fetch. With a closed session it is over at once.
    pub fn begin(session: SessionState) -> (fetch: Fetch)
        ensures
            session == SessionState::Open ==> fetch@ == FetchModel::Navigating,
            session == SessionState::Closed ==> fetch@ == FetchModel::Failed(
                GatherError::SessionDropped(),
            ),
            well_formed(fetch@),
    {
        match session {
            SessionState::Open => Fetch::Navigating,
            SessionState::Closed => Fetch::Failed(GatherError::SessionDropped()),
        }
    }

    /// The request that is pending. In a run that is in order, an index
    /// asked for is below the number of elements that were located.
    pub fn action(&self) -> (action: FetchAction)
        ensures
            action == pending(self@),
            well_formed(self@) ==> (action matches FetchAction::ReadMarkup(index)
                ==> self@ matches FetchModel::Reading { found, .. } && index < found),
    {
        match self {
            Fetch::Navigating => FetchAction::Navigate,
            Fetch::Addressing => FetchAction::ReadAddress,
            Fetch::Finding(selector) => FetchAction::Find(*selector),
            Fetch::Reading { found, fragments } => FetchAction::ReadMarkup(fragments.len()),
            Fetch::Done(_) => FetchAction::Stop,
            Fetch::Failed(_) => FetchAction::Stop,
        }
    }

    /// Moves on with the browser's answer.
    pub fn advance(self, event: FetchEvent) -> (next: Fetch)
        ensures
            next@ == step(self@, event),
            well_formed(self@) ==> well_formed(next@),
    {
        match (self, event) {
            (Fetch::Navigating, FetchEvent::Navigated(Ok(_))) => Fetch::Addressing,
            (Fetch::Navigating, FetchEvent::Navigated(Err(error))) => Fetch::Failed(
                GatherError::CmdError(error),
            ),
            (Fetch::Addressing, FetchEvent::Address(Ok(_))) => Fetch::Finding(Selector::Article),
            (Fetch::Addressing, FetchEvent::Address(Err(error))) => Fetch::Failed(
                GatherError::CmdError(error),
            ),
            (Fetch::Finding(Selector::Article), FetchEvent::Found(Ok(found))) => {
                if found == 0 {
                    Fetch::Finding(Selector::Body)
                } else {
                    Fetch::start_reading(found)
                }
            },
            (Fetch::Finding(Selector::Body), FetchEvent::Found(Ok(found))) => Fetch::start_reading(
                found,
            ),
            (Fetch::Finding(_), FetchEvent::Found(Err(error))) => Fetch::Failed(
                GatherError::CmdError(error),
            ),
            (Fetch::Reading { found, fragments }, FetchEvent::Markup(read)) => {
                let ghost before = fragments.deep_view();
                let mut fragments = fragments;
                let fragment = match read {
                    Ok(markup) => markup,
                    Err(_) => String::new(),
                };
                fragments.push(fragment);
                assert(fragments.deep_view() =~= before.push(fragment_of(read)));
                if fragments.len() >= found {
                    Fetch::Done(fragments)
                } else {
                    Fetch::Reading { found, fragments }
                }
            },
            (state, _) => state,
        }
    }

    fn start_reading(found: usize) -> (fetch: Fetch)
        ensures
            fetch@ == located(found as nat),
    {
        let fragments: Vec<String> = Vec::new();
        assert(fragments.deep_view() =~= Seq::<Seq<char>>::empty());
        if found == 0 {
            Fetch::Done(fragments)
        } else {
            Fetch::Reading { found, fragments }
        }
    }

    /// The fragments or the error of a run that is over; `None` while it
    /// is not.
    pub fn outcome(self) -> (out: Option<Result<Vec<String>, GatherError>>)
        ensures
            outcome_view(out) == result_of(self@),
    {
        match self {
            Fetch::Done(fragments) => Some(Ok(fragments)),
            Fetch::Failed(error) => Some(Err(error)),
            _ => None,
        }
    }
}

} // verus!
