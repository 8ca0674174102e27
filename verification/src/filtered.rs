//! States of a card while it sits in a filtered deck of the sync
//! server's scheduler: a card is either previewed, rescheduled on a
//! short timer without touching its review history, or rescheduled
//! around the review state it will return to.

use vstd::prelude::*;

verus! {

/// How long a card waits until it is shown again.
#[derive(Clone, Copy, Debug, PartialEq, Eq, Structural)]
pub enum IntervalKind {
    InSecs(u32),
    InDays(u32),
}

/// Which kind of entry answering the card writes into the review log.
#[derive(Clone, Copy, Debug, PartialEq, Eq, Structural)]
pub enum RevlogReviewKind {
    Learning,
    Review,
    Relearning,
    Filtered,
}

/// The review state a rescheduled card keeps while filtered.
#[derive(Clone, Copy, Debug, PartialEq, Eq, Structural)]
pub struct ReviewState {
    /// The interval the card is scheduled at, in days.
    pub scheduled_days: u32,
    /// How many days have passed since it was due.
    pub elapsed_days: u32,
}

/// A card shown for preview only: answering it never touches its
/// review history, it only delays the next preview.
#[derive(Clone, Copy, Debug, PartialEq, Eq, Structural)]
pub struct PreviewState {
    /// The delay until the next preview, in seconds.
    pub scheduled_secs: u32,
    /// Whether the preview pass over the card is finished.
    pub finished: bool,
}

/// A card rescheduled inside the filtered deck, wrapped around the
/// review state it returns to when the deck is emptied.
#[derive(Clone, Copy, Debug, PartialEq, Eq, Structural)]
pub struct ReschedulingFilterState {
    pub original_state: ReviewState,
}

/// The scheduling parameters that the answer buttons of a previewed
/// card draw their delays from.
#[derive(Clone, Copy, Debug, PartialEq, Eq, Structural)]
pub struct StateContext {
    /// The preview delay of the again button, in seconds.
    pub again_secs: u32,
    /// The preview delay of the hard button, in seconds.
    pub hard_secs: u32,
    /// The preview delay of the good button, in seconds.
    pub good_secs: u32,
}

/// The state each answer button moves a filtered card into.
#[derive(Clone, Copy, Debug, PartialEq, Eq, Structural)]
pub struct NextCardStates {
    pub current: FilteredState,
    pub again: FilteredState,
    pub hard: FilteredState,
    pub good: FilteredState,
    pub easy: FilteredState,
}

/// The state of a card in a filtered deck.
#[derive(Clone, Copy, Debug, PartialEq, Eq, Structural)]
pub enum FilteredState {
    Preview(PreviewState),
    Rescheduling(ReschedulingFilterState),
}

impl FilteredState {
    /// The interval until the card is shown again: seconds within a
    /// preview, the kept review interval in days when rescheduling.
    pub open spec fn interval_kind_spec(self) -> IntervalKind {
        match self {
            FilteredState::Preview(state) => IntervalKind::InSecs(state.scheduled_secs),
            FilteredState::Rescheduling(state) => IntervalKind::InDays(
                state.original_state.scheduled_days,
            ),
        }
    }

    /// See `interval_kind_spec`.
    pub fn interval_kind(self) -> (kind: IntervalKind)
        ensures
            kind == self.interval_kind_spec(),
    {
        match self {
            FilteredState::Preview(state) => IntervalKind::InSecs(state.scheduled_secs),
            FilteredState::Rescheduling(state) => IntervalKind::InDays(
                state.original_state.scheduled_days,
            ),
        }
    }

    /// The review-log entry an answer writes: none for a preview, a
    /// review entry when rescheduling.
    pub open spec fn revlog_kind_spec(self) -> Option<RevlogReviewKind> {
        match self {
            FilteredState::Preview(_) => None,
            FilteredState::Rescheduling(_) => Some(RevlogReviewKind::Review),
        }
    }

    /// See `revlog_kind_spec`.
    pub fn revlog_kind(self) -> (kind: Option<RevlogReviewKind>)
        ensures
            kind == self.revlog_kind_spec(),
    {
        match self {
            FilteredState::Preview(_) => None,
            FilteredState::Rescheduling(_) => Some(RevlogReviewKind::Review),
        }
    }

    /// The state each answer button moves the card into: a previewed
    /// card is delayed by the button's preview delay and leaves the
    /// preview pass on easy, a rescheduled card keeps its wrapped state
    /// whatever is answered.
    pub open spec fn next_states_spec(self, ctx: StateContext) -> NextCardStates {
        match self {
            FilteredState::Preview(_) => NextCardStates {
                current: self,
                again: FilteredState::Preview(
                    PreviewState { scheduled_secs: ctx.again_secs, finished: false },
                ),
                hard: FilteredState::Preview(
                    PreviewState { scheduled_secs: ctx.hard_secs, finished: false },
                ),
                good: FilteredState::Preview(
                    PreviewState { scheduled_secs: ctx.good_secs, finished: false },
                ),
                easy: FilteredState::Preview(PreviewState { scheduled_secs: 0, finished: true }),
            },
            FilteredState::Rescheduling(_) => NextCardStates {
                current: self,
                again: self,
                hard: self,
                good: self,
                easy: self,
            },
        }
    }

    /// See `next_states_spec`.
    pub fn next_states(self, ctx: &StateContext) -> (next: NextCardStates)
        ensures
            next == self.next_states_spec(*ctx),
    {
        match self {
            FilteredState::Preview(_) => NextCardStates {
                current: self,
                again: FilteredState::Preview(
                    PreviewState { scheduled_secs: ctx.again_secs, finished: false },
                ),
                hard: FilteredState::Preview(
                    PreviewState { scheduled_secs: ctx.hard_secs, finished: false },
                ),
                good: FilteredState::Preview(
                    PreviewState { scheduled_secs: ctx.good_secs, finished: false },
                ),
                easy: FilteredState::Preview(PreviewState { scheduled_secs: 0, finished: true }),
            },
            FilteredState::Rescheduling(_) => NextCardStates {
                current: self,
                again: self,
                hard: self,
                good: self,
                easy: self,
            },
        }
    }

    /// The review state the card returns to: only a rescheduled card
    /// keeps one.
    pub open spec fn review_state_spec(self) -> Option<ReviewState> {
        match self {
            FilteredState::Preview(_) => None,
            FilteredState::Rescheduling(state) => Some(state.original_state),
        }
    }

    /// See `review_state_spec`.
    pub fn review_state(self) -> (state: Option<ReviewState>)
        ensures
            state == self.review_state_spec(),
    {
        match self {
            FilteredState::Preview(_) => None,
            FilteredState::Rescheduling(state) => Some(state.original_state),
        }
    }
}

} // verus!
