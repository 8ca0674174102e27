use sync_wizard::filtered::{
    FilteredState, IntervalKind, NextCardStates, PreviewState, ReschedulingFilterState,
    ReviewState, RevlogReviewKind, StateContext,
};

fn preview(secs: u32) -> FilteredState {
    FilteredState::Preview(PreviewState { scheduled_secs: secs, finished: false })
}

fn rescheduling(days: u32) -> FilteredState {
    FilteredState::Rescheduling(ReschedulingFilterState {
        original_state: ReviewState { scheduled_days: days, elapsed_days: 0 },
    })
}

#[test]
fn preview_intervals_are_in_seconds() {
    assert_eq!(preview(600).interval_kind(), IntervalKind::InSecs(600));
}

#[test]
fn rescheduling_keeps_the_review_interval_in_days() {
    assert_eq!(rescheduling(12).interval_kind(), IntervalKind::InDays(12));
}

#[test]
fn only_rescheduling_writes_a_review_log_entry() {
    assert_eq!(preview(60).revlog_kind(), None);
    assert_eq!(rescheduling(3).revlog_kind(), Some(RevlogReviewKind::Review));
}

#[test]
fn only_rescheduling_keeps_a_review_state() {
    assert_eq!(preview(60).review_state(), None);
    assert_eq!(
        rescheduling(3).review_state(),
        Some(ReviewState { scheduled_days: 3, elapsed_days: 0 })
    );
}

#[test]
fn preview_answers_delay_by_the_context_and_easy_finishes() {
    let ctx = StateContext { again_secs: 60, hard_secs: 300, good_secs: 600 };
    let state = preview(120);
    let next: NextCardStates = state.next_states(&ctx);
    assert_eq!(next.current, state);
    assert_eq!(next.again, preview(60));
    assert_eq!(next.hard, preview(300));
    assert_eq!(next.good, preview(600));
    assert_eq!(
        next.easy,
        FilteredState::Preview(PreviewState { scheduled_secs: 0, finished: true })
    );
}

#[test]
fn rescheduling_answers_keep_the_wrapped_state() {
    let ctx = StateContext { again_secs: 60, hard_secs: 300, good_secs: 600 };
    let state = rescheduling(7);
    let next = state.next_states(&ctx);
    assert_eq!(next.current, state);
    assert_eq!(next.again, state);
    assert_eq!(next.hard, state);
    assert_eq!(next.good, state);
    assert_eq!(next.easy, state);
}
