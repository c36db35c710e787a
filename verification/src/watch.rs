//! The loop controller: the state that one watch keeps between two polls,
//! and what one poll does to it.
//!
//! A watch begins with the content that it finds, which it does not
//! dispatch. From then on it polls and sleeps in turn: [`WatchState::poll`]
//! is what one poll makes of the content just read, and
//! [`WatchState::control`] says what follows it, the sleep before the next
//! poll or the end. A watch that has reached its cap has ended, and a poll
//! leaves it as it is.

use crate::config::{Configuration, ConfigurationView, Mode, ModeView, EXIT_DONE};
use crate::decimal::decimal;
use crate::dispatch::{
    console_output, counter_name, dispatch_image, dispatch_text, file_output, image_actions,
    image_variables, law_one_entry_per_text, lemma_output_of_sequence, text_actions, Action,
    ActionView,
};
use crate::template::{is_literal, is_plain, law_placeholder_is_replaced, placeholder};
use crate::filter::regex_matches;
use crate::snapshot::{rgba_len, snapshot_changed, ClipboardSnapshot, SnapshotView};
use vstd::prelude::*;

verus! {

/// What a watch remembers from one poll to the next.
#[derive(Debug)]
pub struct WatchState {
    previous: ClipboardSnapshot,
    dispatch_count: u64,
    image_sequence: u64,
}

/// The mathematical content of a [`WatchState`].
pub struct WatchView {
    /// The content that was seen last.
    pub previous: SnapshotView,
    /// The number of changes dispatched so far.
    pub dispatch_count: nat,
    /// The number that the next saved image gets.
    pub image_sequence: nat,
}

impl View for WatchState {
    type V = WatchView;

    closed spec fn view(&self) -> WatchView {
        WatchView {
            previous: self.previous@,
            dispatch_count: self.dispatch_count as nat,
            image_sequence: self.image_sequence as nat,
        }
    }
}

/// What the loop does after a poll.
#[derive(Clone, Copy, Debug, PartialEq, Eq, Structural)]
pub enum Control {
    /// Wait for this many milliseconds, then poll again.
    Sleep(u64),
    /// End the process with this status.
    Exit(i32),
}

/// The state of a watch that begins with `first` on the clipboard: nothing
/// dispatched yet, and the first image to be numbered 1.
pub open spec fn initial(first: SnapshotView) -> WatchView {
    WatchView { previous: first, dispatch_count: 0, image_sequence: 1 }
}

/// Whether the watch has dispatched as many changes as its cap allows. A cap
/// of 0 allows any number.
pub open spec fn finished(state: WatchView, cap: nat) -> bool {
    cap != 0 && state.dispatch_count >= cap
}

/// Whether `current` is content that the mode dispatches: text in text
/// mode, a well-formed image in image mode.
pub open spec fn dispatchable(mode: ModeView, current: SnapshotView) -> bool {
    match mode {
        ModeView::Text { .. } => current is Text,
        ModeView::Image { .. } => current is Image && current.is_valid(),
    }
}

/// Whether the filter of the mode lets `current` pass. Only text mode has a
/// filter, and only text is held against it.
pub open spec fn passes_filter(mode: ModeView, current: SnapshotView) -> bool {
    match (mode, current) {
        (ModeView::Text { filter: Some(pattern), .. }, SnapshotView::Text(text)) => regex_matches(
            pattern,
            text,
        ),
        _ => true,
    }
}

/// Whether a poll that reads `current` dispatches it: the watch has not
/// ended, the content differs from the previous one, the mode dispatches
/// such content, and the filter lets it pass.
pub open spec fn accepts(
    state: WatchView,
    configuration: ConfigurationView,
    current: SnapshotView,
    passes: bool,
) -> bool {
    &&& !finished(state, configuration.count)
    &&& snapshot_changed(state.previous, current)
    &&& dispatchable(configuration.mode, current)
    &&& passes
}

/// The state after a poll that reads `current`.
///
/// A watch that has ended stays as it is. Absence is remembered, though it
/// is no change. A watch that reads what it saw before stays as it is. Any
/// other content becomes the previous one, whether it is dispatched or not;
/// a dispatch is counted.
pub open spec fn next_state(
    state: WatchView,
    configuration: ConfigurationView,
    current: SnapshotView,
    passes: bool,
) -> WatchView {
    if finished(state, configuration.count) {
        state
    } else if current is Absent {
        WatchView { previous: current, ..state }
    } else if !snapshot_changed(state.previous, current) {
        state
    } else if accepts(state, configuration, current, passes) {
        WatchView { previous: current, dispatch_count: state.dispatch_count + 1, ..state }
    } else {
        WatchView { previous: current, ..state }
    }
}

/// What a poll that reads `current` sends to the sinks.
pub open spec fn next_actions(
    state: WatchView,
    configuration: ConfigurationView,
    current: SnapshotView,
    passes: bool,
) -> Seq<ActionView> {
    if accepts(state, configuration, current, passes) {
        match (configuration.mode, current) {
            (ModeView::Text { sinks, .. }, SnapshotView::Text(text)) => text_actions(
                sinks,
                text,
                state.dispatch_count,
            ),
            (
                ModeView::Image { template },
                SnapshotView::Image { width, height, pixels },
            ) => image_actions(template, state.image_sequence, width, height, pixels),
            _ => seq![],
        }
    } else {
        seq![]
    }
}

/// The state after the outcome of saving an image is known: a saved image
/// uses up its sequence number.
pub open spec fn after_save(state: WatchView, saved: bool) -> WatchView {
    if saved {
        WatchView { image_sequence: state.image_sequence + 1, ..state }
    } else {
        state
    }
}

/// What the loop does after a poll: it ends with success once the cap is
/// reached, and sleeps for the interval until then.
pub open spec fn next_control(state: WatchView, configuration: ConfigurationView) -> Control {
    if finished(state, configuration.count) {
        Control::Exit(EXIT_DONE)
    } else {
        Control::Sleep(configuration.interval_ms as u64)
    }
}

/// Whether the filter of the configuration lets `current` pass.
pub fn filter_verdict(configuration: &Configuration, current: &ClipboardSnapshot) -> (passes: bool)
    ensures
        passes == passes_filter(configuration@.mode, current@),
{
    match (&configuration.mode, current) {
        (Mode::Text { filter: Some(filter), .. }, ClipboardSnapshot::Text(text)) => filter.accepts(
            text.as_str(),
        ),
        _ => true,
    }
}

impl WatchState {
    /// Begins a watch with the first content read. It is not dispatched.
    pub fn new(first: ClipboardSnapshot) -> (state: WatchState)
        ensures
            state@ == initial(first@),
    {
        WatchState { previous: first, dispatch_count: 0, image_sequence: 1 }
    }

    /// The content that was seen last.
    pub fn previous(&self) -> (previous: &ClipboardSnapshot)
        ensures
            previous@ == self@.previous,
    {
        &self.previous
    }

    /// The number of changes dispatched so far.
    pub fn dispatch_count(&self) -> (count: u64)
        ensures
            count == self@.dispatch_count,
    {
        self.dispatch_count
    }

    /// The number that the next saved image gets.
    pub fn image_sequence(&self) -> (sequence: u64)
        ensures
            sequence == self@.image_sequence,
    {
        self.image_sequence
    }

    /// Whether the watch has reached its cap.
    pub fn finished(&self, configuration: &Configuration) -> (done: bool)
        ensures
            done == finished(self@, configuration@.count),
    {
        configuration.count != 0 && self.dispatch_count >= configuration.count
    }

    /// What the loop does next.
    pub fn control(&self, configuration: &Configuration) -> (control: Control)
        ensures
            control == next_control(self@, configuration@),
    {
        if self.finished(configuration) {
            Control::Exit(EXIT_DONE)
        } else {
            Control::Sleep(configuration.interval_ms)
        }
    }

    /// Whether a dispatch can still be counted.
    pub open spec fn can_count(&self) -> bool {
        self@.dispatch_count < u64::MAX
    }

    /// Whether a saved image can still be numbered.
    pub open spec fn can_number(&self) -> bool {
        self@.image_sequence < u64::MAX
    }

    /// A poll whose change and filter verdict are known.
    fn settle(
        &mut self,
        configuration: &Configuration,
        current: ClipboardSnapshot,
        changed: bool,
        passes: bool,
    ) -> (actions: Vec<Action>)
        requires
            old(self).can_count(),
            changed == snapshot_changed(old(self)@.previous, current@),
        ensures
            final(self)@ == next_state(old(self)@, configuration@, current@, passes),
            actions.deep_view() == next_actions(old(self)@, configuration@, current@, passes),
    {
        let mut actions: Vec<Action> = Vec::new();
        if self.finished(configuration) {
            return actions;
        }
        if !changed {
            match current {
                ClipboardSnapshot::Absent => {
                    self.previous = current;
                },
                _ => {},
            }
            return actions;
        }
        if passes {
            match (&configuration.mode, &current) {
                (Mode::Text { sinks, .. }, ClipboardSnapshot::Text(text)) => {
                    actions = dispatch_text(sinks, text.as_str(), self.dispatch_count);
                    self.dispatch_count = self.dispatch_count + 1;
                },
                (Mode::Image { template }, ClipboardSnapshot::Image { width, height, pixels }) => {
                    if current.is_valid() {
                        let copy = pixels.clone();
                        actions.push(
                            dispatch_image(template, self.image_sequence, *width, *height, copy),
                        );
                        self.dispatch_count = self.dispatch_count + 1;
                    }
                },
                _ => {},
            }
        }
        self.previous = current;
        actions
    }

    /// One poll, with the verdict of the filter handed in: `passes` says
    /// whether the filter lets `current` pass.
    pub fn advance(
        &mut self,
        configuration: &Configuration,
        current: ClipboardSnapshot,
        passes: bool,
    ) -> (actions: Vec<Action>)
        requires
            old(self).can_count(),
        ensures
            final(self)@ == next_state(old(self)@, configuration@, current@, passes),
            actions.deep_view() == next_actions(old(self)@, configuration@, current@, passes),
    {
        let changed = current.changed_from(&self.previous);
        self.settle(configuration, current, changed, passes)
    }

    /// One poll: holds `current`, just read from the clipboard, against the
    /// previous content and against the filter, updates the state, and
    /// returns what is to be sent to the sinks.
    pub fn poll(&mut self, configuration: &Configuration, current: ClipboardSnapshot) -> (actions:
        Vec<Action>)
        requires
            old(self).can_count(),
        ensures
            final(self)@ == next_state(
                old(self)@,
                configuration@,
                current@,
                passes_filter(configuration@.mode, current@),
            ),
            actions.deep_view() == next_actions(
                old(self)@,
                configuration@,
                current@,
                passes_filter(configuration@.mode, current@),
            ),
    {
        let changed = current.changed_from(&self.previous);
        let passes = if changed && !self.finished(configuration) {
            filter_verdict(configuration, &current)
        } else {
            true
        };
        self.settle(configuration, current, changed, passes)
    }

    /// Records whether the image of the last dispatch was saved.
    pub fn image_saved(&mut self, saved: bool)
        requires
            old(self).can_number(),
        ensures
            final(self)@ == after_save(old(self)@, saved),
    {
        if saved {
            self.image_sequence = self.image_sequence + 1;
        }
    }
}

/// Content that a poll has seen is not taken up again: whatever the first
/// poll made of `current`, accepted or absorbed, a second poll that reads
/// the same content leaves the state as it is and sends nothing.
pub proof fn law_seen_once(
    state: WatchView,
    configuration: ConfigurationView,
    current: SnapshotView,
    passes_first: bool,
    passes_second: bool,
)
    ensures
        next_state(
            next_state(state, configuration, current, passes_first),
            configuration,
            current,
            passes_second,
        ) == next_state(state, configuration, current, passes_first),
        next_actions(
            next_state(state, configuration, current, passes_first),
            configuration,
            current,
            passes_second,
        ) == Seq::<ActionView>::empty(),
{
}

/// Content that the filter rejects becomes the previous content all the
/// same, while nothing is sent and nothing is counted.
pub proof fn law_rejected_is_absorbed(
    state: WatchView,
    configuration: ConfigurationView,
    current: SnapshotView,
)
    requires
        !finished(state, configuration.count),
        snapshot_changed(state.previous, current),
    ensures
        next_state(state, configuration, current, false) == (WatchView {
            previous: current,
            ..state
        }),
        next_actions(state, configuration, current, false) == Seq::<ActionView>::empty(),
{
}

/// Content that vanishes is never dispatched, but the absence is
/// remembered, so that the same content counts as changed when it comes
/// back.
pub proof fn law_absence_is_remembered(
    state: WatchView,
    configuration: ConfigurationView,
    passes: bool,
)
    requires
        !finished(state, configuration.count),
    ensures
        next_state(state, configuration, SnapshotView::Absent, passes) == (WatchView {
            previous: SnapshotView::Absent,
            ..state
        }),
        next_actions(state, configuration, SnapshotView::Absent, passes) == Seq::<
            ActionView,
        >::empty(),
        state.previous.is_present() ==> snapshot_changed(SnapshotView::Absent, state.previous),
{
}

/// A poll counts one dispatch at most, and never one beyond the cap; once
/// the cap is reached the watch stays ended.
pub proof fn law_cap_holds(
    state: WatchView,
    configuration: ConfigurationView,
    current: SnapshotView,
    passes: bool,
)
    ensures
        state.dispatch_count <= next_state(state, configuration, current, passes).dispatch_count
            <= state.dispatch_count + 1,
        configuration.count != 0 && state.dispatch_count <= configuration.count ==> next_state(
            state,
            configuration,
            current,
            passes,
        ).dispatch_count <= configuration.count,
        finished(state, configuration.count) ==> finished(
            next_state(state, configuration, current, passes),
            configuration.count,
        ),
        next_state(state, configuration, current, passes).dispatch_count == state.dispatch_count
            ==> next_actions(state, configuration, current, passes) == Seq::<ActionView>::empty(),
{
}

/// The state of a watch after it has polled `inputs` one after the other.
pub open spec fn run(
    state: WatchView,
    configuration: ConfigurationView,
    inputs: Seq<SnapshotView>,
) -> WatchView
    decreases inputs.len(),
{
    if inputs.len() == 0 {
        state
    } else {
        next_state(
            run(state, configuration, inputs.drop_last()),
            configuration,
            inputs.last(),
            passes_filter(configuration.mode, inputs.last()),
        )
    }
}

/// Whatever a watch reads, it dispatches no more often than it polls, and
/// with a cap no more often than the cap allows.
pub proof fn law_run_within_cap(
    first: SnapshotView,
    configuration: ConfigurationView,
    inputs: Seq<SnapshotView>,
)
    ensures
        run(initial(first), configuration, inputs).dispatch_count <= inputs.len(),
        configuration.count != 0 ==> run(initial(first), configuration, inputs).dispatch_count
            <= configuration.count,
    decreases inputs.len(),
{
    if inputs.len() > 0 {
        law_run_within_cap(first, configuration, inputs.drop_last());
    }
}

/// Whether `current` is content that the mode dispatches and that its
/// filter lets pass.
pub open spec fn acceptable(mode: ModeView, current: SnapshotView) -> bool {
    dispatchable(mode, current) && passes_filter(mode, current)
}

/// A watch, in whatever mode, that reads contents of which each is
/// acceptable and differs from the one before it dispatches every one of
/// them until the cap is reached, and none after that.
pub proof fn law_accepted_changes_fill_the_cap(
    first: SnapshotView,
    configuration: ConfigurationView,
    inputs: Seq<SnapshotView>,
)
    requires
        forall|k: int|
            0 <= k < inputs.len() ==> acceptable(configuration.mode, #[trigger] inputs[k]),
        inputs.len() > 0 ==> first != inputs[0],
        forall|k: int| 0 <= k < inputs.len() - 1 ==> #[trigger] inputs[k] != inputs[k + 1],
    ensures
        run(initial(first), configuration, inputs).dispatch_count == (if configuration.count != 0
            && configuration.count < inputs.len() {
            configuration.count
        } else {
            inputs.len()
        }),
        !finished(run(initial(first), configuration, inputs), configuration.count) ==> run(
            initial(first),
            configuration,
            inputs,
        ).previous == (if inputs.len() == 0 {
            first
        } else {
            inputs.last()
        }),
    decreases inputs.len(),
{
    if inputs.len() > 0 {
        let earlier = inputs.drop_last();
        assert forall|k: int| 0 <= k < earlier.len() - 1 implies #[trigger] earlier[k] != earlier[k
            + 1] by {
            assert(earlier[k] == inputs[k] && earlier[k + 1] == inputs[k + 1]);
        }
        law_accepted_changes_fill_the_cap(first, configuration, earlier);
        assert(acceptable(configuration.mode, inputs[inputs.len() - 1]));
        if earlier.len() > 0 {
            assert(earlier.last() == inputs[inputs.len() - 2]);
        }
    }
}

/// Everything that a watch sends to the sinks while it polls `inputs` one
/// after the other.
pub open spec fn run_actions(
    state: WatchView,
    configuration: ConfigurationView,
    inputs: Seq<SnapshotView>,
) -> Seq<ActionView>
    decreases inputs.len(),
{
    if inputs.len() == 0 {
        Seq::empty()
    } else {
        run_actions(state, configuration, inputs.drop_last()) + next_actions(
            run(state, configuration, inputs.drop_last()),
            configuration,
            inputs.last(),
            passes_filter(configuration.mode, inputs.last()),
        )
    }
}

/// The texts among `inputs`, each followed by `separator`, one after the
/// other.
pub open spec fn entries(inputs: Seq<SnapshotView>, separator: Seq<char>) -> Seq<char>
    decreases inputs.len(),
{
    if inputs.len() == 0 {
        Seq::empty()
    } else {
        entries(inputs.drop_last(), separator) + match inputs.last() {
            SnapshotView::Text(text) => text + separator,
            _ => Seq::empty(),
        }
    }
}

/// Content that is read twice in a row is sent to the sinks once.
pub proof fn law_repeat_adds_nothing(
    state: WatchView,
    configuration: ConfigurationView,
    inputs: Seq<SnapshotView>,
    current: SnapshotView,
)
    ensures
        run(state, configuration, inputs.push(current).push(current)) == run(
            state,
            configuration,
            inputs.push(current),
        ),
        run_actions(state, configuration, inputs.push(current).push(current)) == run_actions(
            state,
            configuration,
            inputs.push(current),
        ),
{
    let once = inputs.push(current);
    let twice = once.push(current);
    assert(once.drop_last() =~= inputs);
    assert(twice.drop_last() =~= once);
    law_seen_once(
        run(state, configuration, inputs),
        configuration,
        current,
        passes_filter(configuration.mode, current),
        passes_filter(configuration.mode, current),
    );
    assert(run_actions(state, configuration, once) + Seq::<ActionView>::empty()
        =~= run_actions(state, configuration, once));
}

/// A text watch that reads texts of which each passes the filter and
/// differs from the one before it writes to the console, and to the output
/// file, exactly these texts, each followed by the separator, in the order
/// in which it read them, up to as many as the cap allows.
pub proof fn law_output_is_the_changes(
    first: SnapshotView,
    configuration: ConfigurationView,
    inputs: Seq<SnapshotView>,
)
    requires
        configuration.mode is Text,
        forall|k: int|
            0 <= k < inputs.len() ==> acceptable(configuration.mode, #[trigger] inputs[k]),
        inputs.len() > 0 ==> first != inputs[0],
        forall|k: int| 0 <= k < inputs.len() - 1 ==> #[trigger] inputs[k] != inputs[k + 1],
    ensures
        ({
            let sinks = configuration.mode->Text_sinks;
            let dispatched = inputs.take(
                run(initial(first), configuration, inputs).dispatch_count as int,
            );
            let sent = run_actions(initial(first), configuration, inputs);
            &&& run(initial(first), configuration, inputs).dispatch_count <= inputs.len()
            &&& sinks.console ==> console_output(sent) == entries(dispatched, sinks.separator)
            &&& !sinks.console ==> console_output(sent) == Seq::<char>::empty()
            &&& sinks.output is Some ==> file_output(sent) == entries(dispatched, sinks.separator)
            &&& sinks.output is None ==> file_output(sent) == Seq::<char>::empty()
        }),
    decreases inputs.len(),
{
    let sinks = configuration.mode->Text_sinks;
    let start = initial(first);
    law_accepted_changes_fill_the_cap(first, configuration, inputs);
    if inputs.len() == 0 {
        assert(inputs.take(0) =~= inputs);
    } else {
        let earlier = inputs.drop_last();
        assert forall|k: int| 0 <= k < earlier.len() - 1 implies #[trigger] earlier[k] != earlier[k
            + 1] by {
            assert(earlier[k] == inputs[k] && earlier[k + 1] == inputs[k + 1]);
        }
        law_output_is_the_changes(first, configuration, earlier);
        law_accepted_changes_fill_the_cap(first, configuration, earlier);
        let before = run(start, configuration, earlier);
        let after = run(start, configuration, inputs);
        let step = next_actions(before, configuration, inputs.last(), true);
        lemma_output_of_sequence(run_actions(start, configuration, earlier), step);
        if finished(before, configuration.count) {
            assert(step =~= Seq::<ActionView>::empty());
            assert(inputs.take(after.dispatch_count as int) =~= earlier.take(
                before.dispatch_count as int,
            ));
        } else {
            if earlier.len() > 0 {
                assert(earlier.last() == inputs[inputs.len() - 2]);
            }
            let text = inputs.last()->Text_0;
            assert(step == text_actions(sinks, text, before.dispatch_count));
            law_one_entry_per_text(sinks, text, before.dispatch_count);
            assert(earlier.take(before.dispatch_count as int) =~= earlier);
            assert(inputs.take(after.dispatch_count as int) =~= inputs);
        }
    }
}

/// Where the template of image files is plain, literal text around one `{i}`, a
/// changed image is handed on as it was read, to be stored under that text
/// with the sequence number in place of the placeholder. The sequence number
/// moves on when the image was saved, and only then.
pub proof fn law_images_are_numbered(
    state: WatchView,
    configuration: ConfigurationView,
    prefix: Seq<char>,
    suffix: Seq<char>,
    width: nat,
    height: nat,
    pixels: Seq<u8>,
)
    requires
        is_literal(prefix),
        is_literal(suffix),
        is_plain(prefix + placeholder(counter_name()) + suffix),
        configuration.mode == (ModeView::Image {
            template: prefix + placeholder(counter_name()) + suffix,
        }),
        !finished(state, configuration.count),
        pixels.len() == rgba_len(width, height),
        snapshot_changed(state.previous, SnapshotView::Image { width, height, pixels }),
    ensures
        ({
            let current = SnapshotView::Image { width, height, pixels };
            let polled = next_state(state, configuration, current, true);
            &&& next_actions(state, configuration, current, true) == seq![
                ActionView::SaveImage {
                    path: prefix + decimal(state.image_sequence) + suffix,
                    width,
                    height,
                    pixels,
                },
            ]
            &&& polled.previous == current
            &&& polled.image_sequence == state.image_sequence
            &&& after_save(polled, true).image_sequence == state.image_sequence + 1
            &&& after_save(polled, false).image_sequence == state.image_sequence
        }),
{
    law_placeholder_is_replaced(
        prefix,
        counter_name(),
        suffix,
        image_variables(state.image_sequence),
    );
}

} // verus!
