//! Application state: the task store and the task-entry form state machine.

use crate::date::DueDate;
use crate::date::parse_due_date;
use crate::date::parsed_due_date;
use crate::task::Task;
use crate::task::TaskView;
use vstd::prelude::*;

verus! {

/// The location of the cursor within the form for submitting a task: one of
/// the three text inputs or the manual submit button. The form always has
/// exactly one active location.
#[derive(Clone, Copy, Debug, PartialEq, Eq)]
pub enum TaskFormLocation {
    Title,
    Description,
    Date,
    Submit,
}

/// The location one "next field" request ahead of `l`, in the cyclic order
/// Title, Description, Date, Submit, and back to Title.
pub open spec fn next_location(l: TaskFormLocation) -> TaskFormLocation {
    match l {
        TaskFormLocation::Title => TaskFormLocation::Description,
        TaskFormLocation::Description => TaskFormLocation::Date,
        TaskFormLocation::Date => TaskFormLocation::Submit,
        TaskFormLocation::Submit => TaskFormLocation::Title,
    }
}

/// The location one "previous field" request behind `l`: the inverse of
/// `next_location`.
pub open spec fn previous_location(l: TaskFormLocation) -> TaskFormLocation {
    match l {
        TaskFormLocation::Title => TaskFormLocation::Submit,
        TaskFormLocation::Description => TaskFormLocation::Title,
        TaskFormLocation::Date => TaskFormLocation::Description,
        TaskFormLocation::Submit => TaskFormLocation::Date,
    }
}

impl TaskFormLocation {
    /// Advance to the next form location in cyclic order.
    pub fn next(self) -> (r: Self)
        ensures
            r == next_location(self),
    {
        match self {
            TaskFormLocation::Title => TaskFormLocation::Description,
            TaskFormLocation::Description => TaskFormLocation::Date,
            TaskFormLocation::Date => TaskFormLocation::Submit,
            TaskFormLocation::Submit => TaskFormLocation::Title,
        }
    }

    /// Retreat to the previous form location in cyclic order.
    pub fn previous(self) -> (r: Self)
        ensures
            r == previous_location(self),
    {
        match self {
            TaskFormLocation::Title => TaskFormLocation::Submit,
            TaskFormLocation::Description => TaskFormLocation::Title,
            TaskFormLocation::Date => TaskFormLocation::Description,
            TaskFormLocation::Submit => TaskFormLocation::Date,
        }
    }
}

impl Default for TaskFormLocation {
    /// A freshly opened form starts at the title field.
    fn default() -> (r: Self)
        ensures
            r == TaskFormLocation::Title,
    {
        TaskFormLocation::Title
    }
}

/// Navigating forward four times from any starting location returns to that
/// same location: the four-state navigation order is a single cycle.
pub proof fn lemma_navigation_cycle(l: TaskFormLocation)
    ensures
        next_location(next_location(next_location(next_location(l)))) == l,
{
}

/// Retreating undoes advancing: `previous_location` is the inverse of
/// `next_location`.
pub proof fn lemma_previous_inverts_next(l: TaskFormLocation)
    ensures
        previous_location(next_location(l)) == l,
        next_location(previous_location(l)) == l,
{
}

/// The state of the task form: the active location, one optional buffer per
/// text field, the parsed due date, and the submission flag. `None` in a
/// buffer means "not yet entered", or, for the date, "cleared because the
/// entered text did not parse".
#[derive(Debug)]
pub struct TaskFormState {
    pub current_location: TaskFormLocation,
    pub title: Option<String>,
    pub description: Option<String>,
    pub date: Option<DueDate>,
    pub should_submit: bool,
}

/// The cleared form: location back at the title field, every buffer empty,
/// and no pending submission.
pub open spec fn cleared_form() -> TaskFormState {
    TaskFormState {
        current_location: TaskFormLocation::Title,
        title: None,
        description: None,
        date: None,
        should_submit: false,
    }
}

/// The date buffer after the date field is committed with `input`: no text
/// clears the buffer, and text leaves whatever it parses to, absent when it
/// is malformed.
pub open spec fn date_after_entry(input: Option<String>) -> Option<DueDate> {
    match input {
        Option::None => None,
        Option::Some(s) => parsed_due_date(s@),
    }
}

/// The form state after one commit of `input` at the active location: the
/// active field's buffer takes the input (the date field through the parser),
/// the submit button raises the flag, and everything else stays as it was.
pub open spec fn enter_spec(pre: TaskFormState, input: Option<String>) -> TaskFormState {
    match pre.current_location {
        TaskFormLocation::Title => TaskFormState { title: input, ..pre },
        TaskFormLocation::Description => TaskFormState { description: input, ..pre },
        TaskFormLocation::Date => TaskFormState { date: date_after_entry(input), ..pre },
        TaskFormLocation::Submit => TaskFormState { should_submit: true, ..pre },
    }
}

impl TaskFormState {
    /// Enter a value from the input, if it exists, into the current section
    /// of the form, or raise the submission flag if on the submit button.
    /// Malformed date text is silently discarded: the date buffer is left
    /// absent and no error is surfaced here.
    pub fn enter(&mut self, input: &Option<String>)
        ensures
            *final(self) == enter_spec(*old(self), *input),
    {
        match self.current_location {
            TaskFormLocation::Title => {
                match input {
                    Option::None => {
                        self.title = None;
                    },
                    Option::Some(s) => {
                        self.title = Some(s.clone());
                    },
                }
            },
            TaskFormLocation::Description => {
                match input {
                    Option::None => {
                        self.description = None;
                    },
                    Option::Some(s) => {
                        self.description = Some(s.clone());
                    },
                }
            },
            TaskFormLocation::Date => {
                match input {
                    Option::None => {
                        self.date = None;
                    },
                    Option::Some(s) => {
                        self.date = parse_due_date(s);
                    },
                }
            },
            TaskFormLocation::Submit => {
                self.should_submit = true;
            },
        }
    }

    /// Resets the form to its default state. Used after exiting the form,
    /// whether by a manual cancel or by a submission. Idempotent: the result
    /// never depends on the prior state.
    pub fn clear(&mut self)
        ensures
            *final(self) == cleared_form(),
    {
        self.current_location = TaskFormLocation::Title;
        self.title = None;
        self.description = None;
        self.date = None;
        self.should_submit = false;
    }

    /// Honor a "next field" request: advance the active location, leaving
    /// every buffer and the submission flag as they were.
    pub fn select_next(&mut self)
        ensures
            *final(self) == (TaskFormState {
                current_location: next_location(old(self).current_location),
                ..*old(self)
            }),
    {
        self.current_location = self.current_location.next();
    }

    /// Honor a "previous field" request: retreat the active location, leaving
    /// every buffer and the submission flag as they were.
    pub fn select_previous(&mut self)
        ensures
            *final(self) == (TaskFormState {
                current_location: previous_location(old(self).current_location),
                ..*old(self)
            }),
    {
        self.current_location = self.current_location.previous();
    }
}

impl Default for TaskFormState {
    /// A freshly opened form is the cleared form.
    fn default() -> (r: Self)
        ensures
            r == cleared_form(),
    {
        TaskFormState {
            current_location: TaskFormLocation::Title,
            title: None,
            description: None,
            date: None,
            should_submit: false,
        }
    }
}

/// Entering text at the title stores it verbatim in the title buffer and
/// touches nothing else.
pub proof fn lemma_enter_at_title(pre: TaskFormState, t: String)
    requires
        pre.current_location == TaskFormLocation::Title,
    ensures
        enter_spec(pre, Some(t)).title == Some(t),
        enter_spec(pre, Some(t)).description == pre.description,
        enter_spec(pre, Some(t)).date == pre.date,
        enter_spec(pre, Some(t)).should_submit == pre.should_submit,
        enter_spec(pre, Some(t)).current_location == pre.current_location,
{
}

/// Entering text at the description stores it verbatim in the description
/// buffer — its own buffer, not the title's — and touches nothing else.
pub proof fn lemma_enter_at_description(pre: TaskFormState, t: String)
    requires
        pre.current_location == TaskFormLocation::Description,
    ensures
        enter_spec(pre, Some(t)).description == Some(t),
        enter_spec(pre, Some(t)).title == pre.title,
        enter_spec(pre, Some(t)).date == pre.date,
        enter_spec(pre, Some(t)).should_submit == pre.should_submit,
        enter_spec(pre, Some(t)).current_location == pre.current_location,
{
}

/// Entering well-formed date text at the date field stores the parsed value.
pub proof fn lemma_enter_at_date_well_formed(pre: TaskFormState, d: String)
    requires
        pre.current_location == TaskFormLocation::Date,
        parsed_due_date(d@) is Some,
    ensures
        enter_spec(pre, Some(d)).date == parsed_due_date(d@),
{
}

/// Entering malformed date text at the date field leaves the date absent.
pub proof fn lemma_enter_at_date_malformed(pre: TaskFormState, d: String)
    requires
        pre.current_location == TaskFormLocation::Date,
        parsed_due_date(d@) is None,
    ensures
        enter_spec(pre, Some(d)).date is None,
{
}

/// Committing the date field with no text always clears the date.
pub proof fn lemma_enter_at_date_empty(pre: TaskFormState)
    requires
        pre.current_location == TaskFormLocation::Date,
    ensures
        enter_spec(pre, None).date is None,
{
}

/// Committing at the submit button raises the submission flag, whatever the
/// input, and leaves every buffer as it was.
pub proof fn lemma_enter_at_submit(pre: TaskFormState, input: Option<String>)
    requires
        pre.current_location == TaskFormLocation::Submit,
    ensures
        enter_spec(pre, input).should_submit,
        enter_spec(pre, input).title == pre.title,
        enter_spec(pre, input).description == pre.description,
        enter_spec(pre, input).date == pre.date,
        enter_spec(pre, input).current_location == pre.current_location,
{
}

/// The task a finished form stands for: buffered title and description
/// (absent description taken as empty text), not yet complete, and the
/// buffered date as deadline, absent meaning none. Meaningful once a title
/// is present.
pub open spec fn finalized_task(form: TaskFormState) -> TaskView {
    TaskView {
        title: match form.title {
            Option::Some(t) => t@,
            Option::None => Seq::empty(),
        },
        description: match form.description {
            Option::Some(d) => d@,
            Option::None => Seq::empty(),
        },
        is_complete: false,
        due_date: form.date,
    }
}

/// Application state shared by the whole program: the task store (insertion
/// order preserved, titles free to repeat), the task-entry form, and the
/// exit flag the event loop polls.
#[derive(Debug)]
pub struct App {
    pub tasks: Vec<Task>,
    pub task_form_state: TaskFormState,
    pub should_exit: bool,
}

impl App {
    /// Marks the application as ready to stop; the event loop observes the
    /// flag and returns.
    pub fn exit(&mut self)
        ensures
            final(self).should_exit,
            final(self).tasks == old(self).tasks,
            final(self).task_form_state == old(self).task_form_state,
    {
        self.should_exit = true;
    }

    /// Reduces one already-debounced key press to a state transition:
    /// `q` requests an exit; every other key leaves the state untouched.
    pub fn handle_key_char(&mut self, c: char)
        ensures
            final(self).should_exit == (old(self).should_exit || c == 'q'),
            final(self).tasks == old(self).tasks,
            final(self).task_form_state == old(self).task_form_state,
    {
        match c {
            'q' => self.exit(),
            _ => {},
        }
    }

    /// Consumes an observed submission: with a title present, the buffered
    /// values become a task appended to the store and the form resets; with
    /// the title missing, only the submission flag drops, so the form stays
    /// open with its buffers intact. Without a pending submission nothing
    /// changes.
    pub fn finalize(&mut self)
        ensures
            final(self).should_exit == old(self).should_exit,
            !old(self).task_form_state.should_submit ==> (final(self).tasks == old(self).tasks
                && final(self).task_form_state == old(self).task_form_state),
            old(self).task_form_state.should_submit && old(self).task_form_state.title is None
                ==> (final(self).tasks == old(self).tasks && final(self).task_form_state
                == (TaskFormState { should_submit: false, ..old(self).task_form_state })),
            old(self).task_form_state.should_submit && old(self).task_form_state.title is Some
                ==> (final(self).tasks.deep_view() == old(self).tasks.deep_view().push(
                finalized_task(old(self).task_form_state),
            ) && final(self).task_form_state == cleared_form()),
    {
        if !self.task_form_state.should_submit {
            return;
        }
        match self.task_form_state.title.take() {
            Option::None => {
                self.task_form_state.should_submit = false;
            },
            Option::Some(t) => {
                let description = match self.task_form_state.description.take() {
                    Option::Some(d) => d,
                    Option::None => String::new(),
                };
                let due_date = self.task_form_state.date.take();
                let task = Task::new(t, description, due_date);
                let ghost tv = task.deep_view();
                self.tasks.push(task);
                self.task_form_state.clear();
                proof {
                    assert(tv =~= finalized_task(old(self).task_form_state));
                    assert(self.tasks.deep_view() =~= old(self).tasks.deep_view().push(tv));
                }
            },
        }
    }
}

impl Default for App {
    /// A fresh application: no tasks yet, a cleared form, not exiting.
    fn default() -> (r: Self)
        ensures
            r.tasks@ == Seq::<Task>::empty(),
            r.task_form_state == cleared_form(),
            !r.should_exit,
    {
        App { tasks: Vec::new(), task_form_state: TaskFormState::default(), should_exit: false }
    }
}

} // verus!
