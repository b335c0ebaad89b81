//! The stored form of a task: one line of three comma-separated fields,
//!
//! ```text
//! Todo,<text>,<created_at>
//! Done,<text>,<created_at>
//! ```
//!
//! The format has no escape for the comma. A task whose text, or whose time of
//! creation, holds a comma can be written, but the line that results is not
//! read back: it has a field too many.

use vstd::prelude::*;
use vstd::string::*;
use crate::task::{task_views, Task, TaskView, TodoStatus};

verus! {

/// The start of the line of a pending task, separator included.
pub open spec fn pending_prefix() -> Seq<char> {
    seq!['T', 'o', 'd', 'o', ',']
}

/// The start of the line of a done task, separator included.
pub open spec fn done_prefix() -> Seq<char> {
    seq!['D', 'o', 'n', 'e', ',']
}

/// The start of the line of a task with the given status.
pub open spec fn prefix_of(status: TodoStatus) -> Seq<char> {
    match status {
        TodoStatus::Pending => pending_prefix(),
        TodoStatus::Done => done_prefix(),
    }
}

/// The line starts as the line of a pending or of a done task does.
pub open spec fn has_status_prefix(line: Seq<char>) -> bool {
    pending_prefix().is_prefix_of(line) || done_prefix().is_prefix_of(line)
}

/// No character of `s` is the separator.
pub open spec fn comma_free(s: Seq<char>) -> bool {
    forall|i: int| 0 <= i < s.len() ==> s[i] != ','
}

/// The line in which a task is stored.
pub open spec fn line_of(task: TaskView) -> Seq<char> {
    prefix_of(task.status) + task.text + seq![','] + task.created_at
}

/// The tasks that come back from their line as they went in: neither field
/// holds the separator.
pub open spec fn storable(task: TaskView) -> bool {
    comma_free(task.text) && comma_free(task.created_at)
}

/// `line` is the stored form of `task`, and is read back as `task`.
pub open spec fn is_line_of(line: Seq<char>, task: TaskView) -> bool {
    storable(task) && line == line_of(task)
}

/// The lines that can be read: the stored forms of the storable tasks.
pub open spec fn well_formed(line: Seq<char>) -> bool {
    exists|task: TaskView| is_line_of(line, task)
}

/// The task that a well-formed line is read as.
pub open spec fn parsed(line: Seq<char>) -> TaskView
    recommends
        well_formed(line),
{
    choose|task: TaskView| is_line_of(line, task)
}

/// The separator, as a test on characters.
pub open spec fn is_comma() -> spec_fn(char) -> bool {
    |c: char| c == ','
}

/// How many separators `s` holds.
pub open spec fn comma_count(s: Seq<char>) -> nat {
    s.filter(is_comma()).len()
}

/// Why a line could not be read.
#[derive(Clone, Copy, Debug, PartialEq, Eq, Structural)]
pub enum MalformedLineError {
    /// The line starts with neither `Todo,` nor `Done,`.
    UnknownStatus,
    /// What follows the status is not two fields: it holds no separator, or
    /// more than one.
    FieldCount,
}

/// Where the separators of a stored line are, and where they are not.
proof fn lemma_line_shape(task: TaskView)
    requires
        storable(task),
    ensures
        line_of(task).len() == 6 + task.text.len() + task.created_at.len(),
        prefix_of(task.status).is_prefix_of(line_of(task)),
        line_of(task).subrange(5, 5 + task.text.len() as int) == task.text,
        line_of(task)[5 + task.text.len() as int] == ',',
        line_of(task).skip(6 + task.text.len() as int) == task.created_at,
{
}

/// A line is the stored form of at most one task.
pub proof fn lemma_line_determines_task(line: Seq<char>, a: TaskView, b: TaskView)
    requires
        is_line_of(line, a),
        is_line_of(line, b),
    ensures
        a == b,
{
    lemma_line_shape(a);
    lemma_line_shape(b);
}

/// A well-formed line starts with a status.
pub proof fn lemma_well_formed_has_status_prefix(line: Seq<char>)
    requires
        well_formed(line),
    ensures
        has_status_prefix(line),
{
    let task = choose|task: TaskView| is_line_of(line, task);
    lemma_line_shape(task);
}

/// Whether `line` starts with `prefix`.
fn starts_with(line: &str, prefix: &str) -> (yes: bool)
    ensures
        yes == prefix@.is_prefix_of(line@),
{
    let n = prefix.unicode_len();
    if line.unicode_len() < n {
        false
    } else {
        line.substring_char(0, n).to_owned() == prefix.to_owned()
    }
}

/// The position of the first separator in `text`, if it holds one.
fn find_comma(text: &str) -> (found: Option<usize>)
    ensures
        match found {
            Some(i) => i < text@.len() && text@[i as int] == ',' && comma_free(
                text@.subrange(0, i as int),
            ),
            None => comma_free(text@),
        },
{
    let len = text.unicode_len();
    let mut found: Option<usize> = None;
    let mut i: usize = 0;
    for c in it: text.chars()
        invariant
            it.seq() == text@,
            len == text@.len(),
            i == it.index(),
            match found {
                Some(k) => k < i && text@[k as int] == ',' && comma_free(
                    text@.subrange(0, k as int),
                ),
                None => comma_free(text@.subrange(0, i as int)),
            },
    {
        if found.is_none() && c == ',' {
            found = Some(i);
        }
        i = i + 1;
    }
    assert(text@.subrange(0, i as int) =~= text@);
    found
}

/// Reads one stored line.
///
/// A line is read if and only if it is the stored form of a storable task, and
/// then that task is the result. Otherwise the error says what is wrong: the
/// line does not start with a status, or what follows the status is not two
/// fields.
pub fn parse(line: &str) -> (read: Result<Task, MalformedLineError>)
    ensures
        read is Ok <==> well_formed(line@),
        !has_status_prefix(line@) <==> read == Err::<Task, MalformedLineError>(
            MalformedLineError::UnknownStatus,
        ),
        match read {
            Ok(task) => is_line_of(line@, task@) && task@ == parsed(line@),
            Err(MalformedLineError::UnknownStatus) => !well_formed(line@),
            Err(MalformedLineError::FieldCount) => has_status_prefix(line@) && !well_formed(
                line@,
            ),
        },
{
    proof {
        reveal_strlit("Todo,");
        reveal_strlit("Done,");
        assert("Todo,"@ =~= pending_prefix());
        assert("Done,"@ =~= done_prefix());
    }
    let status = if starts_with(line, "Todo,") {
        TodoStatus::Pending
    } else if starts_with(line, "Done,") {
        TodoStatus::Done
    } else {
        return Err(MalformedLineError::UnknownStatus);
    };
    let len = line.unicode_len();
    let rest = line.substring_char(5, len);
    let rest_len = len - 5;
    match find_comma(rest) {
        None => {
            assert forall|task: TaskView| !is_line_of(line@, task) by {
                if is_line_of(line@, task) {
                    lemma_line_shape(task);
                    assert(rest@[task.text.len() as int] == ',');
                }
            }
            Err(MalformedLineError::FieldCount)
        },
        Some(at) => {
            let text = rest.substring_char(0, at);
            let created_at = rest.substring_char(at + 1, rest_len);
            match find_comma(created_at) {
                Some(second) => {
                    assert forall|task: TaskView| !is_line_of(line@, task) by {
                        if is_line_of(line@, task) {
                            lemma_line_shape(task);
                        }
                    }
                    Err(MalformedLineError::FieldCount)
                },
                None => {
                    let task = Task { status, text: text.to_owned(), created_at: created_at.to_owned() };
                    proof {
                        assert(line@ =~= line_of(task@));
                        lemma_line_determines_task(line@, task@, parsed(line@));
                    }
                    Ok(task)
                },
            }
        },
    }
}

/// Writes a task as one line.
///
/// Every task has a line. Only a storable task is read back from it.
pub fn serialize(task: &Task) -> (line: String)
    ensures
        line@ == line_of(task@),
{
    proof {
        reveal_strlit("Todo,");
        reveal_strlit("Done,");
        reveal_strlit(",");
    }
    let mut line = match task.status {
        TodoStatus::Pending => String::from_str("Todo,"),
        TodoStatus::Done => String::from_str("Done,"),
    };
    line.append(task.text.as_str());
    line.append(",");
    line.append(task.created_at.as_str());
    line
}

/// Reading a line and writing the task that was read gives the line back.
pub proof fn lemma_serialize_after_parse(line: Seq<char>)
    requires
        well_formed(line),
    ensures
        line_of(parsed(line)) == line,
        storable(parsed(line)),
{
}

/// Writing a storable task gives a line that is read, and read as that task.
pub proof fn lemma_parse_after_serialize(task: TaskView)
    requires
        storable(task),
    ensures
        well_formed(line_of(task)),
        parsed(line_of(task)) == task,
{
    assert(is_line_of(line_of(task), task));
    lemma_line_determines_task(line_of(task), parsed(line_of(task)), task);
}

/// A line without a status is read as no task at all.
pub proof fn lemma_no_status_no_task(line: Seq<char>)
    requires
        !has_status_prefix(line),
    ensures
        !well_formed(line),
        forall|task: TaskView| !is_line_of(line, task),
{
    if well_formed(line) {
        lemma_well_formed_has_status_prefix(line);
    }
}

/// The separators of a text put together are those of its parts.
proof fn lemma_comma_count_add(a: Seq<char>, b: Seq<char>)
    ensures
        comma_count(a + b) == comma_count(a) + comma_count(b),
{
    Seq::filter_distributes_over_add(a, b, is_comma());
}

/// A text is free of separators exactly if it counts none.
proof fn lemma_comma_free_counts_zero(s: Seq<char>)
    ensures
        comma_free(s) <==> comma_count(s) == 0,
{
    if comma_free(s) {
        s.lemma_all_neg_filter_empty(is_comma());
    } else {
        let i = choose|i: int| 0 <= i < s.len() && s[i] == ',';
        s.lemma_filter_contains(is_comma(), i);
    }
}

/// A text with a separator has a first one.
proof fn lemma_first_comma(s: Seq<char>) -> (at: int)
    requires
        !comma_free(s),
    ensures
        0 <= at < s.len(),
        s[at] == ',',
        comma_free(s.take(at)),
    decreases s.len(),
{
    let shorter = s.drop_last();
    if comma_free(shorter) {
        let i = choose|i: int| 0 <= i < s.len() && s[i] == ',';
        if i < s.len() - 1 {
            assert(shorter[i] == ',');
        }
        s.len() - 1
    } else {
        let at = lemma_first_comma(shorter);
        assert(s.take(at) =~= shorter.take(at));
        at
    }
}

/// Behind its status, a line that can be read holds exactly one separator,
/// which parts the text from the time of creation; and a line with a status
/// and exactly one separator behind it can be read.
pub proof fn lemma_well_formed_is_two_fields(line: Seq<char>)
    requires
        has_status_prefix(line),
    ensures
        well_formed(line) <==> comma_count(line.skip(5)) == 1,
{
    let rest = line.skip(5);
    let comma = seq![','];
    assert(comma_count(comma) == 1) by {
        Seq::<char>::empty().lemma_filter_len_push(is_comma(), ',');
        lemma_comma_free_counts_zero(Seq::<char>::empty());
    }
    if well_formed(line) {
        let task = parsed(line);
        lemma_line_shape(task);
        assert(rest =~= task.text + comma + task.created_at);
        lemma_comma_count_add(task.text + comma, task.created_at);
        lemma_comma_count_add(task.text, comma);
        lemma_comma_free_counts_zero(task.text);
        lemma_comma_free_counts_zero(task.created_at);
    }
    if comma_count(rest) == 1 {
        lemma_comma_free_counts_zero(rest);
        let at = lemma_first_comma(rest);
        let text = rest.take(at);
        let created_at = rest.skip(at + 1);
        assert(rest =~= text + comma + created_at);
        lemma_comma_count_add(text + comma, created_at);
        lemma_comma_count_add(text, comma);
        lemma_comma_free_counts_zero(text);
        lemma_comma_free_counts_zero(created_at);
        let status = if pending_prefix().is_prefix_of(line) {
            TodoStatus::Pending
        } else {
            TodoStatus::Done
        };
        let task = TaskView { status, text, created_at };
        assert(line =~= line_of(task));
        assert(is_line_of(line, task));
    }
}

/// The lines of a file, each as a sequence of characters.
pub open spec fn line_views(lines: Seq<String>) -> Seq<Seq<char>> {
    lines.map_values(|line: String| line@)
}

/// `lines` are the stored forms of `tasks`, one for one and in order.
pub open spec fn are_lines_of(lines: Seq<Seq<char>>, tasks: Seq<TaskView>) -> bool {
    lines.len() == tasks.len() && forall|i: int|
        0 <= i < lines.len() ==> is_line_of(#[trigger] lines[i], tasks[i])
}

/// Every line can be read.
pub open spec fn all_well_formed(lines: Seq<Seq<char>>) -> bool {
    forall|i: int| 0 <= i < lines.len() ==> well_formed(#[trigger] lines[i])
}

/// The line at index `at` cannot be read, and every line before it can.
pub open spec fn is_first_malformed(lines: Seq<Seq<char>>, at: int) -> bool {
    0 <= at < lines.len() && !well_formed(lines[at]) && all_well_formed(lines.take(at))
}

/// Whether there was a file to load from.
#[derive(Clone, Copy, Debug, PartialEq, Eq, Structural)]
pub enum LoadOutcome {
    /// The file was there, and every line of it was read.
    Loaded,
    /// There was no file: the list starts empty.
    NotFound,
}

/// A file that could not be loaded: the first of its lines that cannot be read.
#[derive(Clone, Copy, Debug, PartialEq, Eq, Structural)]
pub struct LoadError {
    /// The number of the line, counted from 1.
    pub line: usize,
    /// What is wrong with it.
    pub cause: MalformedLineError,
}

/// Turns the lines of a file into the list of its tasks.
///
/// `file` is `None` where there is no file, which is no error: the list is
/// empty and the outcome says so. Where there is a file, all of its lines are
/// read, in order, or none is: the first line that cannot be read is reported
/// with its number, and no list is produced.
pub fn load_all(file: Option<&Vec<String>>) -> (loaded: Result<(Vec<Task>, LoadOutcome), LoadError>)
    ensures
        file is None ==> (loaded matches Ok((tasks, outcome)) && tasks@.len() == 0 && outcome
            == LoadOutcome::NotFound),
        file matches Some(lines) ==> (loaded is Ok <==> all_well_formed(line_views(lines@))),
        file matches Some(lines) ==> match loaded {
            Ok((tasks, outcome)) => outcome == LoadOutcome::Loaded && are_lines_of(
                line_views(lines@),
                task_views(tasks@),
            ),
            Err(error) => is_first_malformed(line_views(lines@), error.line - 1) && (error.cause
                == MalformedLineError::UnknownStatus <==> !has_status_prefix(
                line_views(lines@)[error.line - 1],
            )),
        },
{
    let lines = match file {
        None => {
            return Ok((Vec::new(), LoadOutcome::NotFound));
        },
        Some(lines) => lines,
    };
    let mut tasks: Vec<Task> = Vec::new();
    let mut i: usize = 0;
    while i < lines.len()
        invariant
            file == Some(lines),
            i <= lines.len(),
            are_lines_of(line_views(lines@).take(i as int), task_views(tasks@)),
        decreases lines.len() - i,
    {
        match parse(lines[i].as_str()) {
            Ok(task) => {
                assert(line_views(lines@).take(i + 1) =~= line_views(lines@).take(i as int).push(
                    lines[i as int]@,
                ));
                tasks.push(task);
            },
            Err(cause) => {
                proof {
                    let line = line_views(lines@)[i as int];
                    if well_formed(line) {
                        lemma_well_formed_has_status_prefix(line);
                    }
                }
                return Err(LoadError { line: i + 1, cause });
            },
        }
        i = i + 1;
    }
    assert(line_views(lines@).take(i as int) =~= line_views(lines@));
    Ok((tasks, LoadOutcome::Loaded))
}

/// Which tasks are written when the list is saved.
#[derive(Clone, Copy, Debug, PartialEq, Eq, Structural)]
pub enum SavePolicy {
    /// Only what is still to be done: a done task is dropped.
    PendingOnly,
    /// Done tasks are written too.
    KeepDone,
}

/// The tasks that a save writes: a task without text never, a done task only
/// where the policy keeps it.
pub open spec fn is_retained(task: TaskView, policy: SavePolicy) -> bool {
    task.text.len() > 0 && (task.status == TodoStatus::Pending || policy == SavePolicy::KeepDone)
}

/// The retained tasks of a list, in the order of the list.
pub open spec fn retained_tasks(tasks: Seq<TaskView>, policy: SavePolicy) -> Seq<TaskView> {
    tasks.filter(|task: TaskView| is_retained(task, policy))
}

/// The lines that a save writes: those of the retained tasks, in the order of
/// the list.
pub open spec fn saved_lines(tasks: Seq<TaskView>, policy: SavePolicy) -> Seq<Seq<char>> {
    retained_tasks(tasks, policy).map_values(|task: TaskView| line_of(task))
}

/// The lines to write for a list: one for each task that is retained, in the
/// order of the list.
pub fn save_all(tasks: &Vec<Task>, policy: SavePolicy) -> (lines: Vec<String>)
    ensures
        line_views(lines@) == saved_lines(task_views(tasks@), policy),
{
    let mut lines: Vec<String> = Vec::new();
    let mut i: usize = 0;
    proof {
        retained_tasks(task_views(tasks@.take(0)), policy).lemma_filter_len(
            |task: TaskView| is_retained(task, policy),
        );
    }
    while i < tasks.len()
        invariant
            i <= tasks.len(),
            line_views(lines@) == saved_lines(task_views(tasks@.take(i as int)), policy),
        decreases tasks.len() - i,
    {
        let task = &tasks[i];
        let keep = !task.text.as_str().is_empty() && match task.status {
            TodoStatus::Pending => true,
            TodoStatus::Done => match policy {
                SavePolicy::KeepDone => true,
                SavePolicy::PendingOnly => false,
            },
        };
        proof {
            let before = task_views(tasks@.take(i as int));
            assert(task_views(tasks@.take(i + 1)) =~= before.push(task@));
            before.lemma_filter_push(task@, |task: TaskView| is_retained(task, policy));
            if keep {
                assert(saved_lines(before.push(task@), policy) =~= saved_lines(before, policy).push(
                    line_of(task@),
                ));
            }
        }
        if keep {
            lines.push(serialize(task));
        }
        i = i + 1;
    }
    assert(tasks@.take(i as int) =~= tasks@);
    lines
}

/// What a save retains: tasks of the list that the policy keeps, all of them,
/// and no more of them than the list holds. Each line of the save is the line
/// of the retained task at its place.
pub proof fn lemma_save_writes_the_retained_tasks(tasks: Seq<TaskView>, policy: SavePolicy)
    ensures
        retained_tasks(tasks, policy).len() <= tasks.len(),
        forall|i: int|
            0 <= i < retained_tasks(tasks, policy).len() ==> tasks.contains(
                #[trigger] retained_tasks(tasks, policy)[i],
            ) && is_retained(retained_tasks(tasks, policy)[i], policy),
        forall|i: int|
            0 <= i < tasks.len() && is_retained(tasks[i], policy) ==> retained_tasks(
                tasks,
                policy,
            ).contains(#[trigger] tasks[i]),
        saved_lines(tasks, policy).len() == retained_tasks(tasks, policy).len(),
        forall|i: int|
            0 <= i < retained_tasks(tasks, policy).len() ==> #[trigger] saved_lines(tasks, policy)[i]
                == line_of(retained_tasks(tasks, policy)[i]),
{
    let retained = |task: TaskView| is_retained(task, policy);
    let kept = retained_tasks(tasks, policy);
    tasks.lemma_filter_len(retained);
    assert forall|i: int| 0 <= i < kept.len() implies tasks.contains(#[trigger] kept[i])
        && is_retained(kept[i], policy) by {
        tasks.lemma_filter_pred(retained, i);
        tasks.lemma_filter_contains_rev(retained, kept[i]);
    }
    assert forall|i: int| 0 <= i < tasks.len() && is_retained(tasks[i], policy) implies kept.contains(
        #[trigger] tasks[i],
    ) by {
        tasks.lemma_filter_contains(retained, i);
    }
}

/// What a save writes of storable tasks is read again, line for line, as the
/// tasks that were retained.
pub proof fn lemma_load_after_save(tasks: Seq<TaskView>, policy: SavePolicy)
    requires
        forall|i: int| 0 <= i < tasks.len() ==> storable(#[trigger] tasks[i]),
    ensures
        all_well_formed(saved_lines(tasks, policy)),
        are_lines_of(saved_lines(tasks, policy), retained_tasks(tasks, policy)),
{
    let kept = retained_tasks(tasks, policy);
    let lines = saved_lines(tasks, policy);
    lemma_save_writes_the_retained_tasks(tasks, policy);
    assert forall|i: int| 0 <= i < lines.len() implies is_line_of(#[trigger] lines[i], kept[i]) by {
        assert(tasks.contains(kept[i]));
    }
}

} // verus!
