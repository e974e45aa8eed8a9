//! What a command asks of the file system: the operations to carry out, in
//! order, and the answer to give once they are done.

use crate::config::{config_document_text, reads_back, stored_custom_dir, text_of};
use crate::error::{failure, ErrorKind, LocationError, LocationErrorView};
use crate::resolver::outcome_of;
use vstd::prelude::*;

verus! {

/// One operation on the file system. Each fails with a message of the
/// operating system, which `failure` turns into the command's answer.
#[derive(Debug, PartialEq, Eq)]
pub enum FileStep {
    /// Copy the file `from` to its backup `to`.
    CopyBackup { from: String, to: String },
    /// Create the directory `path`, with its missing ancestors, to hold the
    /// database.
    CreateDatabaseDir { path: String },
    /// Copy the database `from` over `to`.
    CopyDatabase { from: String, to: String },
    /// Create the configuration directory `path`, with its missing ancestors.
    CreateConfigDir { path: String },
    /// Replace the content of the configuration file `path` by `document`,
    /// which records `custom_dir` as the chosen directory.
    WriteConfig { path: String, custom_dir: Option<String>, document: String },
}

/// An operation as contracts see it.
pub enum FileStepView {
    CopyBackup { from: Seq<char>, to: Seq<char> },
    CreateDatabaseDir { path: Seq<char> },
    CopyDatabase { from: Seq<char>, to: Seq<char> },
    CreateConfigDir { path: Seq<char> },
    WriteConfig { path: Seq<char>, custom_dir: Option<Seq<char>>, document: Seq<char> },
}

impl View for FileStep {
    type V = FileStepView;

    open spec fn view(&self) -> FileStepView {
        match *self {
            FileStep::CopyBackup { from, to } => FileStepView::CopyBackup { from: from@, to: to@ },
            FileStep::CreateDatabaseDir { path } => FileStepView::CreateDatabaseDir { path: path@ },
            FileStep::CopyDatabase { from, to } => FileStepView::CopyDatabase {
                from: from@,
                to: to@,
            },
            FileStep::CreateConfigDir { path } => FileStepView::CreateConfigDir { path: path@ },
            FileStep::WriteConfig { path, custom_dir, document } => FileStepView::WriteConfig {
                path: path@,
                custom_dir: text_of(custom_dir),
                document: document@,
            },
        }
    }
}

impl FileStepView {
    /// The kind of failure that the command reports when this operation
    /// fails.
    pub open spec fn failure_kind(self) -> ErrorKind {
        match self {
            FileStepView::CopyBackup { .. } => ErrorKind::CreateBackup,
            FileStepView::CreateDatabaseDir { .. } => ErrorKind::CreateDatabaseDir,
            FileStepView::CopyDatabase { .. } => ErrorKind::CopyDatabase,
            FileStepView::CreateConfigDir { .. } => ErrorKind::CreateConfigDir,
            FileStepView::WriteConfig { .. } => ErrorKind::WriteConfig,
        }
    }
}

impl FileStep {
    /// The command's answer when this operation fails with the message
    /// `detail`.
    pub fn failure(&self, detail: &str) -> (error: LocationError)
        ensures
            error@ == failure(self@.failure_kind(), detail@),
    {
        let kind = match self {
            FileStep::CopyBackup { .. } => ErrorKind::CreateBackup,
            FileStep::CreateDatabaseDir { .. } => ErrorKind::CreateDatabaseDir,
            FileStep::CopyDatabase { .. } => ErrorKind::CopyDatabase,
            FileStep::CreateConfigDir { .. } => ErrorKind::CreateConfigDir,
            FileStep::WriteConfig { .. } => ErrorKind::WriteConfig,
        };
        LocationError::new(kind, detail)
    }
}

/// The operations of a command and its answer. The caller carries out the
/// steps in order, led by `start` and `advance`. When one fails, the rest is
/// left undone and the answer is that step's `failure`; when all are done, the
/// answer is `outcome`.
#[derive(Debug, PartialEq, Eq)]
pub struct MigrationPlan {
    pub steps: Vec<FileStep>,
    pub outcome: Result<String, LocationError>,
}

/// A plan as contracts see it.
pub struct MigrationPlanView {
    pub steps: Seq<FileStepView>,
    pub outcome: Result<Seq<char>, LocationErrorView>,
}

/// The views of a sequence of operations.
pub open spec fn steps_of(steps: Seq<FileStep>) -> Seq<FileStepView> {
    steps.map_values(|step: FileStep| step@)
}

impl View for MigrationPlan {
    type V = MigrationPlanView;

    open spec fn view(&self) -> MigrationPlanView {
        MigrationPlanView { steps: steps_of(self.steps@), outcome: outcome_of(self.outcome) }
    }
}

/// What the caller of a plan does next.
#[derive(Debug, PartialEq, Eq)]
pub enum Progress {
    /// Carry out the step at this position of the plan.
    Perform(usize),
    /// Stop and give this answer.
    Finished(Result<String, LocationError>),
}

/// What the caller does next, as contracts see it.
pub enum ProgressView {
    Perform(int),
    Finished(Result<Seq<char>, LocationErrorView>),
}

impl View for Progress {
    type V = ProgressView;

    open spec fn view(&self) -> ProgressView {
        match *self {
            Progress::Perform(position) => ProgressView::Perform(position as int),
            Progress::Finished(answer) => ProgressView::Finished(outcome_of(answer)),
        }
    }
}

/// How a step ended, as contracts see it: done, or failed with the message of
/// the operating system.
pub open spec fn ending_of(result: Result<(), String>) -> Result<(), Seq<char>> {
    match result {
        Ok(_) => Ok(()),
        Err(message) => Err(message@),
    }
}

impl MigrationPlanView {
    /// What to do when the steps before `position` are done: the step at
    /// `position`, and the plan's answer where no step is left.
    pub open spec fn progress_at(self, position: int) -> ProgressView {
        if 0 <= position < self.steps.len() {
            ProgressView::Perform(position)
        } else {
            ProgressView::Finished(self.outcome)
        }
    }

    /// What to do when the step at `position` has ended with `result`: a
    /// failure ends the command with that step's failure, and a success leads
    /// to the next step.
    pub open spec fn progress_after(
        self,
        position: int,
        result: Result<(), Seq<char>>,
    ) -> ProgressView {
        if 0 <= position < self.steps.len() {
            match result {
                Err(message) => ProgressView::Finished(
                    Err(failure(self.steps[position].failure_kind(), message)),
                ),
                Ok(_) => self.progress_at(position + 1),
            }
        } else {
            ProgressView::Finished(self.outcome)
        }
    }

    /// The answer of the command when the caller, from `position` on, follows
    /// `progress_at` and `progress_after`, and each step ends as `endings`
    /// says at its position.
    pub open spec fn answer_from(
        self,
        position: int,
        endings: Seq<Result<(), Seq<char>>>,
    ) -> Result<Seq<char>, LocationErrorView>
        decreases self.steps.len() - position,
    {
        if 0 <= position < self.steps.len() {
            match self.progress_after(position, endings[position]) {
                ProgressView::Finished(answer) => answer,
                ProgressView::Perform(_) => self.answer_from(position + 1, endings),
            }
        } else {
            self.outcome
        }
    }
}

/// The first step that fails ends the command: when the steps before `failed`
/// are done and the one at `failed` fails, the answer is that step's failure,
/// whatever would have become of the steps after it.
pub proof fn lemma_first_failure_is_the_answer(
    plan: MigrationPlanView,
    endings: Seq<Result<(), Seq<char>>>,
    failed: int,
    position: int,
)
    requires
        endings.len() == plan.steps.len(),
        0 <= position <= failed < plan.steps.len(),
        forall|i: int| position <= i < failed ==> endings[i] is Ok,
        endings[failed] is Err,
    ensures
        plan.answer_from(position, endings) == Err::<Seq<char>, LocationErrorView>(
            failure(plan.steps[failed].failure_kind(), endings[failed]->Err_0),
        ),
    decreases failed - position,
{
    if position < failed {
        lemma_first_failure_is_the_answer(plan, endings, failed, position + 1);
    }
}

/// When no step fails, the answer is the plan's outcome.
pub proof fn lemma_answer_without_failure(
    plan: MigrationPlanView,
    endings: Seq<Result<(), Seq<char>>>,
    position: int,
)
    requires
        endings.len() == plan.steps.len(),
        0 <= position,
        forall|i: int| position <= i < plan.steps.len() ==> endings[i] is Ok,
    ensures
        plan.answer_from(position, endings) == plan.outcome,
    decreases plan.steps.len() - position,
{
    if position < plan.steps.len() {
        lemma_answer_without_failure(plan, endings, position + 1);
    }
}

/// The plan that does nothing and answers with `error`.
pub open spec fn refusal(error: LocationErrorView) -> MigrationPlanView {
    MigrationPlanView { steps: Seq::empty(), outcome: Err(error) }
}

/// The plan that carries out `steps` and then goes on as `rest` does.
pub open spec fn after(steps: Seq<FileStepView>, rest: MigrationPlanView) -> MigrationPlanView {
    MigrationPlanView { steps: steps + rest.steps, outcome: rest.outcome }
}

/// The directory that the location store holds once `steps` have all been
/// carried out, where it held `before`: what the last write of the
/// configuration recorded, and `before` where there was none.
pub open spec fn stored_after(steps: Seq<FileStepView>, before: Option<Seq<char>>) -> Option<
    Seq<char>,
>
    decreases steps.len(),
{
    if steps.len() == 0 {
        before
    } else {
        match steps.last() {
            FileStepView::WriteConfig { custom_dir, .. } => custom_dir,
            _ => stored_after(steps.drop_last(), before),
        }
    }
}

/// The content of the configuration file once `steps` have all been carried
/// out, where it was `before`: the document of the last write, and `before`
/// where there was none.
pub open spec fn content_after(steps: Seq<FileStepView>, before: Option<Seq<char>>) -> Option<
    Seq<char>,
>
    decreases steps.len(),
{
    if steps.len() == 0 {
        before
    } else {
        match steps.last() {
            FileStepView::WriteConfig { document, .. } => Some(document),
            _ => content_after(steps.drop_last(), before),
        }
    }
}

/// Whether every write of the configuration among `steps` writes the text
/// that stands for the directory it records.
pub open spec fn writes_what_it_records(steps: Seq<FileStepView>) -> bool {
    forall|i: int|
        0 <= i < steps.len() ==> (#[trigger] steps[i] matches FileStepView::WriteConfig {
            custom_dir,
            document,
            ..
        } ==> document == config_document_text(custom_dir))
}

/// Whether every text that `steps` write to the configuration reads back as
/// the directory it was written for.
pub open spec fn writes_read_back(steps: Seq<FileStepView>) -> bool {
    forall|i: int|
        0 <= i < steps.len() ==> (#[trigger] steps[i] matches FileStepView::WriteConfig {
            custom_dir,
            ..
        } ==> reads_back(custom_dir))
}

/// What is read from the configuration file after `steps` is what
/// `stored_after` says the location store holds, provided that the steps write
/// what they record and that what they write reads back.
pub proof fn lemma_store_is_read_from_file(steps: Seq<FileStepView>, before: Option<Seq<char>>)
    requires
        writes_what_it_records(steps),
        writes_read_back(steps),
    ensures
        stored_custom_dir(content_after(steps, before)) == stored_after(
            steps,
            stored_custom_dir(before),
        ),
    decreases steps.len(),
{
    if steps.len() > 0 {
        let last = steps.len() - 1;
        assert(steps.last() == steps[last]);
        match steps.last() {
            FileStepView::WriteConfig { .. } => {},
            _ => {
                assert forall|i: int| 0 <= i < steps.drop_last().len() implies (
                #[trigger] steps.drop_last()[i] matches FileStepView::WriteConfig {
                    custom_dir,
                    document,
                    ..
                } ==> document == config_document_text(custom_dir) && reads_back(custom_dir)) by {
                    assert(steps.drop_last()[i] == steps[i]);
                }
                lemma_store_is_read_from_file(steps.drop_last(), before);
            },
        }
    }
}

/// Steps that write no configuration leave the location store as it was.
pub proof fn lemma_store_kept_without_write(steps: Seq<FileStepView>, before: Option<Seq<char>>)
    requires
        forall|i: int| 0 <= i < steps.len() ==> !(steps[i] is WriteConfig),
    ensures
        stored_after(steps, before) == before,
    decreases steps.len(),
{
    if steps.len() > 0 {
        lemma_store_kept_without_write(steps.drop_last(), before);
    }
}

/// Steps that write no configuration leave the configuration file as it was.
pub proof fn lemma_content_kept_without_write(steps: Seq<FileStepView>, before: Option<Seq<char>>)
    requires
        forall|i: int| 0 <= i < steps.len() ==> !(steps[i] is WriteConfig),
    ensures
        content_after(steps, before) == before,
    decreases steps.len(),
{
    if steps.len() > 0 {
        lemma_content_kept_without_write(steps.drop_last(), before);
    }
}

/// Steps that end in a write of the configuration leave in the location
/// store what that write recorded.
pub proof fn lemma_store_holds_last_write(
    steps: Seq<FileStepView>,
    before: Option<Seq<char>>,
    kept: int,
)
    requires
        0 <= kept < steps.len(),
        steps[kept] is WriteConfig,
        forall|i: int| kept < i < steps.len() ==> !(steps[i] is WriteConfig),
    ensures
        stored_after(steps, before) == steps[kept]->WriteConfig_custom_dir,
    decreases steps.len(),
{
    if kept < steps.len() - 1 {
        lemma_store_holds_last_write(steps.drop_last(), before, kept);
    }
}

impl MigrationPlan {
    fn answer(&self) -> (answer: Result<String, LocationError>)
        ensures
            outcome_of(answer) == self@.outcome,
    {
        match &self.outcome {
            Ok(path) => Ok(path.clone()),
            Err(error) => Err(error.clone()),
        }
    }

    fn at(&self, position: usize) -> (progress: Progress)
        ensures
            progress@ == self@.progress_at(position as int),
    {
        if position < self.steps.len() {
            Progress::Perform(position)
        } else {
            Progress::Finished(self.answer())
        }
    }

    /// What the caller does first: the first step, or the answer of a plan
    /// without steps.
    pub fn start(&self) -> (progress: Progress)
        ensures
            progress@ == self@.progress_at(0),
    {
        self.at(0)
    }

    /// What the caller does once the step at `position` has ended with
    /// `result`, where `Err` holds the message of the operating system.
    pub fn advance(&self, position: usize, result: &Result<(), String>) -> (progress: Progress)
        ensures
            progress@ == self@.progress_after(position as int, ending_of(*result)),
    {
        if position < self.steps.len() {
            match result {
                Err(message) => Progress::Finished(
                    Err(self.steps[position].failure(message.as_str())),
                ),
                Ok(_) => self.at(position + 1),
            }
        } else {
            Progress::Finished(self.answer())
        }
    }

    /// The plan that does nothing and answers with `error`.
    pub fn refuse(error: LocationError) -> (plan: MigrationPlan)
        ensures
            plan@ == refusal(error@),
    {
        let plan = MigrationPlan { steps: Vec::new(), outcome: Err(error) };
        assert(steps_of(plan.steps@) =~= Seq::empty());
        plan
    }

    /// Puts `steps` in front of the plan `rest`.
    pub fn preceded_by(rest: MigrationPlan, steps: Vec<FileStep>) -> (plan: MigrationPlan)
        ensures
            plan@ == after(steps_of(steps@), rest@),
    {
        let mut all = steps;
        let mut tail = rest.steps;
        let ghost front = all@;
        let ghost back = tail@;
        all.append(&mut tail);
        assert(steps_of(all@) =~= steps_of(front) + steps_of(back));
        MigrationPlan { steps: all, outcome: rest.outcome }
    }
}

} // verus!
