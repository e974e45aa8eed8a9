//! The migration engine: what to copy, back up and record when the user
//! chooses a directory for the database or goes back to the default one.

use crate::backup::{backup_destination, backup_destination_of, clock_of};
use crate::config::{
    config_document, config_document_text, config_file_name, config_file_path, reads_back,
    slice_of,
};
use crate::error::{failure, ErrorKind, LocationError, LocationErrorView};
use crate::filename::db_filename;
use crate::paths::{is_same_path, joined_path, parent_of, parent_path, same_path};
use crate::plan::{
    after, content_after, lemma_content_kept_without_write, lemma_store_holds_last_write,
    lemma_store_is_read_from_file, lemma_store_kept_without_write, refusal, steps_of,
    stored_after, writes_what_it_records, FileStep, FileStepView, MigrationPlan,
    MigrationPlanView,
};
use crate::resolver::{
    database_directory_of, database_path_in, database_path_of, directory_of, get_database_path,
    Environment, EnvironmentView,
};
use vstd::prelude::*;

verus! {

/// What the caller found on disk before a directory is set.
#[derive(Clone, Copy, Debug, PartialEq, Eq, Structural)]
pub struct SetProbe {
    /// Whether the requested directory exists.
    pub directory_exists: bool,
    /// Whether the requested path is a directory.
    pub directory_is_dir: bool,
    /// Whether the requested directory already holds a database file.
    pub new_db_exists: bool,
    /// Whether the database file now in effect exists.
    pub old_db_exists: bool,
}

/// The steps that bring the database `old` to `new`: the directory of `new`
/// is created where the path has one, then the file is copied.
pub open spec fn copy_steps_of(old: Seq<char>, new: Seq<char>) -> Seq<FileStepView> {
    let copy = seq![FileStepView::CopyDatabase { from: old, to: new }];
    match parent_of(new) {
        Some(parent) => seq![FileStepView::CreateDatabaseDir { path: parent }] + copy,
        None => copy,
    }
}

/// The steps that record `custom_dir` in the location store: the
/// configuration directory is created, then the file is written. Without a
/// configuration directory there is nothing to write to.
pub open spec fn save_steps_of(
    app_config_dir: Result<Seq<char>, Seq<char>>,
    custom_dir: Option<Seq<char>>,
) -> Result<Seq<FileStepView>, LocationErrorView> {
    match app_config_dir {
        Err(message) => Err(failure(ErrorKind::ConfigDir, message)),
        Ok(directory) => Ok(
            seq![
                FileStepView::CreateConfigDir { path: directory },
                FileStepView::WriteConfig {
                    path: joined_path(directory, config_file_name()),
                    custom_dir,
                    document: config_document_text(custom_dir),
                },
            ],
        ),
    }
}

/// The plan that records `custom_dir` and answers with `path`.
pub open spec fn save_plan_of(
    app_config_dir: Result<Seq<char>, Seq<char>>,
    custom_dir: Option<Seq<char>>,
    path: Seq<char>,
) -> MigrationPlanView {
    match save_steps_of(app_config_dir, custom_dir) {
        Err(error) => refusal(error),
        Ok(steps) => MigrationPlanView { steps, outcome: Ok(path) },
    }
}

/// What setting the directory does once the directory is known to be one,
/// the database is at `old` and would be at `new`, and `same` says whether
/// the two are one path.
///
/// A database already at `new` is backed up where `backup` asks for it and
/// overwritten where `backup` or `overwrite` does; else it is adopted as it
/// is. Where none is there, the one at `old` is copied if it exists. Where the
/// two paths are one, no file is touched. The choice is recorded last.
pub open spec fn set_decision_of(
    app_config_dir: Result<Seq<char>, Seq<char>>,
    directory: Seq<char>,
    old: Seq<char>,
    new: Seq<char>,
    same: bool,
    overwrite: bool,
    backup: bool,
    probe: SetProbe,
    now: Result<nat, Seq<char>>,
) -> MigrationPlanView {
    let save = save_plan_of(app_config_dir, Some(directory), new);
    if probe.new_db_exists && !same {
        if backup {
            match backup_destination_of(new, now) {
                Err(error) => refusal(error),
                Ok(destination) => after(
                    seq![FileStepView::CopyBackup { from: new, to: destination }] + copy_steps_of(
                        old,
                        new,
                    ),
                    save,
                ),
            }
        } else if overwrite {
            after(copy_steps_of(old, new), save)
        } else {
            save
        }
    } else if probe.old_db_exists && !same {
        after(copy_steps_of(old, new), save)
    } else {
        save
    }
}

/// What setting the directory to `directory` does. The request is refused
/// where the directory does not exist or is no directory, in this order, and
/// where the path now in effect cannot be told. The empty path names nothing
/// that exists, whatever the probe says.
pub open spec fn set_plan_of(
    env: EnvironmentView,
    directory: Seq<char>,
    overwrite: bool,
    backup: bool,
    probe: SetProbe,
    now: Result<nat, Seq<char>>,
) -> MigrationPlanView {
    if !probe.directory_exists || directory.len() == 0 {
        refusal(failure(ErrorKind::DirectoryMissing, directory))
    } else if !probe.directory_is_dir {
        refusal(failure(ErrorKind::NotADirectory, directory))
    } else {
        match database_path_of(env.custom_dir(), env.app_data_dir, env.use_test_db) {
            Err(error) => refusal(error),
            Ok(old) => {
                let new = joined_path(directory, env.filename());
                set_decision_of(
                    env.app_config_dir,
                    directory,
                    old,
                    new,
                    same_path(new, old),
                    overwrite,
                    backup,
                    probe,
                    now,
                )
            },
        }
    }
}

/// What going back to the default directory does. The store is cleared
/// first, then the database is where the platform's data directory says; the
/// file at the old place is copied there if it exists and the place changed.
pub open spec fn reset_plan_of(env: EnvironmentView, old_db_exists: bool) -> MigrationPlanView {
    match database_path_of(env.custom_dir(), env.app_data_dir, env.use_test_db) {
        Err(error) => refusal(error),
        Ok(old) => match save_steps_of(env.app_config_dir, None) {
            Err(error) => refusal(error),
            Ok(save) => match database_path_of(None, env.app_data_dir, env.use_test_db) {
                Err(error) => MigrationPlanView { steps: save, outcome: Err(error) },
                Ok(new) => {
                    let copy = if old_db_exists && !same_path(old, new) {
                        copy_steps_of(old, new)
                    } else {
                        Seq::empty()
                    };
                    MigrationPlanView { steps: save + copy, outcome: Ok(new) }
                },
            },
        },
    }
}

/// The surroundings that a later command observes once `steps` have been
/// carried out: the same but for the content of the configuration file.
pub open spec fn environment_after(
    env: EnvironmentView,
    steps: Seq<FileStepView>,
) -> EnvironmentView {
    EnvironmentView {
        use_test_db: env.use_test_db,
        app_data_dir: env.app_data_dir,
        app_config_dir: env.app_config_dir,
        config_content: content_after(steps, env.config_content),
    }
}

/// Whether `directory` holds a database other than the one in effect, given
/// whether a database file exists there.
pub open spec fn other_database_at(
    env: EnvironmentView,
    directory: Seq<char>,
    exists_there: bool,
) -> Result<bool, LocationErrorView> {
    match database_path_of(env.custom_dir(), env.app_data_dir, env.use_test_db) {
        Err(error) => Err(error),
        Ok(current) => Ok(
            exists_there && !same_path(joined_path(directory, env.filename()), current),
        ),
    }
}

/// The views of planned steps, or of the failure returned in their place.
pub open spec fn saved_of(value: Result<Vec<FileStep>, LocationError>) -> Result<
    Seq<FileStepView>,
    LocationErrorView,
> {
    match value {
        Ok(steps) => Ok(steps_of(steps@)),
        Err(error) => Err(error@),
    }
}

fn copy_steps(old: &str, new: &str) -> (steps: Vec<FileStep>)
    ensures
        steps_of(steps@) == copy_steps_of(old@, new@),
{
    let mut steps: Vec<FileStep> = Vec::new();
    match parent_path(new) {
        Some(parent) => {
            steps.push(FileStep::CreateDatabaseDir { path: parent });
        },
        None => {},
    }
    steps.push(FileStep::CopyDatabase { from: old.to_owned(), to: new.to_owned() });
    assert(steps_of(steps@) =~= copy_steps_of(old@, new@));
    steps
}

/// Plans the recording of `custom_dir`, or of no directory, in the location
/// store whose directory is `app_config_dir`.
pub fn save_custom_db_path(
    app_config_dir: &Result<String, String>,
    custom_dir: Option<&str>,
) -> (steps: Result<Vec<FileStep>, LocationError>)
    ensures
        saved_of(steps) == save_steps_of(directory_of(*app_config_dir), slice_of(custom_dir)),
{
    match app_config_dir {
        Err(message) => Err(LocationError::new(ErrorKind::ConfigDir, message.as_str())),
        Ok(directory) => {
            let mut steps: Vec<FileStep> = Vec::new();
            steps.push(FileStep::CreateConfigDir { path: directory.clone() });
            let path = config_file_path(directory.as_str());
            let document = config_document(custom_dir);
            let recorded = match custom_dir {
                Some(directory) => Some(directory.to_owned()),
                None => None,
            };
            steps.push(FileStep::WriteConfig { path, custom_dir: recorded, document });
            assert(steps_of(steps@) =~= save_steps_of(
                directory_of(*app_config_dir),
                slice_of(custom_dir),
            )->Ok_0);
            Ok(steps)
        },
    }
}

/// Decides what setting the directory to `directory` does, once the
/// directory is known to be one. The database is at `old` and would be at
/// `new`; `same` says whether the two are one path.
pub fn decide_set_directory(
    app_config_dir: &Result<String, String>,
    directory: &str,
    old: &str,
    new: &str,
    same: bool,
    overwrite: bool,
    backup: bool,
    probe: SetProbe,
    now: &Result<u64, String>,
) -> (plan: MigrationPlan)
    ensures
        plan@ == set_decision_of(
            directory_of(*app_config_dir),
            directory@,
            old@,
            new@,
            same,
            overwrite,
            backup,
            probe,
            clock_of(*now),
        ),
{
    let mut first: Vec<FileStep> = Vec::new();
    if probe.new_db_exists && !same {
        if backup {
            match backup_destination(new, now) {
                Err(error) => {
                    return MigrationPlan::refuse(error);
                },
                Ok(destination) => {
                    first.push(FileStep::CopyBackup { from: new.to_owned(), to: destination });
                },
            }
        }
        if overwrite || backup {
            let mut copy = copy_steps(old, new);
            let ghost before = first@;
            let ghost added = copy@;
            first.append(&mut copy);
            assert(steps_of(first@) =~= steps_of(before) + steps_of(added));
        }
    } else if probe.old_db_exists && !same {
        first = copy_steps(old, new);
    }
    let save = match save_custom_db_path(app_config_dir, Some(directory)) {
        Err(error) => MigrationPlan::refuse(error),
        Ok(steps) => MigrationPlan { steps, outcome: Ok(new.to_owned()) },
    };
    let ghost wanted = set_decision_of(
        directory_of(*app_config_dir),
        directory@,
        old@,
        new@,
        same,
        overwrite,
        backup,
        probe,
        clock_of(*now),
    );
    let plan = MigrationPlan::preceded_by(save, first);
    assert(plan@.steps =~= wanted.steps);
    plan
}

/// Plans the move of the database into `directory`. `probe` holds what the
/// caller found on disk: of `directory` itself, of the database file that
/// `database_path_in` names there, and of the one that `get_database_path`
/// names now. `now` is the reading of the clock, used to name a backup.
pub fn set_database_directory(
    env: &Environment,
    directory: &str,
    overwrite: bool,
    backup: bool,
    probe: SetProbe,
    now: &Result<u64, String>,
) -> (plan: MigrationPlan)
    ensures
        plan@ == set_plan_of(env@, directory@, overwrite, backup, probe, clock_of(*now)),
{
    if !probe.directory_exists || directory.is_empty() {
        return MigrationPlan::refuse(LocationError::new(ErrorKind::DirectoryMissing, directory));
    }
    if !probe.directory_is_dir {
        return MigrationPlan::refuse(LocationError::new(ErrorKind::NotADirectory, directory));
    }
    let old = match get_database_path(env) {
        Ok(old) => old,
        Err(error) => {
            return MigrationPlan::refuse(error);
        },
    };
    let new = database_path_in(directory, env.use_test_db);
    let same = is_same_path(new.as_str(), old.as_str());
    decide_set_directory(
        &env.app_config_dir,
        directory,
        old.as_str(),
        new.as_str(),
        same,
        overwrite,
        backup,
        probe,
        now,
    )
}

/// Plans the return of the database to the default directory.
/// `old_db_exists` says whether the database file now in effect exists.
pub fn reset_database_directory(env: &Environment, old_db_exists: bool) -> (plan: MigrationPlan)
    ensures
        plan@ == reset_plan_of(env@, old_db_exists),
{
    let old = match get_database_path(env) {
        Ok(old) => old,
        Err(error) => {
            return MigrationPlan::refuse(error);
        },
    };
    let mut steps = match save_custom_db_path(&env.app_config_dir, None) {
        Ok(steps) => steps,
        Err(error) => {
            return MigrationPlan::refuse(error);
        },
    };
    let ghost save = steps@;
    match &env.app_data_dir {
        Err(message) => MigrationPlan {
            steps,
            outcome: Err(LocationError::new(ErrorKind::AppDataDir, message.as_str())),
        },
        Ok(directory) => {
            let new = database_path_in(directory.as_str(), env.use_test_db);
            if old_db_exists && !is_same_path(old.as_str(), new.as_str()) {
                let mut copy = copy_steps(old.as_str(), new.as_str());
                let ghost added = copy@;
                steps.append(&mut copy);
                assert(steps_of(steps@) =~= steps_of(save) + steps_of(added));
            } else {
                assert(steps_of(steps@) =~= steps_of(save) + Seq::<FileStepView>::empty());
            }
            MigrationPlan { steps, outcome: Ok(new) }
        },
    }
}

/// Tells whether `directory` holds a database other than the one in effect.
/// `exists_there` says whether the file that `database_path_in` names in
/// `directory` exists.
pub fn check_database_exists(env: &Environment, directory: &str, exists_there: bool) -> (found:
    Result<bool, LocationError>)
    ensures
        match found {
            Ok(found) => other_database_at(env@, directory@, exists_there) == Ok::<
                bool,
                LocationErrorView,
            >(found),
            Err(error) => other_database_at(env@, directory@, exists_there) == Err::<
                bool,
                LocationErrorView,
            >(error@),
        },
{
    let new = database_path_in(directory, env.use_test_db);
    match get_database_path(env) {
        Err(error) => Err(error),
        Ok(current) => Ok(exists_there && !is_same_path(new.as_str(), current.as_str())),
    }
}

/// Setting the directory records the directory as it was given, and records
/// it last: while any step of the plan is still to do, the configuration file
/// is untouched and the location store holds what it held before, so a failed
/// step leaves the path in effect as it was. A plan that answers with a
/// failure never changes the store.
pub proof fn lemma_set_directory_records_last(
    env: EnvironmentView,
    directory: Seq<char>,
    overwrite: bool,
    backup: bool,
    probe: SetProbe,
    now: Result<nat, Seq<char>>,
    done: int,
)
    ensures
        ({
            let plan = set_plan_of(env, directory, overwrite, backup, probe, now);
            let before = env.custom_dir();
            let stored = stored_after(plan.steps.take(done), before);
            &&& 0 <= done < plan.steps.len() ==> stored == before
            &&& 0 <= done < plan.steps.len() ==> environment_after(env, plan.steps.take(done))
                == env
            &&& 0 <= done < plan.steps.len() ==> database_path_of(
                stored,
                env.app_data_dir,
                env.use_test_db,
            ) == database_path_of(before, env.app_data_dir, env.use_test_db)
            &&& plan.outcome is Err ==> stored_after(plan.steps, before) == before
        }),
{
    let plan = set_plan_of(env, directory, overwrite, backup, probe, now);
    let before = env.custom_dir();
    lemma_set_plan_shape(env, directory, overwrite, backup, probe, now);
    if 0 <= done < plan.steps.len() {
        lemma_store_kept_without_write(plan.steps.take(done), before);
        lemma_content_kept_without_write(plan.steps.take(done), env.config_content);
    }
    if plan.outcome is Err {
        lemma_store_kept_without_write(plan.steps, before);
    }
}

/// Once setting the directory to `directory` has succeeded, the location
/// store holds `directory`, which is not the empty path; the directory in
/// effect is `directory`, and the path in effect is the database file in
/// `directory`, which is the path that the command answered with. A later
/// command reads all this from the configuration file, provided that the text
/// written for `directory` reads back.
pub proof fn lemma_set_directory_takes_effect(
    env: EnvironmentView,
    directory: Seq<char>,
    overwrite: bool,
    backup: bool,
    probe: SetProbe,
    now: Result<nat, Seq<char>>,
)
    requires
        set_plan_of(env, directory, overwrite, backup, probe, now).outcome is Ok,
    ensures
        ({
            let plan = set_plan_of(env, directory, overwrite, backup, probe, now);
            let stored = stored_after(plan.steps, env.custom_dir());
            &&& stored == Some(directory)
            &&& directory.len() > 0
            &&& database_directory_of(stored, env.app_data_dir) == Ok::<
                Seq<char>,
                LocationErrorView,
            >(directory)
            &&& database_path_of(stored, env.app_data_dir, env.use_test_db) == plan.outcome
            &&& plan.outcome == Ok::<Seq<char>, LocationErrorView>(
                joined_path(directory, db_filename(env.use_test_db)),
            )
            &&& reads_back(Some(directory)) ==> environment_after(env, plan.steps).custom_dir()
                == Some(directory)
        }),
{
    let plan = set_plan_of(env, directory, overwrite, backup, probe, now);
    lemma_set_plan_shape(env, directory, overwrite, backup, probe, now);
    lemma_store_holds_last_write(plan.steps, env.custom_dir(), plan.steps.len() - 1);
    if reads_back(Some(directory)) {
        lemma_store_is_read_from_file(plan.steps, env.config_content);
    }
}

/// The shape of every plan that sets the directory: a plan that answers with
/// a path ends in the one write of the configuration, which records the
/// directory; a plan that answers with a failure writes no configuration.
proof fn lemma_set_plan_shape(
    env: EnvironmentView,
    directory: Seq<char>,
    overwrite: bool,
    backup: bool,
    probe: SetProbe,
    now: Result<nat, Seq<char>>,
)
    ensures
        ({
            let plan = set_plan_of(env, directory, overwrite, backup, probe, now);
            let last = plan.steps.len() - 1;
            &&& plan.outcome is Ok ==> {
                &&& plan.steps.len() >= 2
                &&& plan.steps[last] is WriteConfig
                &&& plan.steps[last]->WriteConfig_custom_dir == Some(directory)
                &&& plan.outcome == Ok::<Seq<char>, LocationErrorView>(
                    joined_path(directory, db_filename(env.use_test_db)),
                )
            }
            &&& forall|i: int| 0 <= i < last ==> !(#[trigger] plan.steps[i] is WriteConfig)
            &&& plan.outcome is Err ==> forall|i: int|
                0 <= i < plan.steps.len() ==> !(#[trigger] plan.steps[i] is WriteConfig)
            &&& plan.outcome is Ok ==> env.app_config_dir is Ok
            &&& writes_what_it_records(plan.steps)
        }),
{
}

/// Once going back to the default has succeeded, the location store holds no
/// directory and the path in effect is the one that the command answered
/// with. The store is cleared by the second step, whatever becomes of the
/// steps after it. A later command reads no directory from the configuration
/// file, provided that the text written for none reads back.
pub proof fn lemma_reset_clears_store(env: EnvironmentView, old_db_exists: bool, done: int)
    ensures
        ({
            let plan = reset_plan_of(env, old_db_exists);
            let before = env.custom_dir();
            &&& plan.outcome is Ok ==> stored_after(plan.steps, before) is None
            &&& plan.outcome is Ok ==> database_path_of(None, env.app_data_dir, env.use_test_db)
                == plan.outcome
            &&& 2 <= done <= plan.steps.len() ==> stored_after(plan.steps.take(done), before)
                is None
            &&& 0 <= done < 2 && done <= plan.steps.len() ==> stored_after(
                plan.steps.take(done),
                before,
            ) == before
            &&& plan.outcome is Ok && reads_back(None) ==> environment_after(
                env,
                plan.steps,
            ).custom_dir() is None
        }),
{
    let plan = reset_plan_of(env, old_db_exists);
    let before = env.custom_dir();
    if plan.outcome is Ok && reads_back(None) {
        lemma_store_is_read_from_file(plan.steps, env.config_content);
    }
    if plan.steps.len() >= 2 {
        assert(plan.steps[1] is WriteConfig);
        assert(forall|i: int| 1 < i < plan.steps.len() ==> !(plan.steps[i] is WriteConfig));
        if 2 <= done <= plan.steps.len() {
            lemma_store_holds_last_write(plan.steps.take(done), before, 1);
        }
        if plan.outcome is Ok {
            lemma_store_holds_last_write(plan.steps, before, 1);
        }
    }
    if 0 <= done < 2 && done <= plan.steps.len() {
        lemma_store_kept_without_write(plan.steps.take(done), before);
    }
}

} // verus!
