//! The names and paths of one deploy attempt, all fixed before the first
//! step: the local dump, the live database, its backup, the uploaded dump and
//! the command that applies it.

use vstd::prelude::*;
use vstd::string::*;

use crate::config::{DeployConfig, DeployConfigView};
use crate::tag::{is_tag_text, GenerationTag};
use crate::text::{
    lemma_without_trailing_slashes, trim_trailing_slashes, without_trailing_slashes,
};

verus! {

/// Extension of a database file; a backup always carries it.
pub const DATABASE_EXTENSION: &'static str = ".db";

/// Where the extension of a file name begins: the position of its last dot,
/// unless that dot is its first character; 0 where the name has no extension.
pub open spec fn extension_dot(name: Seq<char>) -> nat
    decreases name.len(),
{
    if name.len() <= 1 {
        0
    } else if name.last() == '.' {
        (name.len() - 1) as nat
    } else {
        extension_dot(name.drop_last())
    }
}

/// The database name without its extension.
pub open spec fn database_stem(name: Seq<char>) -> Seq<char> {
    if extension_dot(name) == 0 {
        name
    } else {
        name.take(extension_dot(name) as int)
    }
}

/// `dump_<tag>.sql`: the name of the dump, locally and on the host.
pub open spec fn dump_name(tag: Seq<char>) -> Seq<char> {
    "dump_"@ + tag + ".sql"@
}

/// `backup_<stem>_<tag>.db`: the name under which the live database is kept.
pub open spec fn backup_name(database_name: Seq<char>, tag: Seq<char>) -> Seq<char> {
    "backup_"@ + database_stem(database_name) + "_"@ + tag + DATABASE_EXTENSION@
}

/// The path of `file` in the remote directory `dir`.
pub open spec fn remote_path(dir: Seq<char>, file: Seq<char>) -> Seq<char> {
    without_trailing_slashes(dir) + "/"@ + file
}

/// The shell command that applies the uploaded dump: enter the directory,
/// then feed the dump to the database tool, which is given the database's
/// name as its only argument.
pub open spec fn apply_command(dir: Seq<char>, database_name: Seq<char>, dump: Seq<char>) -> Seq<
    char,
> {
    "cd "@ + without_trailing_slashes(dir) + " && sqlite3 "@ + database_name + " < "@ + dump
}

/// The model of a [`DeployPlan`].
pub struct DeployPlanView {
    pub local_database: Seq<char>,
    pub artifact: Seq<char>,
    pub live_path: Seq<char>,
    pub backup_path: Seq<char>,
    pub remote_dump_path: Seq<char>,
    pub command: Seq<char>,
}

/// The plan of the attempt tagged `tag` under the settings `config`.
pub open spec fn plan_for(config: DeployConfigView, tag: Seq<char>) -> DeployPlanView {
    DeployPlanView {
        local_database: config.local_database,
        artifact: dump_name(tag),
        live_path: remote_path(config.remote_dir, config.database_name),
        backup_path: remote_path(config.remote_dir, backup_name(config.database_name, tag)),
        remote_dump_path: remote_path(config.remote_dir, dump_name(tag)),
        command: apply_command(config.remote_dir, config.database_name, dump_name(tag)),
    }
}

/// Copies `name` without its extension.
pub fn file_stem(name: &str) -> (stem: String)
    ensures
        stem@ == database_stem(name@),
{
    let n: usize = name.unicode_len();
    let mut end: usize = n;
    assert(name@.take(n as int) == name@);
    while end > 1 && name.get_char(end - 1) != '.'
        invariant
            end <= n,
            n == name@.len(),
            extension_dot(name@) == extension_dot(name@.take(end as int)),
        decreases end,
    {
        assert(name@.take(end as int).drop_last() == name@.take(end - 1));
        end = end - 1;
    }
    if end <= 1 {
        String::from_str(name)
    } else {
        String::from_str(name.substring_char(0, end - 1))
    }
}

/// Builds `dump_<tag>.sql`.
pub fn dump_file_name(tag: &GenerationTag) -> (name: String)
    ensures
        name@ == dump_name(tag@),
{
    let mut name = String::from_str("dump_");
    name.append(tag.as_str());
    name.append(".sql");
    name
}

/// Builds `backup_<stem>_<tag>.db` for the database called `database_name`.
pub fn backup_file_name(database_name: &str, tag: &GenerationTag) -> (name: String)
    ensures
        name@ == backup_name(database_name@, tag@),
{
    let stem = file_stem(database_name);
    let mut name = String::from_str("backup_");
    name.append(stem.as_str());
    name.append("_");
    name.append(tag.as_str());
    name.append(DATABASE_EXTENSION);
    name
}

/// Joins a remote directory and a file name with one slash, whatever number
/// of slashes the directory ends in.
pub fn join_remote(dir: &str, file: &str) -> (path: String)
    ensures
        path@ == remote_path(dir@, file@),
{
    let mut path = trim_trailing_slashes(dir);
    path.append("/");
    path.append(file);
    path
}

/// Builds the command that applies `dump` to the database `database_name`
/// in `dir`.
pub fn build_apply_command(dir: &str, database_name: &str, dump: &str) -> (command: String)
    ensures
        command@ == apply_command(dir@, database_name@, dump@),
{
    let trimmed = trim_trailing_slashes(dir);
    let mut command = String::from_str("cd ");
    command.append(trimmed.as_str());
    command.append(" && sqlite3 ");
    command.append(database_name);
    command.append(" < ");
    command.append(dump);
    command
}

/// Every name and path that one deploy attempt uses.
#[derive(Clone, Debug, PartialEq, Eq)]
pub struct DeployPlan {
    local_database: String,
    artifact: String,
    live_path: String,
    backup_path: String,
    remote_dump_path: String,
    command: String,
}

impl View for DeployPlan {
    type V = DeployPlanView;

    closed spec fn view(&self) -> DeployPlanView {
        DeployPlanView {
            local_database: self.local_database@,
            artifact: self.artifact@,
            live_path: self.live_path@,
            backup_path: self.backup_path@,
            remote_dump_path: self.remote_dump_path@,
            command: self.command@,
        }
    }
}

impl DeployPlan {
    /// Lays out the attempt tagged `tag` under the settings `config`.
    pub fn new(config: &DeployConfig, tag: &GenerationTag) -> (plan: DeployPlan)
        ensures
            plan@ == plan_for(config@, tag@),
    {
        let artifact = dump_file_name(tag);
        let backup = backup_file_name(config.database_name.as_str(), tag);
        let live_path = join_remote(config.remote_dir.as_str(), config.database_name.as_str());
        let backup_path = join_remote(config.remote_dir.as_str(), backup.as_str());
        let remote_dump_path = join_remote(config.remote_dir.as_str(), artifact.as_str());
        let command = build_apply_command(
            config.remote_dir.as_str(),
            config.database_name.as_str(),
            artifact.as_str(),
        );
        DeployPlan {
            local_database: config.local_database.clone(),
            artifact,
            live_path,
            backup_path,
            remote_dump_path,
            command,
        }
    }

    /// Path of the local database that is dumped.
    pub fn local_database(&self) -> (path: &str)
        ensures
            path@ == self@.local_database,
    {
        self.local_database.as_str()
    }

    /// Path of the local file that holds the dump during the attempt.
    pub fn artifact(&self) -> (path: &str)
        ensures
            path@ == self@.artifact,
    {
        self.artifact.as_str()
    }

    /// Remote path of the live database.
    pub fn live_path(&self) -> (path: &str)
        ensures
            path@ == self@.live_path,
    {
        self.live_path.as_str()
    }

    /// Remote path under which the live database is kept as a backup.
    pub fn backup_path(&self) -> (path: &str)
        ensures
            path@ == self@.backup_path,
    {
        self.backup_path.as_str()
    }

    /// Remote path of the uploaded dump.
    pub fn remote_dump_path(&self) -> (path: &str)
        ensures
            path@ == self@.remote_dump_path,
    {
        self.remote_dump_path.as_str()
    }

    /// The command that applies the uploaded dump on the host.
    pub fn command(&self) -> (command: &str)
        ensures
            command@ == self@.command,
    {
        self.command.as_str()
    }
}

/// A sequence framed by the same prefix and suffix determines what is framed.
pub proof fn lemma_framed_injective(
    prefix: Seq<char>,
    a: Seq<char>,
    b: Seq<char>,
    suffix: Seq<char>,
)
    requires
        prefix + a + suffix == prefix + b + suffix,
    ensures
        a == b,
{
    let right = prefix + b + suffix;
    assert(right.len() == prefix.len() + b.len() + suffix.len());
    assert forall|i: int| 0 <= i < a.len() implies a[i] == b[i] by {
        assert(right[prefix.len() + i] == b[i]);
    }
}

/// A name that ends in a dot and letters has all that stands before the dot
/// as its stem.
proof fn lemma_stem_before_extension(stem: Seq<char>, extension: Seq<char>)
    requires
        stem.len() > 0,
        extension.len() > 0,
        extension[0] == '.',
        forall|i: int| 0 < i < extension.len() ==> extension[i] != '.',
    ensures
        extension_dot(stem + extension) == stem.len(),
        database_stem(stem + extension) == stem,
    decreases extension.len(),
{
    let name = stem + extension;
    if extension.len() > 1 {
        let shorter = extension.drop_last();
        assert(name.drop_last() =~= stem + shorter);
        assert(name.last() == extension.last());
        lemma_stem_before_extension(stem, shorter);
    }
    assert(name.take(stem.len() as int) =~= stem);
}

/// Attempts with different tags use different local dump files, different
/// backup paths and different remote dump paths: the files of one attempt
/// never stand for those of another. Tags have the resolution of a second,
/// so this speaks of attempts that start in different seconds.
pub proof fn tags_keep_attempts_apart(config: DeployConfigView, first: Seq<char>, second: Seq<char>)
    requires
        first != second,
    ensures
        plan_for(config, first).artifact != plan_for(config, second).artifact,
        plan_for(config, first).backup_path != plan_for(config, second).backup_path,
        plan_for(config, first).remote_dump_path != plan_for(config, second).remote_dump_path,
{
    let dir = without_trailing_slashes(config.remote_dir) + "/"@;
    let none = Seq::<char>::empty();
    if dump_name(first) == dump_name(second) {
        lemma_framed_injective("dump_"@, first, second, ".sql"@);
    }
    if plan_for(config, first).remote_dump_path == plan_for(config, second).remote_dump_path {
        lemma_framed_injective(dir, dump_name(first), dump_name(second), none);
    }
    let head = "backup_"@ + database_stem(config.database_name) + "_"@;
    if backup_name(config.database_name, first) == backup_name(config.database_name, second) {
        lemma_framed_injective(head, first, second, DATABASE_EXTENSION@);
    }
    if plan_for(config, first).backup_path == plan_for(config, second).backup_path {
        let one = backup_name(config.database_name, first);
        let other = backup_name(config.database_name, second);
        lemma_framed_injective(dir, one, other, none);
    }
}

/// The three remote paths of a plan name three different files: the backup
/// is neither the live database nor the uploaded dump, and the uploaded dump
/// is the live database only where the database itself is called like the
/// dump.
pub proof fn remote_paths_differ(config: DeployConfigView, tag: Seq<char>)
    requires
        is_tag_text(tag),
    ensures
        plan_for(config, tag).backup_path != plan_for(config, tag).live_path,
        plan_for(config, tag).backup_path != plan_for(config, tag).remote_dump_path,
        config.database_name != dump_name(tag) ==> plan_for(config, tag).remote_dump_path
            != plan_for(config, tag).live_path,
{
    reveal_strlit("dump_");
    reveal_strlit(".sql");
    reveal_strlit("backup_");
    reveal_strlit("_");
    reveal_strlit(".db");
    reveal_strlit("/");
    let plan = plan_for(config, tag);
    let dir = without_trailing_slashes(config.remote_dir) + "/"@;
    let none = Seq::<char>::empty();
    let name = config.database_name;
    let backup = backup_name(name, tag);
    let dump = dump_name(tag);
    if plan.backup_path == plan.live_path {
        lemma_framed_injective(dir, backup, name, none);
        lemma_stem_before_extension(
            "backup_"@ + database_stem(name) + "_"@ + tag,
            DATABASE_EXTENSION@,
        );
    }
    if plan.backup_path == plan.remote_dump_path {
        lemma_framed_injective(dir, backup, dump, none);
    }
    if plan.remote_dump_path == plan.live_path {
        lemma_framed_injective(dir, dump, name, none);
    }
}

/// Joining is blind to the slashes at the end of the directory: one more
/// slash there, or none at all, gives the same path.
pub proof fn join_ignores_trailing_slashes(dir: Seq<char>, file: Seq<char>)
    ensures
        remote_path(dir.push('/'), file) == remote_path(dir, file),
        remote_path(without_trailing_slashes(dir), file) == remote_path(dir, file),
{
    assert(dir.push('/').drop_last() == dir);
    lemma_without_trailing_slashes(dir);
}

} // verus!
