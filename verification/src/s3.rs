//! Configuration of a branch for an object storage bucket.

use crate::text::{joined, same_text};
use vstd::prelude::*;

verus! {

/// The only extra param that an S3 branch takes: the name of the source bucket, or rather
/// where to read that name from on the target.
///
/// The bucket lives among the extra params because none of the fixed slots (host, port,
/// user, password, database) mean anything for object storage.
pub const BUCKET_PARAM: &'static str = "bucket";

/// Why a configuration is not accepted.
#[derive(Debug, PartialEq, Eq)]
pub enum ConfigError {
    /// Options that do not go together.
    Conflict(String),
}

/// Where the value of a param comes from.
#[derive(Debug, PartialEq, Eq)]
pub enum ParamSource {
    /// A variable on the target.
    Variable(String),
    /// A key of a Kubernetes secret.
    Secret { secret: String, key: String },
    /// A literal value.
    Literal { variable: String, value: String },
    /// What a regular expression extracts from a variable.
    Pattern { env_var_name: String, value_pattern: String },
}

/// How variables are resolved on the target.
#[derive(Debug, Clone, Copy, PartialEq, Eq)]
pub enum SourceType {
    /// From the pod's own environment.
    Env,
    /// From the sources that the pod takes its environment from.
    EnvFrom,
}

/// Connection params: the fixed slots of a database server, and anything else by name.
#[derive(Debug, PartialEq, Eq)]
pub struct ConnectionParamsVars {
    pub host: Option<ParamSource>,
    pub port: Option<ParamSource>,
    pub user: Option<ParamSource>,
    pub password: Option<ParamSource>,
    pub database: Option<ParamSource>,
    /// The other params, in the order in which they are walked.
    pub extra: Vec<(String, ParamSource)>,
}

#[derive(Debug, PartialEq, Eq)]
pub struct ConnectionParamsConfig {
    /// Detected if not given.
    pub source_type: Option<SourceType>,
    pub params: ConnectionParamsVars,
}

/// The options that every kind of branch has, as far as an S3 branch reads them: whether
/// they go together.
#[derive(Debug, PartialEq, Eq)]
pub struct BranchBaseConfig {
    /// What is wrong with them, if anything is.
    pub conflict: Option<String>,
}

impl BranchBaseConfig {
    pub fn verify(&self) -> (r: Result<(), ConfigError>)
        ensures
            verdict(r) == match self.conflict {
                Some(text) => Err(text@),
                None => Ok(()),
            },
    {
        match &self.conflict {
            Some(text) => Err(ConfigError::Conflict(text.as_str().to_owned())),
            None => Ok(()),
        }
    }
}

/// Cloud provider that hosts the source bucket.
#[derive(Debug, Clone, Copy, PartialEq, Eq)]
pub enum S3Provider {
    /// Amazon S3.
    Aws,
}

impl Default for S3Provider {
    fn default() -> (r: S3Provider)
        ensures
            r == S3Provider::Aws,
    {
        S3Provider::Aws
    }
}

/// How the branch bucket is seeded.
#[derive(Debug, PartialEq, Eq)]
pub enum S3BranchCopyConfig {
    /// The branch bucket starts with no objects in it.
    Empty,
    /// Objects of the source bucket are copied.
    All {
        /// Regular expressions over the keys of the objects. An object is copied if it
        /// matches any of them, and all are if there is no such list.
        objects: Option<Vec<String>>,
    },
}

impl Default for S3BranchCopyConfig {
    fn default() -> (r: S3BranchCopyConfig)
        ensures
            r == S3BranchCopyConfig::Empty,
    {
        S3BranchCopyConfig::Empty
    }
}

/// A branch for an object storage bucket.
#[derive(Debug, PartialEq, Eq)]
pub struct S3BranchConfig {
    pub base: BranchBaseConfig,
    /// Cloud provider that hosts the source bucket.
    pub provider: S3Provider,
    /// Where to read the source bucket's name from.
    pub source: ConnectionParamsConfig,
    /// How the branch bucket is seeded from the source bucket.
    pub copy: S3BranchCopyConfig,
}

/// What a verification says, with the text of its error.
pub open spec fn verdict(r: Result<(), ConfigError>) -> Result<(), Seq<char>> {
    match r {
        Ok(()) => Ok(()),
        Err(ConfigError::Conflict(text)) => Err(text@),
    }
}

/// The names of the extra params.
pub open spec fn extra_names(params: ConnectionParamsVars) -> Seq<Seq<char>> {
    params.extra@.map_values(|e: (String, ParamSource)| e.0@)
}

/// The first name in a list that is not the bucket's.
pub open spec fn first_unknown(names: Seq<Seq<char>>) -> Option<Seq<char>>
    decreases names.len(),
{
    if names.len() == 0 {
        None
    } else if names[0] != BUCKET_PARAM@ {
        Some(names[0])
    } else {
        first_unknown(names.skip(1))
    }
}

/// The name of the first fixed slot that is taken.
pub open spec fn taken_slot(params: ConnectionParamsVars) -> Option<Seq<char>> {
    if params.host is Some {
        Some("host"@)
    } else if params.port is Some {
        Some("port"@)
    } else if params.user is Some {
        Some("user"@)
    } else if params.password is Some {
        Some("password"@)
    } else if params.database is Some {
        Some("database"@)
    } else {
        None
    }
}

pub open spec fn missing_bucket_text() -> Seq<char> {
    "`feature.db_branches[].source.params."@ + BUCKET_PARAM@
        + "` is required when `feature.db_branches[].type` is `s3`."@
}

pub open spec fn unknown_param_text(name: Seq<char>) -> Seq<char> {
    "`"@ + name
        + "` is not a valid `feature.db_branches[].source.params` entry for an s3 branch; the only accepted param is `"@
        + BUCKET_PARAM@ + "`."@
}

pub open spec fn taken_slot_text(name: Seq<char>) -> Seq<char> {
    "`feature.db_branches[].source.params."@ + name
        + "` is not a valid param for an s3 branch; the only accepted param is `"@ + BUCKET_PARAM@
        + "`."@
}

/// What is wrong with an S3 branch, if anything is: the first of the general options, a
/// missing bucket, an unknown param, and a fixed slot that is taken.
pub open spec fn s3_verdict(config: S3BranchConfig) -> Result<(), Seq<char>> {
    let params = config.source.params;
    if config.base.conflict is Some {
        Err(config.base.conflict->0@)
    } else if !extra_names(params).contains(BUCKET_PARAM@) {
        Err(missing_bucket_text())
    } else if first_unknown(extra_names(params)) is Some {
        Err(unknown_param_text(first_unknown(extra_names(params))->0))
    } else if taken_slot(params) is Some {
        Err(taken_slot_text(taken_slot(params)->0))
    } else {
        Ok(())
    }
}

impl S3BranchConfig {
    pub fn verify(&self) -> (r: Result<(), ConfigError>)
        ensures
            verdict(r) == s3_verdict(*self),
    {
        self.base.verify()?;
        let params = &self.source.params;
        if !has_bucket(&params.extra) {
            return Err(
                ConfigError::Conflict(
                    joined(
                        "`feature.db_branches[].source.params.",
                        BUCKET_PARAM,
                        "` is required when `feature.db_branches[].type` is `s3`.",
                    ),
                ),
            );
        }
        if let Some(i) = unknown_at(&params.extra) {
            let mut text = joined(
                "`",
                params.extra[i].0.as_str(),
                "` is not a valid `feature.db_branches[].source.params` entry for an s3 branch; the only accepted param is `",
            );
            text.append(BUCKET_PARAM);
            text.append("`.");
            return Err(ConfigError::Conflict(text));
        }
        // The fixed slots describe a connection to a database server, which an S3 branch
        // never makes. Catching them here beats letting the operator reject the branch.
        if let Some(name) = fixed_slot(params) {
            let mut text = joined(
                "`feature.db_branches[].source.params.",
                name,
                "` is not a valid param for an s3 branch; the only accepted param is `",
            );
            text.append(BUCKET_PARAM);
            text.append("`.");
            return Err(ConfigError::Conflict(text));
        }
        Ok(())
    }
}

fn has_bucket(extra: &Vec<(String, ParamSource)>) -> (r: bool)
    ensures
        r == extra@.map_values(|e: (String, ParamSource)| e.0@).contains(BUCKET_PARAM@),
{
    let ghost names = extra@.map_values(|e: (String, ParamSource)| e.0@);
    let mut i: usize = 0;
    while i < extra.len()
        invariant
            i <= extra.len(),
            names == extra@.map_values(|e: (String, ParamSource)| e.0@),
            forall|j: int| 0 <= j < i ==> #[trigger] names[j] != BUCKET_PARAM@,
        decreases extra.len() - i,
    {
        if same_text(extra[i].0.as_str(), BUCKET_PARAM) {
            assert(names[i as int] == BUCKET_PARAM@);
            return true;
        }
        assert(names[i as int] != BUCKET_PARAM@);
        i = i + 1;
    }
    false
}

fn unknown_at(extra: &Vec<(String, ParamSource)>) -> (r: Option<usize>)
    ensures
        ({
            let names = extra@.map_values(|e: (String, ParamSource)| e.0@);
            match r {
                Some(i) => i < extra.len() && first_unknown(names) == Some(extra@[i as int].0@),
                None => first_unknown(names) is None,
            }
        }),
{
    let ghost names = extra@.map_values(|e: (String, ParamSource)| e.0@);
    let mut i: usize = 0;
    assert(names.skip(0) =~= names);
    while i < extra.len()
        invariant
            i <= extra.len(),
            names == extra@.map_values(|e: (String, ParamSource)| e.0@),
            first_unknown(names) == first_unknown(names.skip(i as int)),
        decreases extra.len() - i,
    {
        assert(names.skip(i as int)[0] == extra@[i as int].0@);
        if !same_text(extra[i].0.as_str(), BUCKET_PARAM) {
            return Some(i);
        }
        assert(names.skip(i as int).skip(1) =~= names.skip(i + 1));
        i = i + 1;
    }
    None
}

fn fixed_slot(params: &ConnectionParamsVars) -> (r: Option<&'static str>)
    ensures
        match r {
            Some(name) => taken_slot(*params) == Some(name@),
            None => taken_slot(*params) is None,
        },
{
    if params.host.is_some() {
        Some("host")
    } else if params.port.is_some() {
        Some("port")
    } else if params.user.is_some() {
        Some("user")
    } else if params.password.is_some() {
        Some("password")
    } else if params.database.is_some() {
        Some("database")
    } else {
        None
    }
}

/// A branch is accepted exactly if its general options go together, its only extra param is
/// the bucket, and none of the fixed slots is taken.
pub proof fn law_accepted_branches(config: S3BranchConfig)
    requires
        extra_names(config.source.params).no_duplicates(),
    ensures
        s3_verdict(config) is Ok <==> {
            &&& config.base.conflict is None
            &&& extra_names(config.source.params) == seq![BUCKET_PARAM@]
            &&& config.source.params.host is None
            &&& config.source.params.port is None
            &&& config.source.params.user is None
            &&& config.source.params.password is None
            &&& config.source.params.database is None
        },
{
    let names = extra_names(config.source.params);
    lemma_all_known(names);
    if names.contains(BUCKET_PARAM@) && first_unknown(names) is None {
        if names.len() > 1 {
            assert(names[0] == names[1]);
        }
        assert(names =~= seq![BUCKET_PARAM@]);
    }
    if names == seq![BUCKET_PARAM@] {
        assert(names[0] == BUCKET_PARAM@);
        assert(names.contains(BUCKET_PARAM@));
    }
}

/// Everything is known exactly if every name is the bucket's.
proof fn lemma_all_known(names: Seq<Seq<char>>)
    ensures
        first_unknown(names) is None <==> forall|i: int|
            0 <= i < names.len() ==> #[trigger] names[i] == BUCKET_PARAM@,
    decreases names.len(),
{
    if names.len() > 0 {
        lemma_all_known(names.skip(1));
        if first_unknown(names) is None {
            assert forall|i: int| 0 <= i < names.len() implies #[trigger] names[i]
                == BUCKET_PARAM@ by {
                if i > 0 {
                    assert(names.skip(1)[i - 1] == names[i]);
                }
            }
        } else {
            if first_unknown(names.skip(1)) is Some {
                let j = choose|j: int|
                    0 <= j < names.skip(1).len() && #[trigger] names.skip(1)[j] != BUCKET_PARAM@;
                assert(names[j + 1] != BUCKET_PARAM@);
            }
        }
    }
}

/// A branch that is refused is told what is wrong with it, by name. Options that do not go
/// together come first, then a bucket that is missing, then the first param that is not the
/// bucket, and then the first of the fixed slots that is taken.
pub proof fn law_refusals_name_what_is_wrong(config: S3BranchConfig, i: int)
    ensures
        ({
            let params = config.source.params;
            let names = extra_names(params);
            let clean = config.base.conflict is None && names.contains(BUCKET_PARAM@);
            let known = clean && forall|j: int|
                0 <= j < names.len() ==> #[trigger] names[j] == BUCKET_PARAM@;
            let wrong_slot = |slot: Seq<char>|
                s3_verdict(config) == Err::<(), Seq<char>>(
                    "`feature.db_branches[].source.params."@ + slot
                        + "` is not a valid param for an s3 branch; the only accepted param is `"@
                        + BUCKET_PARAM@ + "`."@,
                );
            &&& config.base.conflict matches Some(text) ==> s3_verdict(config) == Err::<
                (),
                Seq<char>,
            >(text@)
            &&& config.base.conflict is None && !names.contains(BUCKET_PARAM@) ==> s3_verdict(
                config,
            ) == Err::<(), Seq<char>>(
                "`feature.db_branches[].source.params."@ + BUCKET_PARAM@
                    + "` is required when `feature.db_branches[].type` is `s3`."@,
            )
            &&& clean && 0 <= i < names.len() && names[i] != BUCKET_PARAM@ && (forall|j: int|
                0 <= j < i ==> #[trigger] names[j] == BUCKET_PARAM@) ==> s3_verdict(config) == Err::<
                (),
                Seq<char>,
            >(
                "`"@ + names[i]
                    + "` is not a valid `feature.db_branches[].source.params` entry for an s3 branch; the only accepted param is `"@
                    + BUCKET_PARAM@ + "`."@,
            )
            &&& known && params.host is Some ==> wrong_slot("host"@)
            &&& known && params.host is None && params.port is Some ==> wrong_slot("port"@)
            &&& known && params.host is None && params.port is None && params.user is Some
                ==> wrong_slot("user"@)
            &&& known && params.host is None && params.port is None && params.user is None
                && params.password is Some ==> wrong_slot("password"@)
            &&& known && params.host is None && params.port is None && params.user is None
                && params.password is None && params.database is Some ==> wrong_slot("database"@)
        }),
{
    let names = extra_names(config.source.params);
    lemma_all_known(names);
    if 0 <= i < names.len() && names[i] != BUCKET_PARAM@ && (forall|j: int|
        0 <= j < i ==> #[trigger] names[j] == BUCKET_PARAM@) {
        lemma_first_unknown(names, i);
    }
}

proof fn lemma_first_unknown(names: Seq<Seq<char>>, i: int)
    requires
        0 <= i < names.len(),
        names[i] != BUCKET_PARAM@,
        forall|j: int| 0 <= j < i ==> #[trigger] names[j] == BUCKET_PARAM@,
    ensures
        first_unknown(names) == Some(names[i]),
    decreases names.len(),
{
    if i > 0 {
        let rest = names.skip(1);
        assert(names[0] == BUCKET_PARAM@);
        assert forall|j: int| 0 <= j < i - 1 implies #[trigger] rest[j] == BUCKET_PARAM@ by {
            assert(rest[j] == names[j + 1]);
        }
        lemma_first_unknown(rest, i - 1);
    }
}

/// Options that do not go together are refused with what is wrong with them, and all others
/// are accepted.
pub proof fn law_conflicts_are_told(config: BranchBaseConfig, r: Result<(), ConfigError>)
    requires
        call_ensures(BranchBaseConfig::verify, (&config,), r),
    ensures
        r is Ok <==> config.conflict is None,
        config.conflict matches Some(text) ==> (r matches Err(ConfigError::Conflict(told))
            && told@ == text@),
{
}

} // verus!
