//! Assembly of the logger configuration from the appenders that were built.

use vstd::prelude::*;
use vstd::string::*;
use crate::level::LogLevel;
use crate::logdir::LogDirectoryResolution;
use crate::logging::{sink_names, sinks_of};
use crate::targets::LogTarget;

verus! {

/// `log4rs::config::Appender`: a named appender, carried as it is.
#[verifier::external_type_specification]
#[verifier::external_body]
pub struct ExAppender(log4rs::config::Appender);

/// `log4rs::config::Config`: a finished configuration, carried as it is.
#[verifier::external_type_specification]
#[verifier::external_body]
pub struct ExConfig(log4rs::config::Config);

/// `log4rs::config::runtime::ConfigBuilder`, carried as it is.
#[verifier::external_type_specification]
#[verifier::external_body]
pub struct ExConfigBuilder(log4rs::config::runtime::ConfigBuilder);

/// `log4rs::config::Root`: the root logger's settings, carried as they are.
#[verifier::external_type_specification]
#[verifier::external_body]
pub struct ExRoot(log4rs::config::Root);

/// `log4rs::config::runtime::RootBuilder`, carried as it is.
#[verifier::external_type_specification]
#[verifier::external_body]
pub struct ExRootBuilder(log4rs::config::runtime::RootBuilder);

/// `log4rs::config::runtime::ConfigErrors`: why a configuration was refused.
#[verifier::external_type_specification]
#[verifier::external_body]
pub struct ExConfigErrors(log4rs::config::runtime::ConfigErrors);

/// The name of an appender.
pub uninterp spec fn appender_name(appender: log4rs::config::Appender) -> Seq<char>;

/// The names of the appenders that a configuration builder holds, in the
/// order in which they were added.
pub uninterp spec fn builder_appenders(builder: log4rs::config::runtime::ConfigBuilder) -> Seq<
    Seq<char>,
>;

/// The number of loggers, other than the root, that a configuration builder
/// holds.
pub uninterp spec fn builder_loggers(builder: log4rs::config::runtime::ConfigBuilder) -> nat;

/// The appender names that a root builder holds, in the order in which they
/// were added.
pub uninterp spec fn root_builder_appenders(builder: log4rs::config::runtime::RootBuilder) -> Seq<
    Seq<char>,
>;

/// The appender names of a root logger, and its level.
pub uninterp spec fn root_contents(root: log4rs::config::Root) -> (Seq<Seq<char>>, LogLevel);

/// The names of the appenders of a configuration, the appender names of its
/// root logger, and the root logger's level.
pub uninterp spec fn config_contents(config: log4rs::config::Config) -> (
    Seq<Seq<char>>,
    Seq<Seq<char>>,
    LogLevel,
);

/// Calls `Appender::name`. Trusted: the result is the appender's name.
#[verifier::external_body]
fn name_of(appender: &log4rs::config::Appender) -> (r: String)
    ensures
        r@ == appender_name(*appender),
{
    appender.name().to_owned()
}

/// Calls `Config::builder`. Trusted: the new builder holds no appender and
/// no logger.
#[verifier::external_body]
fn new_config_builder() -> (r: log4rs::config::runtime::ConfigBuilder)
    ensures
        builder_appenders(r) == Seq::<Seq<char>>::empty(),
        builder_loggers(r) == 0,
{
    log4rs::config::Config::builder()
}

/// Calls `ConfigBuilder::appender`. Trusted: the appender is added after
/// those that the builder holds, and the loggers stay as they are.
#[verifier::external_body]
fn with_appender(
    builder: log4rs::config::runtime::ConfigBuilder,
    appender: log4rs::config::Appender,
) -> (r: log4rs::config::runtime::ConfigBuilder)
    ensures
        builder_appenders(r) == builder_appenders(builder).push(appender_name(appender)),
        builder_loggers(r) == builder_loggers(builder),
{
    builder.appender(appender)
}

/// Calls `Root::builder`. Trusted: the new builder holds no appender name.
#[verifier::external_body]
fn new_root_builder() -> (r: log4rs::config::runtime::RootBuilder)
    ensures
        root_builder_appenders(r) == Seq::<Seq<char>>::empty(),
{
    log4rs::config::Root::builder()
}

/// Calls `RootBuilder::appender`. Trusted: the name is added after those
/// that the builder holds.
#[verifier::external_body]
fn with_root_appender(builder: log4rs::config::runtime::RootBuilder, name: String) -> (r:
    log4rs::config::runtime::RootBuilder)
    ensures
        root_builder_appenders(r) == root_builder_appenders(builder).push(name@),
{
    builder.appender(name)
}

/// Calls `RootBuilder::build`. Trusted: the root logger has the builder's
/// appender names and the given level.
#[verifier::external_body]
fn build_root(builder: log4rs::config::runtime::RootBuilder, level: LogLevel) -> (r:
    log4rs::config::Root)
    ensures
        root_contents(r) == (root_builder_appenders(builder), level),
{
    builder.build(
        match level {
            LogLevel::Off => log::LevelFilter::Off,
            LogLevel::Error => log::LevelFilter::Error,
            LogLevel::Warn => log::LevelFilter::Warn,
            LogLevel::Info => log::LevelFilter::Info,
            LogLevel::Debug => log::LevelFilter::Debug,
            LogLevel::Trace => log::LevelFilter::Trace,
        },
    )
}

/// Whether appenders and a root logger make a configuration: no two
/// appenders share a name, and the root logger names none but them.
pub open spec fn is_consistent(appenders: Seq<Seq<char>>, root_appenders: Seq<Seq<char>>) -> bool {
    &&& appenders.no_duplicates()
    &&& forall|i: int|
        0 <= i < root_appenders.len() ==> appenders.contains(#[trigger] root_appenders[i])
}

/// Calls `ConfigBuilder::build`. Trusted: on a builder without loggers it
/// succeeds exactly when no two appenders share a name and the root logger
/// names none but them, and the configuration then has the builder's
/// appenders and the root logger as given.
#[verifier::external_body]
fn build_config(builder: log4rs::config::runtime::ConfigBuilder, root: log4rs::config::Root) -> (r:
    Result<log4rs::config::Config, log4rs::config::runtime::ConfigErrors>)
    requires
        builder_loggers(builder) == 0,
    ensures
        r is Ok <==> is_consistent(builder_appenders(builder), root_contents(root).0),
        r is Ok ==> config_contents(r->Ok_0) == (
            builder_appenders(builder),
            root_contents(root).0,
            root_contents(root).1,
        ),
{
    builder.build(root)
}

/// The names of the appenders that were built, in order. An entry is `None`
/// where a sink could not be built.
pub open spec fn built_names(built: Seq<Option<log4rs::config::Appender>>) -> Seq<Seq<char>>
    decreases built.len(),
{
    if built.len() == 0 {
        Seq::<Seq<char>>::empty()
    } else {
        let before = built_names(built.drop_last());
        match built.last() {
            Some(appender) => before.push(appender_name(appender)),
            None => before,
        }
    }
}

/// The names of the appenders that are attached, in order: those that were
/// built, but for one whose name an earlier one already bears.
pub open spec fn attached_names(built: Seq<Option<log4rs::config::Appender>>) -> Seq<Seq<char>>
    decreases built.len(),
{
    if built.len() == 0 {
        Seq::<Seq<char>>::empty()
    } else {
        let before = attached_names(built.drop_last());
        match built.last() {
            Some(appender) => if before.contains(appender_name(appender)) {
                before
            } else {
                before.push(appender_name(appender))
            },
            None => before,
        }
    }
}

/// No name is attached twice, and every name attached is the name of an
/// appender that was built.
pub proof fn attached_names_are_distinct(built: Seq<Option<log4rs::config::Appender>>)
    ensures
        attached_names(built).no_duplicates(),
        forall|i: int|
            0 <= i < attached_names(built).len() ==> built_names(built).contains(
                #[trigger] attached_names(built)[i],
            ),
    decreases built.len(),
{
    if built.len() > 0 {
        let before = attached_names(built.drop_last());
        attached_names_are_distinct(built.drop_last());
        let names = built_names(built);
        let earlier = built_names(built.drop_last());
        assert forall|i: int| 0 <= i < attached_names(built).len() implies names.contains(
            #[trigger] attached_names(built)[i],
        ) by {
            if i < before.len() {
                let k = choose|k: int| 0 <= k < earlier.len() && earlier[k] == before[i];
                assert(names[k] == before[i]);
            } else {
                assert(names[names.len() - 1] == attached_names(built)[i]);
            }
        }
    }
}

/// When the appenders that were built bear distinct names, each of them is
/// attached.
pub proof fn distinct_names_are_all_attached(built: Seq<Option<log4rs::config::Appender>>)
    requires
        built_names(built).no_duplicates(),
    ensures
        attached_names(built) == built_names(built),
    decreases built.len(),
{
    if built.len() > 0 {
        let earlier = built_names(built.drop_last());
        let names = built_names(built);
        assert forall|i: int, j: int| 0 <= i < earlier.len() && 0 <= j < earlier.len() && i != j implies earlier[i]
            != earlier[j] by {
            assert(names[i] == earlier[i]);
            assert(names[j] == earlier[j]);
        }
        distinct_names_are_all_attached(built.drop_last());
        match built.last() {
            Some(appender) => {
                if earlier.contains(appender_name(appender)) {
                    let k = choose|k: int| 0 <= k < earlier.len() && earlier[k] == appender_name(appender);
                    assert(names[k] == names[names.len() - 1]);
                }
            },
            None => {},
        }
    }
}

fn holds(names: &Vec<String>, name: &String) -> (r: bool)
    ensures
        r == crate::text::views(names@).contains(name@),
{
    let ghost texts = crate::text::views(names@);
    let mut i: usize = 0;
    while i < names.len()
        invariant
            i <= names.len(),
            texts == crate::text::views(names@),
            forall|j: int| 0 <= j < i ==> texts[j] != name@,
        decreases names.len() - i,
    {
        assert(texts[i as int] == names@[i as int]@);
        if names[i] == *name {
            return true;
        }
        i += 1;
    }
    false
}

/// Assembles the configuration of a root logger at `level` that writes to
/// each appender that was built, in the order given. A sink that could not
/// be built, `None`, is left out and the others stay; so is an appender
/// whose name an earlier one already bears. The assembly cannot fail: with
/// nothing built the configuration logs nothing.
pub fn assemble_config(built: Vec<Option<log4rs::config::Appender>>, level: LogLevel) -> (r:
    log4rs::config::Config)
    ensures
        config_contents(r) == (attached_names(built@), attached_names(built@), level),
{
    let ghost all = built@;
    let mut config = new_config_builder();
    let mut root = new_root_builder();
    let mut names: Vec<String> = Vec::new();
    assert(all.take(0) =~= Seq::<Option<log4rs::config::Appender>>::empty());
    assert(crate::text::views(names@) =~= Seq::<Seq<char>>::empty());
    for entry in it: built
        invariant
            it.seq() == all,
            builder_loggers(config) == 0,
            crate::text::views(names@) == attached_names(all.take(it.index() as int)),
            builder_appenders(config) == attached_names(all.take(it.index() as int)),
            root_builder_appenders(root) == attached_names(all.take(it.index() as int)),
    {
        assert(all.take(it.index() + 1).drop_last() =~= all.take(it.index() as int));
        assert(all.take(it.index() + 1).last() == entry);
        match entry {
            Some(appender) => {
                let name = name_of(&appender);
                if !holds(&names, &name) {
                    let ghost before = names@;
                    names.push(name.clone());
                    assert(crate::text::views(names@) =~= crate::text::views(before).push(name@));
                    root = with_root_appender(root, name);
                    config = with_appender(config, appender);
                }
            },
            None => {},
        }
    }
    assert(all.take(all.len() as int) =~= all);
    let ghost attached = attached_names(all);
    proof {
        attached_names_are_distinct(all);
        assert forall|i: int| 0 <= i < attached.len() implies attached.contains(
            #[trigger] attached[i],
        ) by {}
    }
    match build_config(config, build_root(root, level)) {
        Ok(assembled) => assembled,
        Err(_) => vstd::pervasive::unreached(),
    }
}

/// The appenders built for a plan are all attached: when each appender that
/// was built bears the name of the sink it was built for, no name occurs
/// twice, whichever of the sinks could not be built.
pub proof fn built_plan_is_attached(
    process_name: Seq<char>,
    pid: u32,
    targets: Set<LogTarget>,
    dir: Option<LogDirectoryResolution>,
    built: Seq<Option<log4rs::config::Appender>>,
)
    requires
        built.len() == sinks_of(process_name, pid, targets, dir).len(),
        forall|i: int|
            0 <= i < built.len() && built[i] is Some ==> appender_name(#[trigger] built[i]->0)
                == sinks_of(process_name, pid, targets, dir)[i].name(),
    ensures
        built_names(built).no_duplicates(),
        attached_names(built) == built_names(built),
{
    reveal_with_fuel(built_names, 3);
    let sinks = sinks_of(process_name, pid, targets, dir);
    crate::logging::sink_names_are_distinct(process_name, pid, targets, dir);
    let names = sink_names(sinks);
    assert(built.len() <= 2);
    if built.len() == 0 {
    } else if built.len() == 1 {
        assert(built.drop_last().len() == 0);
        assert(built_names(built).len() <= 1);
    } else {
        let first = built.drop_last();
        assert(first.drop_last().len() == 0);
        assert(first.last() == built[0]);
        assert(built.last() == built[1]);
        assert(built_names(first).len() <= 1);
        if built[0] is Some && built[1] is Some {
            assert(built_names(built) =~= seq![names[0], names[1]]);
            assert(names[0] != names[1]);
        }
    }
    distinct_names_are_all_attached(built);
}

} // verus!
